//! Process-wide configuration: the accepted bearer tokens, the chosen
//! storage provider, the bucket/container name, and the local filesystem
//! cache root. Built once at startup and shared read-only afterwards.

use vstd::prelude::*;
use vstd::string::{StrSliceExecFns, StringExecFns};

verus! {

/// The storage backend variants the gateway can be pointed at. Selected once
/// at startup from configuration; an unrecognized selector is a fatal
/// startup error, not a per-request one.
#[derive(Clone, Copy, Debug, PartialEq, Eq, Structural)]
pub enum StorageProvider {
    S3,
    File,
    Gcs,
    Azure,
    Memory,
}

/// The provider named by a configuration selector string, if any.
pub open spec fn spec_provider_of(name: Seq<char>) -> Option<StorageProvider> {
    if name == "s3"@ {
        Some(StorageProvider::S3)
    } else if name == "file"@ {
        Some(StorageProvider::File)
    } else if name == "gcs"@ {
        Some(StorageProvider::Gcs)
    } else if name == "azure"@ {
        Some(StorageProvider::Azure)
    } else if name == "memory"@ {
        Some(StorageProvider::Memory)
    } else {
        None
    }
}

impl StorageProvider {
    /// Parses a provider selector. An unrecognized name yields `None`, so
    /// the caller can refuse to start instead of serving requests against a
    /// broken backend.
    pub fn from_name(name: &str) -> (r: Option<StorageProvider>)
        ensures
            r == spec_provider_of(name@),
    {
        let n = String::from_str(name);
        if n == String::from_str("s3") {
            Some(StorageProvider::S3)
        } else if n == String::from_str("file") {
            Some(StorageProvider::File)
        } else if n == String::from_str("gcs") {
            Some(StorageProvider::Gcs)
        } else if n == String::from_str("azure") {
            Some(StorageProvider::Azure)
        } else if n == String::from_str("memory") {
            Some(StorageProvider::Memory)
        } else {
            None
        }
    }

    /// The display name of the provider.
    pub fn name(&self) -> (r: &'static str)
        ensures
            *self == StorageProvider::S3 ==> r@ == "S3"@,
            *self == StorageProvider::File ==> r@ == "File"@,
            *self == StorageProvider::Gcs ==> r@ == "GCS"@,
            *self == StorageProvider::Azure ==> r@ == "Azure"@,
            *self == StorageProvider::Memory ==> r@ == "Memory"@,
    {
        match self {
            StorageProvider::S3 => "S3",
            StorageProvider::File => "File",
            StorageProvider::Gcs => "GCS",
            StorageProvider::Azure => "Azure",
            StorageProvider::Memory => "Memory",
        }
    }
}

impl Default for StorageProvider {
    fn default() -> (r: Self)
        ensures
            r == StorageProvider::Memory,
    {
        StorageProvider::Memory
    }
}

/// The comma-separated fields of `s`, in order: one more field than there
/// are commas, an empty field between adjacent commas and at either end.
pub open spec fn spec_split_commas(s: Seq<char>) -> Seq<Seq<char>>
    decreases s.len(),
{
    if s.len() == 0 {
        seq![Seq::<char>::empty()]
    } else {
        let rest = spec_split_commas(s.drop_last());
        if s.last() == ',' {
            rest.push(Seq::<char>::empty())
        } else {
            rest.update(rest.len() - 1, rest.last().push(s.last()))
        }
    }
}

/// Splits a configured token list on commas, as the accepted-token set is
/// written in the environment.
pub fn split_turbo_tokens(s: &str) -> (r: Vec<String>)
    ensures
        r.deep_view() == spec_split_commas(s@),
{
    let n = s.unicode_len();
    let mut out: Vec<String> = Vec::new();
    let mut start: usize = 0;
    let mut i: usize = 0;
    proof {
        assert(s@.subrange(0, 0) =~= Seq::<char>::empty());
        assert(out.deep_view().push(s@.subrange(0, 0)) =~= spec_split_commas(s@.subrange(0, 0)));
    }
    while i < n
        invariant
            n == s@.len(),
            0 <= start <= i <= n,
            spec_split_commas(s@.subrange(0, i as int)) == out.deep_view().push(
                s@.subrange(start as int, i as int),
            ),
        decreases n - i,
    {
        proof {
            assert(s@.subrange(0, i + 1).drop_last() =~= s@.subrange(0, i as int));
            assert(s@.subrange(0, i + 1).last() == s@[i as int]);
        }
        if s.get_char(i) == ',' {
            let token = String::from_str(s.substring_char(start, i));
            let ghost prev = out.deep_view();
            out.push(token);
            start = i + 1;
            proof {
                assert(out.deep_view() =~= prev.push(token@));
                assert(s@.subrange(start as int, i + 1) =~= Seq::<char>::empty());
                assert(spec_split_commas(s@.subrange(0, i + 1)) =~= out.deep_view().push(
                    s@.subrange(start as int, i + 1),
                ));
            }
        } else {
            proof {
                assert(s@.subrange(start as int, i + 1) =~= s@.subrange(start as int, i as int).push(
                    s@[i as int],
                ));
                assert(spec_split_commas(s@.subrange(0, i + 1)) =~= out.deep_view().push(
                    s@.subrange(start as int, i + 1),
                ));
            }
        }
        i = i + 1;
    }
    let token = String::from_str(s.substring_char(start, n));
    let ghost prev = out.deep_view();
    out.push(token);
    proof {
        assert(s@.subrange(0, n as int) =~= s@);
        assert(out.deep_view() =~= prev.push(token@));
    }
    out
}

/// Immutable process configuration. `turbo_tokens` is the set of accepted
/// bearer tokens; `fs_cache_path` is used only by the filesystem backend.
#[derive(Clone, Debug)]
pub struct Config {
    pub turbo_tokens: Vec<String>,
    pub storage_provider: StorageProvider,
    pub fs_cache_path: String,
    pub bucket_name: String,
}

impl Default for Config {
    /// No accepted tokens, the in-memory backend, and the bucket name
    /// `"cache"`. The filesystem cache root is environment data (the
    /// platform's temporary directory by convention), so it starts empty and
    /// the embedding application fills it in.
    fn default() -> (c: Config)
        ensures
            c.turbo_tokens@ == Seq::<String>::empty(),
            c.storage_provider == StorageProvider::Memory,
            c.fs_cache_path@ == Seq::<char>::empty(),
            c.bucket_name@ == "cache"@,
    {
        Config {
            turbo_tokens: Vec::new(),
            storage_provider: StorageProvider::Memory,
            fs_cache_path: String::new(),
            bucket_name: String::from_str("cache"),
        }
    }
}

impl Config {
    pub fn with_turbo_tokens(self, turbo_tokens: Vec<String>) -> (c: Config)
        ensures
            c.turbo_tokens == turbo_tokens,
            c.storage_provider == self.storage_provider,
            c.fs_cache_path == self.fs_cache_path,
            c.bucket_name == self.bucket_name,
    {
        Config {
            turbo_tokens,
            storage_provider: self.storage_provider,
            fs_cache_path: self.fs_cache_path,
            bucket_name: self.bucket_name,
        }
    }

    pub fn with_storage_provider(self, storage_provider: StorageProvider) -> (c: Config)
        ensures
            c.turbo_tokens == self.turbo_tokens,
            c.storage_provider == storage_provider,
            c.fs_cache_path == self.fs_cache_path,
            c.bucket_name == self.bucket_name,
    {
        Config {
            turbo_tokens: self.turbo_tokens,
            storage_provider,
            fs_cache_path: self.fs_cache_path,
            bucket_name: self.bucket_name,
        }
    }

    pub fn with_fs_cache_path(self, fs_cache_path: String) -> (c: Config)
        ensures
            c.turbo_tokens == self.turbo_tokens,
            c.storage_provider == self.storage_provider,
            c.fs_cache_path == fs_cache_path,
            c.bucket_name == self.bucket_name,
    {
        Config {
            turbo_tokens: self.turbo_tokens,
            storage_provider: self.storage_provider,
            fs_cache_path,
            bucket_name: self.bucket_name,
        }
    }

    pub fn with_bucket_name(self, bucket_name: String) -> (c: Config)
        ensures
            c.turbo_tokens == self.turbo_tokens,
            c.storage_provider == self.storage_provider,
            c.fs_cache_path == self.fs_cache_path,
            c.bucket_name == bucket_name,
    {
        Config {
            turbo_tokens: self.turbo_tokens,
            storage_provider: self.storage_provider,
            fs_cache_path: self.fs_cache_path,
            bucket_name,
        }
    }
}

} // verus!
