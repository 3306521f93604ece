//! Request validation and typed response shells.
//!
//! `GetArtifactQuery` carries the up-to-three team-identifying query
//! parameters; resolving them (with strict precedence) and deriving the
//! storage key happens here. `BoomResponse` is the error payload the HTTP
//! boundary renders as JSON; the builders pin its exact contents.

use vstd::prelude::*;
use vstd::string::StringExecFns;

use crate::storage::MemoryStore;

verus! {

/// Mathematical image of `BoomResponse`.
pub struct BoomModel {
    pub status_code: int,
    pub error: Option<Seq<char>>,
    pub message: Seq<char>,
}

/// The error payload of the HTTP boundary: a status code, the standard
/// reason phrase (absent on success), and a human-readable message.
pub struct BoomResponse {
    pub status_code: i32,
    pub error: Option<String>,
    pub message: String,
}

impl View for BoomResponse {
    type V = BoomModel;

    open spec fn view(&self) -> BoomModel {
        BoomModel {
            status_code: self.status_code as int,
            error: self.error.deep_view(),
            message: self.message@,
        }
    }
}

/// A failure payload: `code` with its reason phrase `error`.
pub open spec fn spec_boom(code: int, error: Seq<char>, message: Seq<char>) -> BoomModel {
    BoomModel { status_code: code, error: Some(error), message }
}

pub fn bad_request(message: String) -> (r: BoomResponse)
    ensures
        r@ == spec_boom(400, "Bad Request"@, message@),
{
    BoomResponse { status_code: 400, error: Some(String::from_str("Bad Request")), message }
}

pub fn unauthorized(message: String) -> (r: BoomResponse)
    ensures
        r@ == spec_boom(401, "Unauthorized"@, message@),
{
    BoomResponse { status_code: 401, error: Some(String::from_str("Unauthorized")), message }
}

pub fn not_found(message: String) -> (r: BoomResponse)
    ensures
        r@ == spec_boom(404, "Not Found"@, message@),
{
    BoomResponse { status_code: 404, error: Some(String::from_str("Not Found")), message }
}

pub fn internal_server_error(message: String) -> (r: BoomResponse)
    ensures
        r@ == spec_boom(500, "Internal Server Error"@, message@),
{
    BoomResponse {
        status_code: 500,
        error: Some(String::from_str("Internal Server Error")),
        message,
    }
}

pub fn not_implemented(message: String) -> (r: BoomResponse)
    ensures
        r@ == spec_boom(501, "Not Implemented"@, message@),
{
    BoomResponse { status_code: 501, error: Some(String::from_str("Not Implemented")), message }
}

pub fn precondition_failed(message: String) -> (r: BoomResponse)
    ensures
        r@ == spec_boom(412, "Precondition Failed"@, message@),
{
    BoomResponse { status_code: 412, error: Some(String::from_str("Precondition Failed")), message }
}

pub fn ok(message: String) -> (r: BoomResponse)
    ensures
        r@ == (BoomModel { status_code: 200, error: None, message: message@ }),
{
    BoomResponse { status_code: 200, error: None, message }
}

/// Mathematical image of `GetArtifactQuery`.
pub struct QueryModel {
    pub team_id: Option<Seq<char>>,
    pub team: Option<Seq<char>>,
    pub slug: Option<Seq<char>>,
}

impl QueryModel {
    /// The team identifier the query resolves to: the explicit `teamId`
    /// parameter wins, then the legacy `team` alias, then the legacy `slug`
    /// alias. This precedence is fixed for backward compatibility.
    pub open spec fn team_of(self) -> Option<Seq<char>> {
        if self.team_id is Some {
            self.team_id
        } else if self.team is Some {
            self.team
        } else {
            self.slug
        }
    }
}

/// The team-identifying query parameters of an artifact request, each
/// optional: the explicit team id and the two legacy aliases.
pub struct GetArtifactQuery {
    pub team_id: Option<String>,
    pub team: Option<String>,
    pub slug: Option<String>,
}

impl View for GetArtifactQuery {
    type V = QueryModel;

    open spec fn view(&self) -> QueryModel {
        QueryModel {
            team_id: self.team_id.deep_view(),
            team: self.team.deep_view(),
            slug: self.slug.deep_view(),
        }
    }
}

/// A request with no team-identifying parameter is a client error.
#[derive(Clone, Copy, Debug, PartialEq, Eq, Structural)]
pub enum ValidationError {
    MissingTeam,
}

/// Validates an artifact request's parameters: the artifact id (a required
/// path segment, opaque, possibly empty) passes through, and the team
/// identifier is resolved by `QueryModel::team_of`. With no team candidate
/// the request fails and no key is produced.
pub fn artifact_params_or_400(path: String, query: GetArtifactQuery) -> (r: Result<
    (String, String),
    ValidationError,
>)
    ensures
        (r is Ok) == (query@.team_of() is Some),
        r is Ok ==> r.unwrap().0 == path && r.unwrap().1@ == query@.team_of().unwrap(),
        r is Err ==> r.unwrap_err() == ValidationError::MissingTeam,
{
    let GetArtifactQuery { team_id, team, slug } = query;
    let resolved = match team_id {
        Some(t) => Some(t),
        None => match team {
            Some(t) => Some(t),
            None => slug,
        },
    };
    match resolved {
        Some(t) => Ok((path, t)),
        None => Err(ValidationError::MissingTeam),
    }
}

/// The storage key an artifact lives under: `"<team>/<artifact id>"`.
/// Deterministic and total; distinct pairs collide only through the
/// documented separator aliasing, which is an accepted limitation.
pub open spec fn spec_artifact_key(team: Seq<char>, id: Seq<char>) -> Seq<char> {
    team + "/"@ + id
}

/// Derives the storage key for `(team_id, artifact_id)`.
pub fn get_artifact_path(artifact_id: &String, team_id: &String) -> (r: String)
    ensures
        r@ == spec_artifact_key(team_id@, artifact_id@),
{
    let mut r = team_id.clone();
    r.append("/");
    r.append(artifact_id.as_str());
    r
}

/// The existence pre-check used before a read: succeeds exactly when the
/// artifact's key is present, and otherwise reports the missing key.
pub fn exists_cached_artifact(artifact_id: &String, team_id: &String, storage: &MemoryStore) -> (r:
    Result<bool, String>)
    requires
        storage.wf(),
    ensures
        (r is Ok) == storage@.contains_key(spec_artifact_key(team_id@, artifact_id@)),
        r is Ok ==> r.unwrap() == true,
        r is Err ==> r.unwrap_err()@ == "Artifact "@ + spec_artifact_key(team_id@, artifact_id@)
            + " doesn't exist."@,
{
    let artifact_path = get_artifact_path(artifact_id, team_id);
    if storage.contains(&artifact_path) {
        Ok(true)
    } else {
        let mut m = String::from_str("Artifact ");
        m.append(artifact_path.as_str());
        m.append(" doesn't exist.");
        Err(m)
    }
}

} // verus!
