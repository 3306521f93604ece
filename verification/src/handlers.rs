//! The artifact service and the request pipeline.
//!
//! Each artifact endpoint is a function from the request's plain values to
//! a typed response, verified against the in-memory backend's map view.
//! `handle_artifact_request` composes the full pipeline the HTTP boundary
//! exposes: the authentication guard first (the status endpoint excepted),
//! then parameter validation, then the storage operation. The embedding
//! application renders `ApiResponse` as HTTP and, for the I/O backends,
//! reuses the per-step functions and the `*_outcome` translators here.

use vstd::prelude::*;
use vstd::string::StringExecFns;

use crate::auth::{
    spec_auth_decision, spec_header_view, spec_tokens_view, Auth, AuthDecision,
};
use crate::helpers::{
    artifact_params_or_400, bad_request, exists_cached_artifact, get_artifact_path,
    internal_server_error, not_found, spec_artifact_key, spec_boom, unauthorized, BoomResponse,
    GetArtifactQuery, QueryModel,
};
use crate::storage::MemoryStore;

verus! {

/// The body of the unauthenticated status endpoint.
pub struct Status {
    pub status: String,
}

/// The body of a successful store: the canonical location of the artifact.
pub struct PutArtifactResponse {
    pub urls: Vec<String>,
}

/// What an artifact endpoint answers with; the HTTP boundary renders it.
pub enum ResponseBody {
    /// An empty JSON object (the events endpoint).
    Empty,
    /// The status payload.
    StatusBody(Status),
    /// The existence acknowledgement of a head request.
    Exists,
    /// The artifact's raw bytes.
    Data(Vec<u8>),
    /// The stored artifact's location.
    Urls(PutArtifactResponse),
    /// A failure payload.
    Boom(BoomResponse),
}

/// A typed response: the HTTP status code and the body to render.
pub struct ApiResponse {
    pub code: u16,
    pub body: ResponseBody,
}

/// Mathematical image of `ResponseBody`.
pub enum BodyModel {
    Empty,
    StatusBody(Seq<char>),
    Exists,
    Data(Seq<u8>),
    Urls(Seq<Seq<char>>),
    Boom(crate::helpers::BoomModel),
}

/// Mathematical image of `ApiResponse`.
pub struct RespModel {
    pub code: int,
    pub body: BodyModel,
}

impl View for ApiResponse {
    type V = RespModel;

    open spec fn view(&self) -> RespModel {
        RespModel {
            code: self.code as int,
            body: match self.body {
                ResponseBody::Empty => BodyModel::Empty,
                ResponseBody::StatusBody(s) => BodyModel::StatusBody(s.status@),
                ResponseBody::Exists => BodyModel::Exists,
                ResponseBody::Data(d) => BodyModel::Data(d@),
                ResponseBody::Urls(u) => BodyModel::Urls(u.urls.deep_view()),
                ResponseBody::Boom(b) => BodyModel::Boom(b@),
            },
        }
    }
}

/// The status endpoint's answer: always enabled.
pub open spec fn spec_status_resp() -> RespModel {
    RespModel { code: 200, body: BodyModel::StatusBody("enabled"@) }
}

/// The events endpoint's answer: the body is accepted and discarded.
pub open spec fn spec_events_resp() -> RespModel {
    RespModel { code: 200, body: BodyModel::Empty }
}

/// The rejection of a request with no team-identifying parameter.
pub open spec fn spec_missing_team_resp() -> RespModel {
    RespModel {
        code: 400,
        body: BodyModel::Boom(
            spec_boom(400, "Bad Request"@, "team is required in query parameters"@),
        ),
    }
}

/// The answer for an artifact whose key is absent.
pub open spec fn spec_not_found_resp() -> RespModel {
    RespModel {
        code: 404,
        body: BodyModel::Boom(spec_boom(404, "Not Found"@, "Artifact not found"@)),
    }
}

/// The answer for a backend failure; generic on purpose, so the provider's
/// error is not leaked to the client.
pub open spec fn spec_storage_failure_resp() -> RespModel {
    RespModel {
        code: 500,
        body: BodyModel::Boom(spec_boom(500, "Internal Server Error"@, "Failed to get artifact."@)),
    }
}

/// What a head request answers, given the resolved team, the artifact id
/// and the store's contents.
pub open spec fn spec_head_resp(
    team: Option<Seq<char>>,
    id: Seq<char>,
    store: Map<Seq<char>, Seq<u8>>,
) -> RespModel {
    if team is None {
        spec_missing_team_resp()
    } else if store.contains_key(spec_artifact_key(team.unwrap(), id)) {
        RespModel { code: 200, body: BodyModel::Exists }
    } else {
        spec_not_found_resp()
    }
}

/// What a read answers: the stored bytes exactly, or the absence report.
pub open spec fn spec_get_resp(
    team: Option<Seq<char>>,
    id: Seq<char>,
    store: Map<Seq<char>, Seq<u8>>,
) -> RespModel {
    if team is None {
        spec_missing_team_resp()
    } else if store.contains_key(spec_artifact_key(team.unwrap(), id)) {
        RespModel { code: 200, body: BodyModel::Data(store[spec_artifact_key(team.unwrap(), id)]) }
    } else {
        spec_not_found_resp()
    }
}

/// What a store answers: the resolved key as the canonical location.
pub open spec fn spec_put_resp(
    team: Option<Seq<char>>,
    id: Seq<char>,
    store: Map<Seq<char>, Seq<u8>>,
) -> RespModel {
    if team is None {
        spec_missing_team_resp()
    } else {
        RespModel { code: 200, body: BodyModel::Urls(seq![spec_artifact_key(team.unwrap(), id)]) }
    }
}

/// The store's contents after a put: unchanged on a rejected request, else
/// the key is overwritten with the request body (last write wins).
pub open spec fn spec_put_store(
    team: Option<Seq<char>>,
    id: Seq<char>,
    body: Seq<u8>,
    store: Map<Seq<char>, Seq<u8>>,
) -> Map<Seq<char>, Seq<u8>> {
    if team is None {
        store
    } else {
        store.insert(spec_artifact_key(team.unwrap(), id), body)
    }
}

/// The status endpoint: reachable without a token, always enabled.
pub fn get_status() -> (r: ApiResponse)
    ensures
        r@ == spec_status_resp(),
{
    ApiResponse {
        code: 200,
        body: ResponseBody::StatusBody(Status { status: String::from_str("enabled") }),
    }
}

/// The events endpoint: accepts and discards its body.
pub fn post_artifacts_events() -> (r: ApiResponse)
    ensures
        r@ == spec_events_resp(),
{
    ApiResponse { code: 200, body: ResponseBody::Empty }
}

/// The rejection of a request with no team-identifying parameter.
pub fn missing_team_response() -> (r: ApiResponse)
    ensures
        r@ == spec_missing_team_resp(),
{
    ApiResponse {
        code: 400,
        body: ResponseBody::Boom(
            bad_request(String::from_str("team is required in query parameters")),
        ),
    }
}

/// The generic backend-failure answer.
pub fn storage_failure_response() -> (r: ApiResponse)
    ensures
        r@ == spec_storage_failure_resp(),
{
    ApiResponse {
        code: 500,
        body: ResponseBody::Boom(internal_server_error(String::from_str("Failed to get artifact."))),
    }
}

/// Translates the existence check's outcome into the head answer.
pub fn head_outcome(found: bool) -> (r: ApiResponse)
    ensures
        found ==> r@ == (RespModel { code: 200, body: BodyModel::Exists }),
        !found ==> r@ == spec_not_found_resp(),
{
    if found {
        ApiResponse { code: 200, body: ResponseBody::Exists }
    } else {
        ApiResponse {
            code: 404,
            body: ResponseBody::Boom(not_found(String::from_str("Artifact not found"))),
        }
    }
}

/// Translates a read's outcome into the get answer.
pub fn get_outcome(data: Option<Vec<u8>>) -> (r: ApiResponse)
    ensures
        data is Some ==> r@ == (RespModel { code: 200, body: BodyModel::Data(data.unwrap()@) }),
        data is None ==> r@ == spec_not_found_resp(),
{
    match data {
        Some(d) => ApiResponse { code: 200, body: ResponseBody::Data(d) },
        None => ApiResponse {
            code: 404,
            body: ResponseBody::Boom(not_found(String::from_str("Artifact not found"))),
        },
    }
}

/// Translates a successful store into the put answer: the resolved key is
/// the one location reported back.
pub fn put_outcome(path: String) -> (r: ApiResponse)
    ensures
        r@ == (RespModel { code: 200, body: BodyModel::Urls(seq![path@]) }),
{
    let mut urls: Vec<String> = Vec::new();
    urls.push(path);
    let r = ApiResponse { code: 200, body: ResponseBody::Urls(PutArtifactResponse { urls }) };
    proof {
        assert(r@.body matches BodyModel::Urls(u) && u =~= seq![path@]);
    }
    r
}

/// The head endpoint: resolve the key, then the existence check. No side
/// effects.
pub fn head_artifact(id: String, query: GetArtifactQuery, storage: &MemoryStore) -> (r: ApiResponse)
    requires
        storage.wf(),
    ensures
        r@ == spec_head_resp(query@.team_of(), id@, storage@),
{
    match artifact_params_or_400(id, query) {
        Err(_) => missing_team_response(),
        Ok((artifact_id, team_id)) => {
            let found = exists_cached_artifact(&artifact_id, &team_id, storage).is_ok();
            head_outcome(found)
        },
    }
}

/// The get endpoint: resolve the key, check existence, then read. The
/// two-step check is the calling convention of this system; under the
/// in-memory backend the read after a successful check cannot fail, so the
/// backend-failure answer is provably unreachable here.
pub fn get_artifact(id: String, query: GetArtifactQuery, storage: &MemoryStore) -> (r: ApiResponse)
    requires
        storage.wf(),
    ensures
        r@ == spec_get_resp(query@.team_of(), id@, storage@),
{
    match artifact_params_or_400(id, query) {
        Err(_) => missing_team_response(),
        Ok((artifact_id, team_id)) => {
            if exists_cached_artifact(&artifact_id, &team_id, storage).is_ok() {
                let path = get_artifact_path(&artifact_id, &team_id);
                match storage.get(&path) {
                    Some(data) => get_outcome(Some(data)),
                    None => storage_failure_response(),
                }
            } else {
                get_outcome(None)
            }
        },
    }
}

/// The put endpoint: resolve the key, store the body (an idempotent
/// overwrite), and answer with the key as the canonical location.
pub fn put_artifact(
    id: String,
    query: GetArtifactQuery,
    body: Vec<u8>,
    storage: &mut MemoryStore,
) -> (r: ApiResponse)
    requires
        old(storage).wf(),
    ensures
        final(storage).wf(),
        final(storage)@ == spec_put_store(query@.team_of(), id@, body@, old(storage)@),
        r@ == spec_put_resp(query@.team_of(), id@, old(storage)@),
{
    match artifact_params_or_400(id, query) {
        Err(_) => missing_team_response(),
        Ok((artifact_id, team_id)) => {
            let path = get_artifact_path(&artifact_id, &team_id);
            storage.put(&path, body);
            put_outcome(path)
        },
    }
}

/// An artifact request as the HTTP boundary hands it over: the operation,
/// with its path segment, query parameters and body where they apply.
pub enum ArtifactOp {
    Status,
    Events,
    Head { id: String, query: GetArtifactQuery },
    Get { id: String, query: GetArtifactQuery },
    Put { id: String, query: GetArtifactQuery, body: Vec<u8> },
}

/// Mathematical image of `ArtifactOp`.
pub enum OpModel {
    Status,
    Events,
    Head { id: Seq<char>, query: QueryModel },
    Get { id: Seq<char>, query: QueryModel },
    Put { id: Seq<char>, query: QueryModel, body: Seq<u8> },
}

impl View for ArtifactOp {
    type V = OpModel;

    open spec fn view(&self) -> OpModel {
        match self {
            ArtifactOp::Status => OpModel::Status,
            ArtifactOp::Events => OpModel::Events,
            ArtifactOp::Head { id, query } => OpModel::Head { id: id@, query: query@ },
            ArtifactOp::Get { id, query } => OpModel::Get { id: id@, query: query@ },
            ArtifactOp::Put { id, query, body } => OpModel::Put {
                id: id@,
                query: query@,
                body: body@,
            },
        }
    }
}

/// What the guard answers when it rejects a request. A missing token set is
/// an operational misconfiguration and a bad request; missing, malformed or
/// unaccepted credentials are unauthorized. (`Allowed` rejects nothing; its
/// arm only keeps the function total.)
pub open spec fn spec_auth_error_resp(d: AuthDecision) -> RespModel {
    match d {
        AuthDecision::MissingConfig => RespModel {
            code: 400,
            body: BodyModel::Boom(
                spec_boom(400, "Bad Request"@, "Missing TURBO_TOKENS in the environment"@),
            ),
        },
        AuthDecision::MissingHeader => RespModel {
            code: 401,
            body: BodyModel::Boom(
                spec_boom(401, "Unauthorized"@, "Missing Authorization header"@),
            ),
        },
        AuthDecision::MalformedHeader => RespModel {
            code: 401,
            body: BodyModel::Boom(spec_boom(401, "Unauthorized"@, "Invalid Authorization header"@)),
        },
        AuthDecision::InvalidToken => RespModel {
            code: 401,
            body: BodyModel::Boom(spec_boom(401, "Unauthorized"@, "Invalid Turbo Token"@)),
        },
        AuthDecision::Allowed => RespModel { code: 200, body: BodyModel::Empty },
    }
}

/// Renders a guard decision as a response; the HTTP boundary calls this for
/// any backend when the guard rejects.
pub fn auth_error_response(d: AuthDecision) -> (r: ApiResponse)
    ensures
        r@ == spec_auth_error_resp(d),
{
    match d {
        AuthDecision::MissingConfig => ApiResponse {
            code: 400,
            body: ResponseBody::Boom(
                bad_request(String::from_str("Missing TURBO_TOKENS in the environment")),
            ),
        },
        AuthDecision::MissingHeader => ApiResponse {
            code: 401,
            body: ResponseBody::Boom(
                unauthorized(String::from_str("Missing Authorization header")),
            ),
        },
        AuthDecision::MalformedHeader => ApiResponse {
            code: 401,
            body: ResponseBody::Boom(
                unauthorized(String::from_str("Invalid Authorization header")),
            ),
        },
        AuthDecision::InvalidToken => ApiResponse {
            code: 401,
            body: ResponseBody::Boom(unauthorized(String::from_str("Invalid Turbo Token"))),
        },
        AuthDecision::Allowed => ApiResponse { code: 200, body: ResponseBody::Empty },
    }
}

/// The whole pipeline for one request: the response it yields and the
/// store's contents afterwards. The status endpoint bypasses the guard;
/// every other endpoint is gated before any parameter is looked at or any
/// backend call is made, and only an authorized put changes the store.
pub open spec fn spec_handle(
    tokens: Option<Seq<Seq<char>>>,
    header: Option<Seq<char>>,
    op: OpModel,
    store: Map<Seq<char>, Seq<u8>>,
) -> (RespModel, Map<Seq<char>, Seq<u8>>) {
    if op is Status {
        (spec_status_resp(), store)
    } else {
        let d = spec_auth_decision(tokens, header);
        if d != AuthDecision::Allowed {
            (spec_auth_error_resp(d), store)
        } else {
            match op {
                OpModel::Status => (spec_status_resp(), store),
                OpModel::Events => (spec_events_resp(), store),
                OpModel::Head { id, query } => (spec_head_resp(query.team_of(), id, store), store),
                OpModel::Get { id, query } => (spec_get_resp(query.team_of(), id, store), store),
                OpModel::Put { id, query, body } => (
                    spec_put_resp(query.team_of(), id, store),
                    spec_put_store(query.team_of(), id, body, store),
                ),
            }
        }
    }
}

/// Runs one request against the in-memory backend: guard, validation,
/// storage operation, in that order.
pub fn handle_artifact_request(
    tokens: Option<&Vec<String>>,
    authorization: Option<&String>,
    op: ArtifactOp,
    storage: &mut MemoryStore,
) -> (r: ApiResponse)
    requires
        old(storage).wf(),
    ensures
        final(storage).wf(),
        r@ == spec_handle(
            spec_tokens_view(tokens),
            spec_header_view(authorization),
            op@,
            old(storage)@,
        ).0,
        final(storage)@ == spec_handle(
            spec_tokens_view(tokens),
            spec_header_view(authorization),
            op@,
            old(storage)@,
        ).1,
{
    match op {
        ArtifactOp::Status => get_status(),
        guarded => {
            let d = Auth::check(tokens, authorization);
            if d != AuthDecision::Allowed {
                auth_error_response(d)
            } else {
                match guarded {
                    ArtifactOp::Status => get_status(),
                    ArtifactOp::Events => post_artifacts_events(),
                    ArtifactOp::Head { id, query } => head_artifact(id, query, storage),
                    ArtifactOp::Get { id, query } => get_artifact(id, query, storage),
                    ArtifactOp::Put { id, query, body } => put_artifact(id, query, body, storage),
                }
            }
        },
    }
}

} // verus!
