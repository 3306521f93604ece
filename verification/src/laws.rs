//! The behaviour the gateway promises, stated once over the specification
//! functions of the pipeline and proved for every input.

use vstd::prelude::*;

use crate::auth::{is_bearer_header, spec_auth_decision, spec_bearer_token, AuthDecision};
use crate::handlers::{
    spec_auth_error_resp, spec_get_resp, spec_handle, spec_head_resp, spec_missing_team_resp,
    spec_not_found_resp, spec_put_store, spec_status_resp, BodyModel, OpModel, RespModel,
};
use crate::helpers::{spec_artifact_key, QueryModel};

verus! {

/// Round trip: for every team, artifact id and byte sequence, storing under
/// a pair and then reading the same pair yields exactly the stored bytes.
pub proof fn lemma_put_then_get_round_trip(
    team: Seq<char>,
    id: Seq<char>,
    bytes: Seq<u8>,
    store: Map<Seq<char>, Seq<u8>>,
)
    ensures
        ({
            let stored = spec_put_store(Some(team), id, bytes, store);
            spec_get_resp(Some(team), id, stored) == (RespModel {
                code: 200,
                body: BodyModel::Data(bytes),
            })
        }),
{
}

/// A pair never written does not exist: its key is absent from the store,
/// and both the read and the head answer the not-found failure.
pub proof fn lemma_never_written_not_found(
    team: Seq<char>,
    id: Seq<char>,
    store: Map<Seq<char>, Seq<u8>>,
)
    requires
        !store.contains_key(spec_artifact_key(team, id)),
    ensures
        spec_head_resp(Some(team), id, store) == spec_not_found_resp(),
        spec_get_resp(Some(team), id, store) == spec_not_found_resp(),
{
}

/// Only a store operation changes the store: any other request leaves its
/// contents untouched, whatever the credentials.
pub proof fn lemma_read_requests_preserve_store(
    tokens: Option<Seq<Seq<char>>>,
    header: Option<Seq<char>>,
    op: OpModel,
    store: Map<Seq<char>, Seq<u8>>,
)
    requires
        !(op is Put),
    ensures
        spec_handle(tokens, header, op, store).1 == store,
{
}

/// An authorized artifact request with no team-identifying query parameter
/// yields the validation failure, regardless of the method, the artifact id
/// and the store's contents — and changes nothing.
pub proof fn lemma_missing_team_always_rejected(
    tokens: Seq<Seq<char>>,
    header: Seq<char>,
    op: OpModel,
    store: Map<Seq<char>, Seq<u8>>,
)
    requires
        spec_auth_decision(Some(tokens), Some(header)) == AuthDecision::Allowed,
        (op matches OpModel::Head { id: _, query } && query.team_of() is None) || (op
            matches OpModel::Get { id: _, query } && query.team_of() is None) || (op
            matches OpModel::Put { id: _, query, body: _ } && query.team_of() is None),
    ensures
        spec_handle(Some(tokens), Some(header), op, store).0 == spec_missing_team_resp(),
        spec_handle(Some(tokens), Some(header), op, store).1 == store,
{
}

/// A present `teamId` parameter takes precedence over the `team` and `slug`
/// aliases, whether or not they are also present.
pub proof fn lemma_team_id_precedence(q: QueryModel)
    requires
        q.team_id is Some,
    ensures
        q.team_of() == q.team_id,
{
}

/// With a token set configured, a guarded request with no `Authorization`
/// header is unauthorized, whatever else it carries — and changes nothing.
pub proof fn lemma_missing_header_unauthorized(
    tokens: Seq<Seq<char>>,
    op: OpModel,
    store: Map<Seq<char>, Seq<u8>>,
)
    requires
        !(op is Status),
    ensures
        spec_handle(Some(tokens), None, op, store).0 == spec_auth_error_resp(
            AuthDecision::MissingHeader,
        ),
        spec_handle(Some(tokens), None, op, store).0.code == 401,
        spec_handle(Some(tokens), None, op, store).1 == store,
{
}

/// With a token set configured, a guarded request whose header does not
/// present a token from the set — be the header malformed or the token
/// unknown — is unauthorized, and changes nothing.
pub proof fn lemma_bad_credentials_unauthorized(
    tokens: Seq<Seq<char>>,
    header: Seq<char>,
    op: OpModel,
    store: Map<Seq<char>, Seq<u8>>,
)
    requires
        !(op is Status),
        !(is_bearer_header(header) && tokens.contains(spec_bearer_token(header))),
    ensures
        spec_handle(Some(tokens), Some(header), op, store).0.code == 401,
        spec_handle(Some(tokens), Some(header), op, store).1 == store,
{
}

/// The status endpoint needs no credentials: under any token configuration
/// and any header — including none — it answers enabled and changes
/// nothing.
pub proof fn lemma_status_always_enabled(
    tokens: Option<Seq<Seq<char>>>,
    header: Option<Seq<char>>,
    store: Map<Seq<char>, Seq<u8>>,
)
    ensures
        spec_handle(tokens, header, OpModel::Status, store).0 == spec_status_resp(),
        spec_handle(tokens, header, OpModel::Status, store).1 == store,
{
}

/// The round trip through the whole pipeline: an authorized store followed
/// by an authorized read of the same artifact answers exactly the stored
/// bytes.
pub proof fn lemma_pipeline_round_trip(
    tokens: Seq<Seq<char>>,
    header: Seq<char>,
    id: Seq<char>,
    query: QueryModel,
    bytes: Seq<u8>,
    store: Map<Seq<char>, Seq<u8>>,
)
    requires
        spec_auth_decision(Some(tokens), Some(header)) == AuthDecision::Allowed,
        query.team_of() is Some,
    ensures
        ({
            let after = spec_handle(
                Some(tokens),
                Some(header),
                OpModel::Put { id, query, body: bytes },
                store,
            ).1;
            spec_handle(Some(tokens), Some(header), OpModel::Get { id, query }, after).0
                == (RespModel { code: 200, body: BodyModel::Data(bytes) })
        }),
{
}

} // verus!
