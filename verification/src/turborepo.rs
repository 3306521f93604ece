//! The token endpoint of the turborepo login flow: it only acknowledges the
//! redirect URI it was handed.

use vstd::prelude::*;
use vstd::string::StringExecFns;

verus! {

/// The token endpoint's answer.
pub struct Token {
    pub status: String,
}

/// The token endpoint's query: where the client asked to be redirected.
pub struct GetArtifactQuery {
    pub redirect_uri: String,
}

/// Answers the token request by echoing the redirect target.
pub fn get_token(query: GetArtifactQuery) -> (t: Token)
    ensures
        t.status@ == "redirect to "@ + query.redirect_uri@ + ", token"@,
{
    let mut s = String::from_str("redirect to ");
    s.append(query.redirect_uri.as_str());
    s.append(", token");
    Token { status: s }
}

} // verus!
