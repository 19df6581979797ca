use vstd::prelude::*;
use vstd::string::StringExecFns;

verus! {

/// The redirect URI of an out-of-band authorization: the code is shown to the
/// user, who pastes it back.
pub const OOB_URI: &'static str = "urn:ietf:wg:oauth:2.0:oob";

/// The form posted to a server's token endpoint to trade an authorization
/// code for an access token.
pub struct TokenQuery {
    /// Where the form is posted.
    pub url: String,
    pub redirect_uri: String,
    pub grant_type: String,
    pub code: String,
    pub client_id: String,
    pub client_secret: String,
    pub scope: String,
}

/// Builds the token request of `server` for an authorization code obtained
/// with read scope by the application `client_id`.
pub fn token(server: &str, client_id: &str, client_secret: &str, code: &str) -> (r: TokenQuery)
    ensures
        r.url@ == "https://"@ + server@ + "/oauth/token"@,
        r.redirect_uri@ == OOB_URI@,
        r.grant_type@ == "authorization_code"@,
        r.code@ == code@,
        r.client_id@ == client_id@,
        r.client_secret@ == client_secret@,
        r.scope@ == "read"@,
{
    let url = String::from_str("https://").concat(server).concat("/oauth/token");
    TokenQuery {
        url,
        redirect_uri: String::from_str(OOB_URI),
        grant_type: String::from_str("authorization_code"),
        code: String::from_str(code),
        client_id: String::from_str(client_id),
        client_secret: String::from_str(client_secret),
        scope: String::from_str("read"),
    }
}

/// An HTTP status that reports a client or a server error (4xx or 5xx).
pub fn is_error_status(status: u16) -> (r: bool)
    ensures
        r == (400 <= status < 600),
{
    400 <= status && status < 600
}

} // verus!
