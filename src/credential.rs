use vstd::prelude::*;
use crate::error::FdwError;
use crate::request::{pair, pairs_model, HttpMethod, HttpRequest};

verus! {

/// The resolved client credentials of one tenant.
#[derive(Debug, Clone, PartialEq)]
pub struct MSGraphCredentials {
    pub client_id: String,
    pub client_secret: String,
    pub tenant_id: String,
}

/// The decoded answer of the token endpoint.
#[derive(Debug, Clone, PartialEq)]
pub struct EntraIDTokenResponse {
    pub access_token: String,
    /// Lifetime of the token, in seconds.
    pub expires_in: u64,
}

/// A bearer credential and the instant, in seconds since the Unix epoch, at
/// which it expires.
#[derive(Debug, Clone, PartialEq)]
pub struct MSGraphAccessToken {
    pub access_token: String,
    pub expires_at: u64,
}

/// Seconds before expiry from which a token counts as about to expire.
pub const EXPIRY_MARGIN: u64 = 60;

/// The `application/x-www-form-urlencoded` text of a sequence of pairs.
pub uninterp spec fn form_encoded(pairs: Seq<(Seq<char>, Seq<char>)>) -> Seq<char>;

/// Relies on serde_urlencoded::to_string: a sequence of string pairs is
/// written as form-urlencoded text, which depends on the pairs alone. Its
/// sequence and pair serializers accept every pair of strings, so the call
/// does not fail on such input.
#[verifier::external_body]
fn form_urlencode(pairs: &Vec<(String, String)>) -> (r: Option<String>)
    ensures
        r is Some,
        r matches Some(s) ==> s@ == form_encoded(pairs_model(pairs@)),
{
    serde_urlencoded::to_string(pairs).ok()
}

pub open spec fn token_url(base: Seq<char>, tenant: Seq<char>) -> Seq<char> {
    base + "/"@ + tenant + "/oauth2/v2.0/token"@
}

/// The form fields of a client-credentials token request, in order.
pub open spec fn token_form(c: MSGraphCredentials) -> Seq<(Seq<char>, Seq<char>)> {
    seq![
        ("client_id"@, c.client_id@),
        ("client_secret"@, c.client_secret@),
        ("scope"@, "https://graph.microsoft.com/.default"@),
        ("grant_type"@, "client_credentials"@),
    ]
}

pub open spec fn token_headers() -> Seq<(Seq<char>, Seq<char>)> {
    seq![("Content-Type"@, "application/x-www-form-urlencoded"@)]
}

/// `req` posts the client-credentials form of `c` to the tenant's token
/// endpoint under `base`.
pub open spec fn is_token_request(req: HttpRequest, base: Seq<char>, c: MSGraphCredentials) -> bool {
    &&& req.method == HttpMethod::Post
    &&& req.url@ == token_url(base, c.tenant_id@)
    &&& pairs_model(req.headers@) == token_headers()
    &&& req.body@ == form_encoded(token_form(c))
}

/// Builds the client-credentials token request.
pub fn token_request(token_base_url: &String, creds: &MSGraphCredentials) -> (r: HttpRequest)
    ensures
        is_token_request(r, token_base_url@, *creds),
{
    let form = vec![
        pair("client_id", creds.client_id.as_str()),
        pair("client_secret", creds.client_secret.as_str()),
        pair("scope", "https://graph.microsoft.com/.default"),
        pair("grant_type", "client_credentials"),
    ];
    assert(pairs_model(form@) =~= token_form(*creds));
    let body = match form_urlencode(&form) {
        Some(b) => b,
        None => String::new(),
    };
    let mut url = token_base_url.clone();
    url.append("/");
    url.append(creds.tenant_id.as_str());
    url.append("/oauth2/v2.0/token");
    let headers = vec![pair("Content-Type", "application/x-www-form-urlencoded")];
    assert(pairs_model(headers@) =~= token_headers());
    HttpRequest { method: HttpMethod::Post, url, headers, body }
}

impl MSGraphAccessToken {
    /// The credential that a token response grants at time `now`. Fails with
    /// `AuthError` where the expiry instant does not fit in 64 bits.
    pub fn from_response(resp: EntraIDTokenResponse, now: u64) -> (r: Result<Self, FdwError>)
        ensures
            r is Ok <==> now + resp.expires_in <= u64::MAX,
            r matches Ok(t) ==> t.access_token == resp.access_token && t.expires_at == now
                + resp.expires_in,
            r matches Err(e) ==> e is AuthError,
    {
        match now.checked_add(resp.expires_in) {
            Some(expires_at) => Ok(MSGraphAccessToken { access_token: resp.access_token, expires_at }),
            None => Err(FdwError::AuthError(String::from_str("token lifetime out of range"))),
        }
    }

    /// The token is about to expire at `now`: less than the margin remains.
    pub open spec fn expiring(&self, now: int) -> bool {
        now >= self.expires_at - EXPIRY_MARGIN
    }

    pub fn is_about_to_expire(&self, now: u64) -> (r: bool)
        ensures
            r == self.expiring(now as int),
    {
        self.expires_at <= now.saturating_add(EXPIRY_MARGIN)
    }

    /// The value of the `Authorization` header that carries this token.
    pub fn header(&self) -> (r: String)
        ensures
            r@ == "Bearer "@ + self.access_token@,
    {
        let mut h = String::from_str("Bearer ");
        h.append(self.access_token.as_str());
        h
    }
}

} // verus!
