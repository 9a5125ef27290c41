use msgraph_fdw::{
    token_request, EntraIDTokenResponse, FdwError, HttpMethod, MSGraphAccessToken,
    MSGraphCredentials,
};

fn creds() -> MSGraphCredentials {
    MSGraphCredentials {
        client_id: "abc".to_string(),
        client_secret: "s&x y".to_string(),
        tenant_id: "t1".to_string(),
    }
}

#[test]
fn expiry_is_acquisition_time_plus_lifetime() {
    let resp = EntraIDTokenResponse { access_token: "T".to_string(), expires_in: 3600 };
    let token = MSGraphAccessToken::from_response(resp, 1_000).unwrap();
    assert_eq!(token.access_token, "T");
    assert_eq!(token.expires_at, 4_600);
}

#[test]
fn expiry_out_of_range_is_auth_error() {
    let resp = EntraIDTokenResponse { access_token: "T".to_string(), expires_in: u64::MAX };
    let r = MSGraphAccessToken::from_response(resp, 1);
    assert!(matches!(r, Err(FdwError::AuthError(_))));
}

#[test]
fn about_to_expire_from_sixty_seconds_before() {
    let token = MSGraphAccessToken { access_token: "T".to_string(), expires_at: 1_000 };
    assert!(!token.is_about_to_expire(0));
    assert!(!token.is_about_to_expire(939));
    assert!(token.is_about_to_expire(940));
    assert!(token.is_about_to_expire(1_000));
    assert!(token.is_about_to_expire(u64::MAX));
    let early = MSGraphAccessToken { access_token: "T".to_string(), expires_at: 30 };
    assert!(early.is_about_to_expire(0));
}

#[test]
fn bearer_header() {
    let token = MSGraphAccessToken { access_token: "abc.def".to_string(), expires_at: 0 };
    assert_eq!(token.header(), "Bearer abc.def");
}

#[test]
fn token_request_is_form_encoded_post() {
    let req = token_request(&"https://login.example".to_string(), &creds());
    assert_eq!(req.method, HttpMethod::Post);
    assert_eq!(req.url, "https://login.example/t1/oauth2/v2.0/token");
    assert_eq!(
        req.headers,
        vec![("Content-Type".to_string(), "application/x-www-form-urlencoded".to_string())]
    );
    assert_eq!(
        req.body,
        "client_id=abc&client_secret=s%26x+y&scope=https%3A%2F%2Fgraph.microsoft.com%2F.default&grant_type=client_credentials"
    );
}
