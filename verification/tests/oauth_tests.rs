use ahash::AHashMap;
use mail_core::oauth::{
    NamedTable,
    code_key_of, decide_authorization_code, decide_device_code, decide_refresh, grant_kind_of,
    plan_token_request, ErrorType, FormData, GrantKind, OAuthCode, OAuthStatus, TokenAction,
    TokenEvent, TokenResponse, MAX_POST_LEN,
};
use mail_core::snapshot::{Core, JmapConfig, Network, ResourceId, Scripting, SmtpConfig, Storage};
use mail_core::token::{OAuthResponse, TokenError, JMAP};

fn endpoint() -> JMAP {
    JMAP {
        core: Core {
            storage: Storage {
                data: ResourceId(0),
                blob: ResourceId(1),
                lookup: ResourceId(2),
                directory: ResourceId(3),
                directories: AHashMap::new(),
                lookups: AHashMap::new(),
            },
            sieve: Scripting {
                trusted_scripts: AHashMap::new(),
                untrusted_scripts: AHashMap::new(),
            },
            network: Network {
                node_id: 1,
                blocked_ips: Vec::new(),
                allowed_ips: Vec::new(),
                http_response_url: ResourceId(4),
                http_allowed_endpoint: ResourceId(5),
            },
            smtp: SmtpConfig {
                sealers: AHashMap::new(),
                signers: AHashMap::new(),
                relay_hosts: AHashMap::new(),
            },
            jmap: JmapConfig {
                fallback_admin: None,
                master_user: None,
                oauth_key: "key".to_string(),
                oauth_expiry_token: 3600,
                oauth_expiry_refresh_token: 86400,
                oauth_expiry_refresh_token_renew: 7200,
                oauth_expiry_auth_code: 600,
            },
        },
    }
}

fn form(fields: &[(&str, &str)]) -> FormData {
    let mut table = NamedTable::new();
    for (name, value) in fields {
        table.insert(name.to_string(), value.to_string());
    }
    FormData { fields: table }
}

fn record(status: OAuthStatus) -> Option<OAuthCode> {
    Some(OAuthCode {
        status,
        account_id: 7,
        client_id: "app".to_string(),
        params: "https://app/cb".to_string(),
    })
}

fn error_of(action: TokenAction) -> ErrorType {
    match action {
        TokenAction::Respond { error } => error,
        _ => panic!("the request was not refused"),
    }
}

fn issue_of(action: TokenAction) -> (Option<Vec<u8>>, u32, String, bool) {
    match action {
        TokenAction::Issue { delete_key, account_id, client_id, with_refresh_token } => {
            (delete_key, account_id, client_id, with_refresh_token)
        }
        _ => panic!("no token is to be issued"),
    }
}

#[test]
fn grant_type_is_matched_without_case() {
    assert_eq!(grant_kind_of("authorization_code"), GrantKind::AuthorizationCode);
    assert_eq!(grant_kind_of("Authorization_Code"), GrantKind::AuthorizationCode);
    assert_eq!(
        grant_kind_of("URN:ietf:params:oauth:grant-type:DEVICE_CODE"),
        GrantKind::DeviceCode
    );
    assert_eq!(grant_kind_of("REFRESH_TOKEN"), GrantKind::RefreshToken);
    assert_eq!(grant_kind_of("password"), GrantKind::Other);
    assert_eq!(grant_kind_of(""), GrantKind::Other);
    assert_eq!(grant_kind_of("refresh_token "), GrantKind::Other);
    assert_eq!(MAX_POST_LEN, 2048);
}

#[test]
fn form_fields_are_matched_by_case() {
    let params = form(&[("grant_type", "a"), ("Code", "b"), ("grant_type", "c")]);
    assert_eq!(params.get("grant_type"), Some("c"));
    assert_eq!(params.get("Code"), Some("b"));
    assert_eq!(params.get("code"), None);
}

#[test]
fn codes_are_stored_under_a_prefixed_key() {
    assert_eq!(code_key_of("abc"), b"oauth:abc".to_vec());
    assert_eq!(code_key_of(""), b"oauth:".to_vec());
}

#[test]
fn first_step_of_each_flow() {
    let params = form(&[
        ("grant_type", "authorization_code"),
        ("code", "c0de"),
        ("client_id", "app"),
        ("redirect_uri", "https://app/cb"),
    ]);
    match plan_token_request(&params) {
        TokenAction::FetchCode { key } => assert_eq!(key, b"oauth:c0de".to_vec()),
        _ => panic!("the code is to be fetched"),
    }
    let params = form(&[
        ("grant_type", "urn:ietf:params:oauth:grant-type:device_code"),
        ("device_code", "dev"),
        ("client_id", "app"),
    ]);
    match plan_token_request(&params) {
        TokenAction::FetchCode { key } => assert_eq!(key, b"oauth:dev".to_vec()),
        _ => panic!("the code is to be fetched"),
    }
    let params = form(&[("grant_type", "refresh_token"), ("refresh_token", "tok")]);
    match plan_token_request(&params) {
        TokenAction::ValidateRefresh { token } => assert_eq!(token, "tok"),
        _ => panic!("the token is to be validated"),
    }
}

#[test]
fn missing_fields_and_unknown_grants() {
    let params = form(&[("grant_type", "authorization_code"), ("code", "c"), ("client_id", "a")]);
    assert_eq!(error_of(plan_token_request(&params)), ErrorType::InvalidClient);
    let params =
        form(&[("grant_type", "urn:ietf:params:oauth:grant-type:device_code"), ("client_id", "a")]);
    assert_eq!(error_of(plan_token_request(&params)), ErrorType::InvalidClient);
    let params =
        form(&[("grant_type", "urn:ietf:params:oauth:grant-type:device_code"), ("device_code", "d")]);
    assert_eq!(error_of(plan_token_request(&params)), ErrorType::InvalidClient);
    let params = form(&[("grant_type", "authorization_code"), ("client_id", "a"), ("redirect_uri", "u")]);
    assert_eq!(error_of(plan_token_request(&params)), ErrorType::InvalidClient);
    let jmap = endpoint();
    let params = form(&[("grant_type", "URN:IETF:PARAMS:OAUTH:GRANT-TYPE:DEVICE_CODE")]);
    let refused = jmap.handle_token_request(&params, &TokenEvent::Start);
    assert_eq!(error_of(refused), ErrorType::InvalidClient);
    assert_eq!(TokenResponse::error(ErrorType::InvalidClient).status(), 400);
    let params = form(&[("grant_type", "refresh_token")]);
    assert_eq!(error_of(plan_token_request(&params)), ErrorType::InvalidRequest);
    let params = form(&[("grant_type", "password"), ("code", "c")]);
    assert_eq!(error_of(plan_token_request(&params)), ErrorType::InvalidGrant);
    assert_eq!(error_of(plan_token_request(&form(&[]))), ErrorType::InvalidGrant);
}

#[test]
fn authorization_code_table() {
    let key = b"oauth:c".to_vec();
    let uri = "https://app/cb";
    assert_eq!(
        error_of(decide_authorization_code(key.clone(), "app", uri, &None)),
        ErrorType::AccessDenied
    );
    assert_eq!(
        error_of(decide_authorization_code(key.clone(), "app", uri, &record(OAuthStatus::Pending))),
        ErrorType::InvalidGrant
    );
    assert_eq!(
        error_of(decide_authorization_code(
            key.clone(),
            "app",
            uri,
            &record(OAuthStatus::TokenIssued)
        )),
        ErrorType::InvalidGrant
    );
    assert_eq!(
        error_of(decide_authorization_code(
            key.clone(),
            "other",
            uri,
            &record(OAuthStatus::Authorized)
        )),
        ErrorType::InvalidClient
    );
    assert_eq!(
        error_of(decide_authorization_code(
            key.clone(),
            "app",
            "https://evil/cb",
            &record(OAuthStatus::Authorized)
        )),
        ErrorType::InvalidClient
    );
    assert_eq!(
        issue_of(decide_authorization_code(key.clone(), "app", uri, &record(OAuthStatus::Authorized))),
        (Some(key), 7, "app".to_string(), true)
    );
}

#[test]
fn device_code_table() {
    let key = b"oauth:d".to_vec();
    assert_eq!(error_of(decide_device_code(key.clone(), "app", &None)), ErrorType::ExpiredToken);
    assert_eq!(
        error_of(decide_device_code(key.clone(), "app", &record(OAuthStatus::TokenIssued))),
        ErrorType::ExpiredToken
    );
    assert_eq!(
        error_of(decide_device_code(key.clone(), "x", &record(OAuthStatus::Authorized))),
        ErrorType::InvalidClient
    );
    assert_eq!(
        issue_of(decide_device_code(key.clone(), "app", &record(OAuthStatus::Authorized))),
        (Some(key), 7, "app".to_string(), true)
    );
}

#[test]
fn device_code_pending() {
    let jmap = endpoint();
    let params = form(&[
        ("grant_type", "urn:ietf:params:oauth:grant-type:device_code"),
        ("device_code", "dev"),
        ("client_id", "app"),
    ]);
    match jmap.handle_token_request(&params, &TokenEvent::Start) {
        TokenAction::FetchCode { key } => assert_eq!(key, b"oauth:dev".to_vec()),
        _ => panic!("the code is to be fetched"),
    }
    let action =
        jmap.handle_token_request(&params, &TokenEvent::CodeFetched(record(OAuthStatus::Pending)));
    let error = error_of(action);
    assert_eq!(error, ErrorType::AuthorizationPending);
    assert_eq!(error.as_str(), "authorization_pending");
    let response = TokenResponse::error(error);
    assert!(response.is_error());
    assert_eq!(response.status(), 400);
}

#[test]
fn refresh_renews_the_refresh_token_near_its_end() {
    assert_eq!(
        issue_of(decide_refresh(&Ok((7, "app".to_string(), 7200)), 7200)),
        (None, 7, "app".to_string(), true)
    );
    assert_eq!(
        issue_of(decide_refresh(&Ok((7, "app".to_string(), 7201)), 7200)),
        (None, 7, "app".to_string(), false)
    );
    assert_eq!(error_of(decide_refresh(&Err(TokenError::Expired), 7200)), ErrorType::InvalidGrant);
    let jmap = endpoint();
    let params = form(&[("grant_type", "Refresh_Token"), ("refresh_token", "tok")]);
    let event = TokenEvent::RefreshValidated(Ok((9, "cli".to_string(), 10)));
    assert_eq!(
        issue_of(jmap.handle_token_request(&params, &event)),
        (None, 9, "cli".to_string(), true)
    );
    let event = TokenEvent::RefreshValidated(Err(TokenError::DecodeFailed));
    assert_eq!(error_of(jmap.handle_token_request(&params, &event)), ErrorType::InvalidGrant);
}

#[test]
fn authorization_code_flow_through_the_endpoint() {
    let jmap = endpoint();
    let params = form(&[
        ("grant_type", "authorization_code"),
        ("code", "c0de"),
        ("client_id", "app"),
        ("redirect_uri", "https://app/cb"),
    ]);
    let event = TokenEvent::CodeFetched(record(OAuthStatus::Authorized));
    assert_eq!(
        issue_of(jmap.handle_token_request(&params, &event)),
        (Some(b"oauth:c0de".to_vec()), 7, "app".to_string(), true)
    );
    assert_eq!(
        error_of(jmap.handle_token_request(&params, &TokenEvent::CodeFetched(None))),
        ErrorType::AccessDenied
    );
    let out_of_turn = TokenEvent::RefreshValidated(Ok((1, "x".to_string(), 1)));
    match jmap.handle_token_request(&params, &out_of_turn) {
        TokenAction::FetchCode { key } => assert_eq!(key, b"oauth:c0de".to_vec()),
        _ => panic!("the code is to be fetched"),
    }
}

#[test]
fn answers_and_their_status() {
    let granted = JMAP::token_granted(Ok(OAuthResponse {
        access_token: "a".to_string(),
        token_type: "bearer".to_string(),
        expires_in: 1,
        refresh_token: None,
        scope: None,
    }))
    .ok()
    .unwrap();
    assert!(!granted.is_error());
    assert_eq!(granted.status(), 200);
    assert!(JMAP::token_granted(Err(TokenError::AccountMissing)).is_err());
    assert_eq!(ErrorType::InvalidGrant.as_str(), "invalid_grant");
    assert_eq!(ErrorType::InvalidClient.as_str(), "invalid_client");
    assert_eq!(ErrorType::InvalidRequest.as_str(), "invalid_request");
    assert_eq!(ErrorType::AccessDenied.as_str(), "access_denied");
    assert_eq!(ErrorType::ExpiredToken.as_str(), "expired_token");
}
