use ahash::AHashMap;
use mail_core::auth::{
    master_target, AuthAction, AuthEvent, AuthFailure, AuthStage, AuthState, Credentials,
    DirectoryReply, Source, Special,
};
use mail_core::snapshot::{Core, JmapConfig, Network, ResourceId, Scripting, SmtpConfig, Storage};

fn snapshot(fallback_admin: Option<(&str, &str)>, master_user: Option<(&str, &str)>) -> Core {
    Core {
        storage: Storage {
            data: ResourceId(0),
            blob: ResourceId(1),
            lookup: ResourceId(2),
            directory: ResourceId(3),
            directories: AHashMap::new(),
            lookups: AHashMap::new(),
        },
        sieve: Scripting { trusted_scripts: AHashMap::new(), untrusted_scripts: AHashMap::new() },
        network: Network {
            node_id: 1,
            blocked_ips: Vec::new(),
            allowed_ips: Vec::new(),
            http_response_url: ResourceId(4),
            http_allowed_endpoint: ResourceId(5),
        },
        smtp: SmtpConfig {
            sealers: AHashMap::new(),
            signers: AHashMap::new(),
            relay_hosts: AHashMap::new(),
        },
        jmap: JmapConfig {
            fallback_admin: fallback_admin.map(|(n, h)| (n.to_string(), h.to_string())),
            master_user: master_user.map(|(n, h)| (n.to_string(), h.to_string())),
            oauth_key: "key".to_string(),
            oauth_expiry_token: 3600,
            oauth_expiry_refresh_token: 86400,
            oauth_expiry_refresh_token_renew: 7200,
            oauth_expiry_auth_code: 600,
        },
    }
}

fn plain(username: &str, secret: &str) -> Credentials {
    Credentials::Plain { username: username.to_string(), secret: secret.to_string() }
}

fn run(
    core: &Core,
    credentials: &Credentials,
    has_fail2ban: bool,
    events: &[AuthEvent],
) -> (AuthState, Vec<AuthAction>) {
    let mut state = AuthState::new();
    let mut actions = Vec::new();
    for event in events {
        let (next, action, recorded) =
            core.authenticate(42, credentials, has_fail2ban, state, *event);
        assert_eq!(recorded.is_some(), matches!(action, AuthAction::Succeed(_)));
        state = next;
        actions.push(action);
    }
    (state, actions)
}

#[test]
fn login_is_user_name_or_token() {
    assert_eq!(plain("alice", "pw").login(), "alice");
    let xoauth = Credentials::XOauth2 { username: "bob".to_string(), secret: "s".to_string() };
    assert_eq!(xoauth.login(), "bob");
    assert_eq!(Credentials::OAuthBearer { token: "tok".to_string() }.login(), "tok");
}

#[test]
fn directory_principal_succeeds() {
    let core = snapshot(Some(("root", "$hash")), Some(("@admin", "$hash")));
    let (state, actions) = run(
        &core,
        &plain("root", "pw"),
        true,
        &[AuthEvent::Start, AuthEvent::Directory(DirectoryReply::Found)],
    );
    assert_eq!(actions, vec![AuthAction::QueryCredentials, AuthAction::Succeed(Source::Directory)]);
    assert_eq!(state.stage, AuthStage::Done);
}

#[test]
fn auth_fallback_admin() {
    let core = snapshot(Some(("root", "$hash")), None);
    let (state, actions) = run(
        &core,
        &plain("root", "pw"),
        false,
        &[
            AuthEvent::Start,
            AuthEvent::Directory(DirectoryReply::NotFound),
            AuthEvent::SecretVerified(true),
        ],
    );
    assert_eq!(
        actions,
        vec![
            AuthAction::QueryCredentials,
            AuthAction::VerifySecret(Special::FallbackAdmin),
            AuthAction::Succeed(Source::FallbackAdmin),
        ]
    );
    assert_eq!(state, AuthState { stage: AuthStage::Done, deferred: false });
    assert!(core.is_fallback_admin(&plain("root", "x")));
    assert!(!core.is_fallback_admin(&plain("Root", "x")));
    assert!(!core.is_fallback_admin(&Credentials::OAuthBearer { token: "root".to_string() }));
}

#[test]
fn master_user_suffix_strip() {
    assert_eq!(master_target("alice%@admin", "@admin"), Some("alice"));
    assert_eq!(master_target("alice@admin", "@admin"), Some("alice"));
    assert_eq!(master_target("alice%%@admin", "@admin"), Some("alice%"));
    assert_eq!(master_target("alice", "@admin"), None);
    assert_eq!(master_target("@admin", "@admin"), None);
    assert_eq!(master_target("%@admin", "@admin"), None);
    assert_eq!(master_target("zoë%@admin", "@admin"), Some("zoë"));
    let core = snapshot(None, Some(("@admin", "$hash")));
    let (state, actions) = run(
        &core,
        &plain("alice%@admin", "pw"),
        true,
        &[
            AuthEvent::Start,
            AuthEvent::Directory(DirectoryReply::NotFound),
            AuthEvent::SecretVerified(true),
            AuthEvent::NameQueried(true),
        ],
    );
    assert_eq!(
        actions,
        vec![
            AuthAction::QueryCredentials,
            AuthAction::VerifySecret(Special::MasterUser),
            AuthAction::QueryMasterTarget,
            AuthAction::Succeed(Source::MasterUser),
        ]
    );
    assert_eq!(state.stage, AuthStage::Done);
    assert!(core.is_master_user(&plain("alice%@admin", "pw")));
    assert!(!core.is_master_user(&plain("alice", "pw")));
}

#[test]
fn missing_totp_short_circuits() {
    let core = snapshot(Some(("root", "$hash")), Some(("@admin", "$hash")));
    let (state, actions) = run(
        &core,
        &plain("root", "pw"),
        true,
        &[AuthEvent::Start, AuthEvent::Directory(DirectoryReply::MissingTotp)],
    );
    assert_eq!(
        actions,
        vec![AuthAction::QueryCredentials, AuthAction::Fail(AuthFailure::MissingTotp)]
    );
    assert_eq!(state.stage, AuthStage::Done);
    let (next, action, recorded) =
        core.authenticate(42, &plain("root", "pw"), true, state, AuthEvent::SecretVerified(true));
    assert_eq!((next, action), (state, AuthAction::Unexpected));
    assert!(recorded.is_none());
}

#[test]
fn deferred_directory_error_comes_last() {
    let core = snapshot(Some(("root", "$hash")), None);
    let (_, actions) = run(
        &core,
        &plain("root", "bad"),
        true,
        &[
            AuthEvent::Start,
            AuthEvent::Directory(DirectoryReply::Failed),
            AuthEvent::SecretVerified(false),
        ],
    );
    assert_eq!(actions[1], AuthAction::VerifySecret(Special::FallbackAdmin));
    assert_eq!(actions[2], AuthAction::Fail(AuthFailure::Deferred));
    let (_, actions) = run(
        &core,
        &plain("root", "pw"),
        true,
        &[
            AuthEvent::Start,
            AuthEvent::Directory(DirectoryReply::Failed),
            AuthEvent::SecretVerified(true),
        ],
    );
    assert_eq!(actions[2], AuthAction::Succeed(Source::FallbackAdmin));
    let (_, actions) = run(
        &core,
        &plain("carol", "pw"),
        true,
        &[AuthEvent::Start, AuthEvent::Directory(DirectoryReply::Failed)],
    );
    assert_eq!(actions[1], AuthAction::Fail(AuthFailure::Deferred));
}

#[test]
fn failures_are_counted_where_fail2ban_is_configured() {
    let core = snapshot(Some(("root", "$hash")), Some(("@admin", "$hash")));
    let carol = plain("carol", "pw");
    let (_, actions) =
        run(&core, &carol, false, &[AuthEvent::Start, AuthEvent::Directory(DirectoryReply::NotFound)]);
    assert_eq!(actions[1], AuthAction::Fail(AuthFailure::Failed));
    let events =
        [AuthEvent::Start, AuthEvent::Directory(DirectoryReply::NotFound), AuthEvent::Fail2Ban(true)];
    let (_, actions) = run(&core, &carol, true, &events);
    assert_eq!(actions[1], AuthAction::RecordFailure);
    assert_eq!(actions[2], AuthAction::Fail(AuthFailure::Banned));
    let events =
        [AuthEvent::Start, AuthEvent::Directory(DirectoryReply::NotFound), AuthEvent::Fail2Ban(false)];
    let (_, actions) = run(&core, &carol, true, &events);
    assert_eq!(actions[2], AuthAction::Fail(AuthFailure::Failed));
}

#[test]
fn special_users_need_plain_credentials_and_a_match() {
    let core = snapshot(Some(("root", "$hash")), Some(("@admin", "$hash")));
    let bearer = Credentials::OAuthBearer { token: "root".to_string() };
    let (_, actions) =
        run(&core, &bearer, false, &[AuthEvent::Start, AuthEvent::Directory(DirectoryReply::NotFound)]);
    assert_eq!(actions[1], AuthAction::Fail(AuthFailure::Failed));
    let events = [
        AuthEvent::Start,
        AuthEvent::Directory(DirectoryReply::NotFound),
        AuthEvent::SecretVerified(true),
        AuthEvent::NameQueried(false),
        AuthEvent::Fail2Ban(false),
    ];
    let (_, actions) = run(&core, &plain("dave@admin", "pw"), true, &events);
    assert_eq!(
        actions,
        vec![
            AuthAction::QueryCredentials,
            AuthAction::VerifySecret(Special::MasterUser),
            AuthAction::QueryMasterTarget,
            AuthAction::RecordFailure,
            AuthAction::Fail(AuthFailure::Failed),
        ]
    );
}

#[test]
fn master_user_is_tried_after_the_fallback_admin() {
    let core = snapshot(Some(("root@admin", "$h1")), Some(("@admin", "$h2")));
    let credentials = plain("root@admin", "s");
    assert!(core.is_fallback_admin(&credentials));
    assert!(core.is_master_user(&credentials));
    let (state, actions) = run(
        &core,
        &credentials,
        true,
        &[
            AuthEvent::Start,
            AuthEvent::Directory(DirectoryReply::NotFound),
            AuthEvent::SecretVerified(false),
            AuthEvent::SecretVerified(true),
            AuthEvent::NameQueried(true),
        ],
    );
    assert_eq!(
        actions,
        vec![
            AuthAction::QueryCredentials,
            AuthAction::VerifySecret(Special::FallbackAdmin),
            AuthAction::VerifySecret(Special::MasterUser),
            AuthAction::QueryMasterTarget,
            AuthAction::Succeed(Source::MasterUser),
        ]
    );
    assert_eq!(state.stage, AuthStage::Done);
    assert_eq!(core.master_name_of(&credentials), "root");
    let (_, actions) = run(
        &core,
        &credentials,
        false,
        &[
            AuthEvent::Start,
            AuthEvent::Directory(DirectoryReply::NotFound),
            AuthEvent::SecretVerified(false),
            AuthEvent::SecretVerified(false),
        ],
    );
    assert_eq!(actions[3], AuthAction::Fail(AuthFailure::Failed));
}

#[test]
fn success_is_recorded_with_account_name_and_session() {
    let core = snapshot(Some(("root", "$hash")), Some(("@admin", "$hash")));
    let verifying = AuthState { stage: AuthStage::Verifying(Special::FallbackAdmin), deferred: false };
    let (_, action, recorded) =
        core.authenticate(42, &plain("root", "pw"), false, verifying, AuthEvent::SecretVerified(true));
    assert_eq!(action, AuthAction::Succeed(Source::FallbackAdmin));
    let recorded = recorded.unwrap();
    assert_eq!((recorded.account_name.as_str(), recorded.span_id), ("root", 42));

    let querying = AuthState { stage: AuthStage::Querying, deferred: false };
    let bearer = Credentials::OAuthBearer { token: "tok".to_string() };
    let (_, action, recorded) =
        core.authenticate(7, &bearer, false, querying, AuthEvent::Directory(DirectoryReply::Found));
    assert_eq!(action, AuthAction::Succeed(Source::Directory));
    let recorded = recorded.unwrap();
    assert_eq!((recorded.account_name.as_str(), recorded.span_id), ("tok", 7));

    let naming = AuthState { stage: AuthStage::QueryingName, deferred: true };
    let (_, action, recorded) =
        core.authenticate(9, &plain("alice%@admin", "pw"), true, naming, AuthEvent::NameQueried(true));
    assert_eq!(action, AuthAction::Succeed(Source::MasterUser));
    let recorded = recorded.unwrap();
    assert_eq!((recorded.account_name.as_str(), recorded.span_id), ("alice", 9));
    assert_eq!(core.master_name_of(&bearer), "");
}
