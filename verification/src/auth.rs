//! Authentication: the directory first; then the fallback administrator
//! and the master user, unless the directory asked for a one-time password;
//! then the deferred directory error, the fail-to-ban count, or the plain
//! failure. The caller performs each action and reports its outcome; an
//! error of a collaborator other than the directory's first answer ends the
//! attempt at the caller.

use crate::snapshot::Core;
use crate::text::bytes_end_with;
use crate::text::ends_with;
use crate::text::str_eq;
use vstd::prelude::*;
use vstd::string::StringSliceAdditionalSpecFns;
use vstd::utf8::decode_utf8;
use vstd::utf8::encode_utf8;
use vstd::utf8::encode_utf8_decode_utf8;
use vstd::utf8::is_char_boundary;

verus! {

/// What a client presents to authenticate.
#[derive(Debug)]
pub enum Credentials {
    Plain { username: String, secret: String },
    OAuthBearer { token: String },
    XOauth2 { username: String, secret: String },
}

impl Credentials {
    /// The name under which an attempt is recorded: the user name, or the
    /// token of a bearer.
    pub open spec fn login_spec(&self) -> Seq<char> {
        match self {
            Credentials::Plain { username, .. } => username@,
            Credentials::XOauth2 { username, .. } => username@,
            Credentials::OAuthBearer { token } => token@,
        }
    }

    /// The name under which an attempt is recorded.
    pub fn login(&self) -> (name: &str)
        ensures
            name@ == self.login_spec(),
    {
        match self {
            Credentials::Plain { username, .. } => username.as_str(),
            Credentials::XOauth2 { username, .. } => username.as_str(),
            Credentials::OAuthBearer { token } => token.as_str(),
        }
    }
}

/// What the directory answered to the query by credentials.
#[derive(Clone, Copy, Debug, PartialEq, Eq, Structural)]
pub enum DirectoryReply {
    /// A principal.
    Found,
    /// No principal.
    NotFound,
    /// The error that asks for a one-time password.
    MissingTotp,
    /// Another error.
    Failed,
}

/// What the caller reports.
#[derive(Clone, Copy, Debug, PartialEq, Eq, Structural)]
pub enum AuthEvent {
    Start,
    Directory(DirectoryReply),
    /// Whether the secret matches the hash.
    SecretVerified(bool),
    /// Whether the directory has a principal of the master target's name.
    NameQueried(bool),
    /// Whether recording the failed attempt tripped the ban.
    Fail2Ban(bool),
}

/// Whose password hash a secret is checked against.
#[derive(Clone, Copy, Debug, PartialEq, Eq, Structural)]
pub enum Special {
    FallbackAdmin,
    MasterUser,
}

/// Where the principal of a successful attempt comes from.
#[derive(Clone, Copy, Debug, PartialEq, Eq, Structural)]
pub enum Source {
    /// The directory's answer to the query by credentials.
    Directory,
    /// The synthetic principal of the fallback administrator.
    FallbackAdmin,
    /// The directory's answer to the query by the master target's name.
    MasterUser,
}

/// How an attempt fails. `Failed` and `Banned` carry the remote address and
/// the login of the credentials.
#[derive(Clone, Copy, Debug, PartialEq, Eq, Structural)]
pub enum AuthFailure {
    /// The directory's error that asks for a one-time password.
    MissingTotp,
    /// The directory's other error, kept from the first answer.
    Deferred,
    Failed,
    Banned,
}

/// What the caller is asked to do next.
#[derive(Clone, Copy, Debug, PartialEq, Eq, Structural)]
pub enum AuthAction {
    /// Query the directory by the credentials; report `Directory`.
    QueryCredentials,
    /// Verify the secret of the credentials against the configured hash of
    /// the fallback administrator or of the master user; report
    /// `SecretVerified`.
    VerifySecret(Special),
    /// Query the directory by the name that `master_target` gives; report
    /// `NameQueried`.
    QueryMasterTarget,
    /// Record the failed attempt of the remote address and login; report
    /// `Fail2Ban`.
    RecordFailure,
    /// Record the success and return the principal.
    Succeed(Source),
    /// Return the error.
    Fail(AuthFailure),
    /// The event was not the one asked for; nothing has changed.
    Unexpected,
}

/// How far an attempt has come.
#[derive(Clone, Copy, Debug, PartialEq, Eq, Structural)]
pub enum AuthStage {
    Start,
    Querying,
    Verifying(Special),
    QueryingName,
    Recording,
    Done,
}

/// The state of one attempt.
#[derive(Clone, Copy, Debug, PartialEq, Eq, Structural)]
pub struct AuthState {
    pub stage: AuthStage,
    /// The directory's first answer was an error that is returned if nothing
    /// else matches.
    pub deferred: bool,
}

/// The user that a master login stands for: `username` without `suffix` and
/// without one `%` before it. Nothing where `username` does not end with
/// `suffix`, or where nothing is left.
pub open spec fn master_target_spec(username: Seq<u8>, suffix: Seq<u8>) -> Option<Seq<u8>> {
    if ends_with(username, suffix) && is_char_boundary(username, username.len() - suffix.len()) {
        let base = username.take(username.len() - suffix.len());
        let name = if base.len() > 0 && base.last() == 37 && is_char_boundary(base, base.len() - 1) {
            base.drop_last()
        } else {
            base
        };
        if name.len() > 0 {
            Some(name)
        } else {
            None
        }
    } else {
        None
    }
}

/// The user that a master login stands for.
pub fn master_target<'a>(username: &'a str, suffix: &str) -> (target: Option<&'a str>)
    ensures
        match target {
            Some(name) => master_target_spec(encode_utf8(username@), encode_utf8(suffix@)) == Some(
                encode_utf8(name@),
            ),
            None => master_target_spec(encode_utf8(username@), encode_utf8(suffix@)) is None,
        },
{
    let all = username.as_bytes();
    let tail = suffix.as_bytes();
    if !bytes_end_with(all, tail) {
        return None;
    }
    let mid = all.len() - tail.len();
    if !username.is_char_boundary(mid) {
        return None;
    }
    let (base, _) = username.split_at(mid);
    proof {
        assert(base.spec_bytes() =~= encode_utf8(username@).take(mid as int));
    }
    let bytes = base.as_bytes();
    let name = if bytes.len() > 0 && bytes[bytes.len() - 1] == 37 && base.is_char_boundary(
        bytes.len() - 1,
    ) {
        let (front, _) = base.split_at(bytes.len() - 1);
        proof {
            assert(front.spec_bytes() =~= base.spec_bytes().drop_last());
        }
        front
    } else {
        base
    };
    if name.as_bytes().len() > 0 {
        Some(name)
    } else {
        None
    }
}

/// The credentials name the configured fallback administrator.
pub open spec fn names_fallback_admin(core: &Core, credentials: &Credentials) -> bool {
    match (core.jmap.fallback_admin, credentials) {
        (Some((admin, _)), Credentials::Plain { username, .. }) => username@ == admin@,
        _ => false,
    }
}

/// The credentials are a master login: plain, with a user name that
/// stands for a user under the configured master suffix.
pub open spec fn names_master_user(core: &Core, credentials: &Credentials) -> bool {
    match (core.jmap.master_user, credentials) {
        (Some((suffix, _)), Credentials::Plain { username, .. }) => master_target_spec(
            encode_utf8(username@),
            encode_utf8(suffix@),
        ) is Some,
        _ => false,
    }
}

/// The name of the user that a master login stands for; empty where the
/// credentials are no master login.
pub open spec fn master_name(core: &Core, credentials: &Credentials) -> Seq<char> {
    match (core.jmap.master_user, credentials) {
        (Some((suffix, _)), Credentials::Plain { username, .. }) => match master_target_spec(
            encode_utf8(username@),
            encode_utf8(suffix@),
        ) {
            Some(name) => decode_utf8(name),
            None => Seq::empty(),
        },
        _ => Seq::empty(),
    }
}

/// The record of a successful attempt: the account name and the session.
#[derive(Debug)]
pub struct SuccessEvent {
    pub account_name: String,
    pub span_id: u64,
}

/// The event that goes with `action`: for a success, the record with the
/// login of the credentials, or with the name of the user that a master
/// login stands for, and with the session; for any other action, none.
pub open spec fn success_recorded(
    core: &Core,
    credentials: &Credentials,
    session_id: u64,
    action: AuthAction,
    event: Option<SuccessEvent>,
) -> bool {
    match action {
        AuthAction::Succeed(source) => match event {
            Some(e) => e.span_id == session_id && e.account_name@ == (if source
                == Source::MasterUser {
                master_name(core, credentials)
            } else {
                credentials.login_spec()
            }),
            None => false,
        },
        _ => event is None,
    }
}

/// How an attempt ends that neither the directory nor a special user made
/// succeed: with the deferred error; else with the fail-to-ban count, where
/// that is configured; else with the plain failure.
pub open spec fn conclude(state: AuthState, has_fail2ban: bool) -> (AuthState, AuthAction) {
    if state.deferred {
        (AuthState { stage: AuthStage::Done, ..state }, AuthAction::Fail(AuthFailure::Deferred))
    } else if has_fail2ban {
        (AuthState { stage: AuthStage::Recording, ..state }, AuthAction::RecordFailure)
    } else {
        (AuthState { stage: AuthStage::Done, ..state }, AuthAction::Fail(AuthFailure::Failed))
    }
}

/// What follows a directory that gave no principal: the special users.
pub open spec fn try_special(
    core: &Core,
    credentials: &Credentials,
    state: AuthState,
    has_fail2ban: bool,
) -> (AuthState, AuthAction) {
    if names_fallback_admin(core, credentials) {
        (
            AuthState { stage: AuthStage::Verifying(Special::FallbackAdmin), ..state },
            AuthAction::VerifySecret(Special::FallbackAdmin),
        )
    } else if names_master_user(core, credentials) {
        (
            AuthState { stage: AuthStage::Verifying(Special::MasterUser), ..state },
            AuthAction::VerifySecret(Special::MasterUser),
        )
    } else {
        conclude(state, has_fail2ban)
    }
}

/// The state and the action that follow `event` in `state`.
pub open spec fn auth_step(
    core: &Core,
    credentials: &Credentials,
    has_fail2ban: bool,
    state: AuthState,
    event: AuthEvent,
) -> (AuthState, AuthAction) {
    let done = AuthState { stage: AuthStage::Done, ..state };
    match (state.stage, event) {
        (AuthStage::Start, AuthEvent::Start) => (
            AuthState { stage: AuthStage::Querying, ..state },
            AuthAction::QueryCredentials,
        ),
        (AuthStage::Querying, AuthEvent::Directory(DirectoryReply::Found)) => (
            done,
            AuthAction::Succeed(Source::Directory),
        ),
        (AuthStage::Querying, AuthEvent::Directory(DirectoryReply::MissingTotp)) => (
            done,
            AuthAction::Fail(AuthFailure::MissingTotp),
        ),
        (AuthStage::Querying, AuthEvent::Directory(DirectoryReply::NotFound)) => try_special(
            core,
            credentials,
            AuthState { deferred: false, ..state },
            has_fail2ban,
        ),
        (AuthStage::Querying, AuthEvent::Directory(DirectoryReply::Failed)) => try_special(
            core,
            credentials,
            AuthState { deferred: true, ..state },
            has_fail2ban,
        ),
        (AuthStage::Verifying(Special::FallbackAdmin), AuthEvent::SecretVerified(true)) => (
            done,
            AuthAction::Succeed(Source::FallbackAdmin),
        ),
        (AuthStage::Verifying(Special::MasterUser), AuthEvent::SecretVerified(true)) => (
            AuthState { stage: AuthStage::QueryingName, ..state },
            AuthAction::QueryMasterTarget,
        ),
        (AuthStage::Verifying(Special::FallbackAdmin), AuthEvent::SecretVerified(false)) => {
            if names_master_user(core, credentials) {
                (
                    AuthState { stage: AuthStage::Verifying(Special::MasterUser), ..state },
                    AuthAction::VerifySecret(Special::MasterUser),
                )
            } else {
                conclude(state, has_fail2ban)
            }
        },
        (AuthStage::Verifying(Special::MasterUser), AuthEvent::SecretVerified(false)) => conclude(
            state,
            has_fail2ban,
        ),
        (AuthStage::QueryingName, AuthEvent::NameQueried(true)) => (
            done,
            AuthAction::Succeed(Source::MasterUser),
        ),
        (AuthStage::QueryingName, AuthEvent::NameQueried(false)) => conclude(state, has_fail2ban),
        (AuthStage::Recording, AuthEvent::Fail2Ban(true)) => (
            done,
            AuthAction::Fail(AuthFailure::Banned),
        ),
        (AuthStage::Recording, AuthEvent::Fail2Ban(false)) => (
            done,
            AuthAction::Fail(AuthFailure::Failed),
        ),
        _ => (state, AuthAction::Unexpected),
    }
}

/// The directory's demand for a one-time password ends the attempt with that
/// error, whatever is configured: no special user is tried.
pub proof fn lemma_missing_totp_ends(
    core: &Core,
    credentials: &Credentials,
    has_fail2ban: bool,
    state: AuthState,
)
    requires
        state.stage == AuthStage::Querying,
    ensures
        auth_step(
            core,
            credentials,
            has_fail2ban,
            state,
            AuthEvent::Directory(DirectoryReply::MissingTotp),
        ) == (
            AuthState { stage: AuthStage::Done, ..state },
            AuthAction::Fail(AuthFailure::MissingTotp),
        ),
{
}

/// A secret that fails the fallback administrator's hash is tried against
/// the master user's next, where the user name is a master login.
pub proof fn lemma_master_follows_fallback(
    core: &Core,
    credentials: &Credentials,
    has_fail2ban: bool,
    state: AuthState,
)
    requires
        state.stage == AuthStage::Verifying(Special::FallbackAdmin),
        names_master_user(core, credentials),
    ensures
        auth_step(core, credentials, has_fail2ban, state, AuthEvent::SecretVerified(false)).1
            == AuthAction::VerifySecret(Special::MasterUser),
{
}

fn conclude_attempt(state: AuthState, has_fail2ban: bool) -> (r: (AuthState, AuthAction))
    ensures
        r == conclude(state, has_fail2ban),
{
    if state.deferred {
        (AuthState { stage: AuthStage::Done, deferred: state.deferred }, AuthAction::Fail(AuthFailure::Deferred))
    } else if has_fail2ban {
        (AuthState { stage: AuthStage::Recording, deferred: state.deferred }, AuthAction::RecordFailure)
    } else {
        (AuthState { stage: AuthStage::Done, deferred: state.deferred }, AuthAction::Fail(AuthFailure::Failed))
    }
}

impl AuthState {
    /// The state before the first step.
    pub fn new() -> (state: AuthState)
        ensures
            state == (AuthState { stage: AuthStage::Start, deferred: false }),
    {
        AuthState { stage: AuthStage::Start, deferred: false }
    }
}

impl Core {
    /// Whether the credentials name the configured fallback administrator.
    pub fn is_fallback_admin(&self, credentials: &Credentials) -> (r: bool)
        ensures
            r == names_fallback_admin(self, credentials),
    {
        match (&self.jmap.fallback_admin, credentials) {
            (Some((admin, _)), Credentials::Plain { username, .. }) => str_eq(
                username.as_str(),
                admin.as_str(),
            ),
            _ => false,
        }
    }

    /// Whether the credentials are a master login.
    pub fn is_master_user(&self, credentials: &Credentials) -> (r: bool)
        ensures
            r == names_master_user(self, credentials),
    {
        match (&self.jmap.master_user, credentials) {
            (Some((suffix, _)), Credentials::Plain { username, .. }) => master_target(
                username.as_str(),
                suffix.as_str(),
            ).is_some(),
            _ => false,
        }
    }

    /// The name of the user that a master login stands for.
    pub fn master_name_of(&self, credentials: &Credentials) -> (name: String)
        ensures
            name@ == master_name(self, credentials),
    {
        match (&self.jmap.master_user, credentials) {
            (Some((suffix, _)), Credentials::Plain { username, .. }) => {
                match master_target(username.as_str(), suffix.as_str()) {
                    Some(name) => {
                        proof {
                            encode_utf8_decode_utf8(name@);
                        }
                        name.to_owned()
                    },
                    None => String::new(),
                }
            },
            _ => String::new(),
        }
    }

    fn try_special_users(&self, credentials: &Credentials, state: AuthState, has_fail2ban: bool) -> (r:
        (AuthState, AuthAction))
        ensures
            r == try_special(self, credentials, state, has_fail2ban),
    {
        if self.is_fallback_admin(credentials) {
            (
                AuthState { stage: AuthStage::Verifying(Special::FallbackAdmin), deferred: state.deferred },
                AuthAction::VerifySecret(Special::FallbackAdmin),
            )
        } else if self.is_master_user(credentials) {
            (
                AuthState { stage: AuthStage::Verifying(Special::MasterUser), deferred: state.deferred },
                AuthAction::VerifySecret(Special::MasterUser),
            )
        } else {
            conclude_attempt(state, has_fail2ban)
        }
    }

    fn next_step(
        &self,
        credentials: &Credentials,
        has_fail2ban: bool,
        state: AuthState,
        event: AuthEvent,
    ) -> (r: (AuthState, AuthAction))
        ensures
            r == auth_step(self, credentials, has_fail2ban, state, event),
    {
        let done = AuthState { stage: AuthStage::Done, deferred: state.deferred };
        match (state.stage, event) {
            (AuthStage::Start, AuthEvent::Start) => (
                AuthState { stage: AuthStage::Querying, deferred: state.deferred },
                AuthAction::QueryCredentials,
            ),
            (AuthStage::Querying, AuthEvent::Directory(DirectoryReply::Found)) => (
                done,
                AuthAction::Succeed(Source::Directory),
            ),
            (AuthStage::Querying, AuthEvent::Directory(DirectoryReply::MissingTotp)) => (
                done,
                AuthAction::Fail(AuthFailure::MissingTotp),
            ),
            (AuthStage::Querying, AuthEvent::Directory(DirectoryReply::NotFound)) => {
                self.try_special_users(
                    credentials,
                    AuthState { stage: state.stage, deferred: false },
                    has_fail2ban,
                )
            },
            (AuthStage::Querying, AuthEvent::Directory(DirectoryReply::Failed)) => {
                self.try_special_users(
                    credentials,
                    AuthState { stage: state.stage, deferred: true },
                    has_fail2ban,
                )
            },
            (AuthStage::Verifying(Special::FallbackAdmin), AuthEvent::SecretVerified(true)) => (
                done,
                AuthAction::Succeed(Source::FallbackAdmin),
            ),
            (AuthStage::Verifying(Special::MasterUser), AuthEvent::SecretVerified(true)) => (
                AuthState { stage: AuthStage::QueryingName, deferred: state.deferred },
                AuthAction::QueryMasterTarget,
            ),
            (
                AuthStage::Verifying(Special::FallbackAdmin),
                AuthEvent::SecretVerified(false),
            ) => {
                if self.is_master_user(credentials) {
                    (
                        AuthState {
                            stage: AuthStage::Verifying(Special::MasterUser),
                            deferred: state.deferred,
                        },
                        AuthAction::VerifySecret(Special::MasterUser),
                    )
                } else {
                    conclude_attempt(state, has_fail2ban)
                }
            },
            (
                AuthStage::Verifying(Special::MasterUser),
                AuthEvent::SecretVerified(false),
            ) => conclude_attempt(state, has_fail2ban),
            (AuthStage::QueryingName, AuthEvent::NameQueried(true)) => (
                done,
                AuthAction::Succeed(Source::MasterUser),
            ),
            (AuthStage::QueryingName, AuthEvent::NameQueried(false)) => conclude_attempt(
                state,
                has_fail2ban,
            ),
            (AuthStage::Recording, AuthEvent::Fail2Ban(true)) => (
                done,
                AuthAction::Fail(AuthFailure::Banned),
            ),
            (AuthStage::Recording, AuthEvent::Fail2Ban(false)) => (
                done,
                AuthAction::Fail(AuthFailure::Failed),
            ),
            _ => (state, AuthAction::Unexpected),
        }
    }

    /// Takes `event` in `state` of an attempt with `credentials` in the
    /// session `session_id`, and returns the next state, what to do next,
    /// and with a success the event that records it. `has_fail2ban` says
    /// whether fail-to-ban is configured.
    pub fn authenticate(
        &self,
        session_id: u64,
        credentials: &Credentials,
        has_fail2ban: bool,
        state: AuthState,
        event: AuthEvent,
    ) -> (r: (AuthState, AuthAction, Option<SuccessEvent>))
        ensures
            (r.0, r.1) == auth_step(self, credentials, has_fail2ban, state, event),
            success_recorded(self, credentials, session_id, r.1, r.2),
    {
        let (next, action) = self.next_step(credentials, has_fail2ban, state, event);
        let recorded = match action {
            AuthAction::Succeed(Source::MasterUser) => Some(
                SuccessEvent {
                    account_name: self.master_name_of(credentials),
                    span_id: session_id,
                },
            ),
            AuthAction::Succeed(_) => Some(
                SuccessEvent { account_name: credentials.login().to_owned(), span_id: session_id },
            ),
            _ => None,
        };
        (next, action, recorded)
    }
}

} // verus!
