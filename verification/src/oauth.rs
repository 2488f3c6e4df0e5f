//! The token endpoint: which step follows from a request's form fields and
//! from what the stores answered. The caller performs each step (a fetch, a
//! validation, a delete and an issue) and comes back with the outcome.

use crate::text::bytes_eq_ignore_ascii_case;
use crate::text::eq_ignoring_ascii_case;
use crate::text::str_eq;
use crate::token::OAuthResponse;
use crate::token::TokenError;
use crate::token::JMAP;
use vstd::prelude::*;
use vstd::utf8::encode_utf8;

verus! {

/// The longest form body that the endpoint reads, in bytes.
pub const MAX_POST_LEN: usize = 2048;

/// The status of a refused request.
pub const STATUS_BAD_REQUEST: u16 = 400;

/// The status of a granted request.
pub const STATUS_OK: u16 = 200;

/// The errors of the token endpoint.
#[derive(Clone, Copy, Debug, PartialEq, Eq, Structural)]
pub enum ErrorType {
    InvalidGrant,
    InvalidClient,
    InvalidRequest,
    AccessDenied,
    ExpiredToken,
    AuthorizationPending,
}

impl ErrorType {
    /// The name of each error on the wire.
    pub open spec fn name(&self) -> Seq<char> {
        match self {
            ErrorType::InvalidGrant => "invalid_grant"@,
            ErrorType::InvalidClient => "invalid_client"@,
            ErrorType::InvalidRequest => "invalid_request"@,
            ErrorType::AccessDenied => "access_denied"@,
            ErrorType::ExpiredToken => "expired_token"@,
            ErrorType::AuthorizationPending => "authorization_pending"@,
        }
    }

    /// The name of the error on the wire.
    pub fn as_str(&self) -> (text: &'static str)
        ensures
            text@ == self.name(),
    {
        match self {
            ErrorType::InvalidGrant => "invalid_grant",
            ErrorType::InvalidClient => "invalid_client",
            ErrorType::InvalidRequest => "invalid_request",
            ErrorType::AccessDenied => "access_denied",
            ErrorType::ExpiredToken => "expired_token",
            ErrorType::AuthorizationPending => "authorization_pending",
        }
    }
}

/// Where an authorization or device code stands.
#[derive(Clone, Copy, Debug, PartialEq, Eq, Structural)]
pub enum OAuthStatus {
    Authorized,
    TokenIssued,
    Pending,
}

/// The record kept under a code until a token is issued for it.
#[derive(Debug)]
pub struct OAuthCode {
    pub status: OAuthStatus,
    pub account_id: u32,
    pub client_id: String,
    pub params: String,
}

/// The body of the endpoint's answer.
#[derive(Debug)]
pub enum TokenResponse {
    Granted(OAuthResponse),
    Error { error: ErrorType },
}

impl TokenResponse {
    /// The answer that refuses with `error`.
    pub fn error(error: ErrorType) -> (r: TokenResponse)
        ensures
            r == (TokenResponse::Error { error }),
    {
        TokenResponse::Error { error }
    }

    /// Whether the answer refuses.
    pub fn is_error(&self) -> (r: bool)
        ensures
            r == (*self is Error),
    {
        match self {
            TokenResponse::Error { .. } => true,
            TokenResponse::Granted(_) => false,
        }
    }

    /// The HTTP status that the answer is sent with: 400 for a refusal, 200
    /// for a grant.
    pub fn status(&self) -> (r: u16)
        ensures
            r == if *self is Error {
                STATUS_BAD_REQUEST
            } else {
                STATUS_OK
            },
    {
        if self.is_error() {
            STATUS_BAD_REQUEST
        } else {
            STATUS_OK
        }
    }
}

/// The map that a list of named entries stands for: a later entry replaces
/// an earlier one of the same name.
pub open spec fn entries_map<T>(entries: Seq<(String, T)>) -> Map<Seq<char>, T>
    decreases entries.len(),
{
    if entries.len() == 0 {
        Map::empty()
    } else {
        entries_map(entries.drop_last()).insert(entries.last().0@, entries.last().1)
    }
}

/// Values by name, in the order in which they were bound.
#[derive(Debug)]
pub struct NamedTable<T> {
    pub entries: Vec<(String, T)>,
}

impl<T> NamedTable<T> {
    /// The table as a map from name to resource.
    pub open spec fn view(&self) -> Map<Seq<char>, T> {
        entries_map(self.entries@)
    }

    /// A table without entries.
    pub fn new() -> (table: Self)
        ensures
            table@ == Map::<Seq<char>, T>::empty(),
    {
        NamedTable { entries: Vec::new() }
    }

    /// Binds `name` to `value`, in place of what it was bound to.
    pub fn insert(&mut self, name: String, value: T)
        ensures
            final(self)@ == old(self)@.insert(name@, value),
    {
        let ghost before = self.entries@;
        self.entries.push((name, value));
        proof {
            assert(self.entries@.drop_last() =~= before);
        }
    }

    /// The resource bound to `name`.
    pub fn get(&self, name: &str) -> (found: Option<&T>)
        ensures
            match found {
                Some(value) => self@.contains_key(name@) && self@[name@] == *value,
                None => !self@.contains_key(name@),
            },
    {
        let mut i: usize = self.entries.len();
        proof {
            assert(self.entries@.take(i as int) =~= self.entries@);
        }
        while i > 0
            invariant
                i <= self.entries@.len(),
                self@.contains_key(name@) == entries_map(self.entries@.take(i as int)).contains_key(
                    name@,
                ),
                self@.contains_key(name@) ==> self@[name@] == entries_map(
                    self.entries@.take(i as int),
                )[name@],
            decreases i,
        {
            proof {
                let head = self.entries@.take(i as int);
                assert(head.drop_last() =~= self.entries@.take(i - 1));
                assert(head.last() == self.entries@[i - 1]);
            }
            i = i - 1;
            if str_eq(self.entries[i].0.as_str(), name) {
                return Some(&self.entries[i].1);
            }
        }
        proof {
            assert(self.entries@.take(0).len() == 0);
        }
        None
    }
}

/// The fields of a posted form, by name. Names are matched by case.
#[derive(Debug)]
pub struct FormData {
    pub fields: NamedTable<String>,
}

impl FormData {
    /// The value of the field `name`.
    pub open spec fn field(&self, name: Seq<char>) -> Option<Seq<char>> {
        if self.fields@.contains_key(name) {
            Some(self.fields@[name]@)
        } else {
            None
        }
    }

    /// The value of the field `name`.
    pub fn get(&self, name: &str) -> (value: Option<&str>)
        ensures
            match value {
                Some(text) => self.field(name@) == Some(text@),
                None => self.field(name@) is None,
            },
    {
        match self.fields.get(name) {
            Some(text) => Some(text.as_str()),
            None => None,
        }
    }
}

/// The flows that the endpoint serves.
#[derive(Clone, Copy, Debug, PartialEq, Eq, Structural)]
pub enum GrantKind {
    AuthorizationCode,
    DeviceCode,
    RefreshToken,
    Other,
}

/// The flow that a `grant_type` field asks for; letter case does not matter.
pub open spec fn grant_kind(grant_type: Seq<char>) -> GrantKind {
    let g = encode_utf8(grant_type);
    if eq_ignoring_ascii_case(g, encode_utf8("authorization_code"@)) {
        GrantKind::AuthorizationCode
    } else if eq_ignoring_ascii_case(
        g,
        encode_utf8("urn:ietf:params:oauth:grant-type:device_code"@),
    ) {
        GrantKind::DeviceCode
    } else if eq_ignoring_ascii_case(g, encode_utf8("refresh_token"@)) {
        GrantKind::RefreshToken
    } else {
        GrantKind::Other
    }
}

/// The key under which the record of `code` is stored: "oauth:" and the code.
pub open spec fn code_key(code: Seq<char>) -> Seq<u8> {
    encode_utf8("oauth:"@) + encode_utf8(code)
}

/// What the caller reports to the endpoint.
#[derive(Debug)]
pub enum TokenEvent {
    /// The request has arrived.
    Start,
    /// The lookup store answered the fetch of a code's record.
    CodeFetched(Option<OAuthCode>),
    /// The refresh token was validated under the grant type "refresh_token".
    RefreshValidated(Result<(u32, String, u64), TokenError>),
}

/// What the endpoint asks of the caller next.
#[derive(Debug)]
pub enum TokenAction {
    /// Fetch the record stored under `key`, and report `CodeFetched`.
    FetchCode { key: Vec<u8> },
    /// Validate `token` as a refresh token, and report `RefreshValidated`.
    ValidateRefresh { token: String },
    /// Delete `delete_key` where there is one, then issue a token and answer
    /// with it.
    Issue {
        delete_key: Option<Vec<u8>>,
        account_id: u32,
        client_id: String,
        with_refresh_token: bool,
    },
    /// Answer with `error`.
    Respond { error: ErrorType },
}

/// A `TokenEvent` as plain values.
pub enum TokenEventView {
    Start,
    CodeFetched(Option<(OAuthStatus, u32, Seq<char>, Seq<char>)>),
    RefreshValidated(Result<(u32, Seq<char>, u64), TokenError>),
}

/// A `TokenAction` as plain values.
pub enum TokenActionView {
    FetchCode { key: Seq<u8> },
    ValidateRefresh { token: Seq<char> },
    Issue {
        delete_key: Option<Seq<u8>>,
        account_id: u32,
        client_id: Seq<char>,
        with_refresh_token: bool,
    },
    Respond { error: ErrorType },
}

impl View for TokenEvent {
    type V = TokenEventView;

    open spec fn view(&self) -> TokenEventView {
        match self {
            TokenEvent::Start => TokenEventView::Start,
            TokenEvent::CodeFetched(None) => TokenEventView::CodeFetched(None),
            TokenEvent::CodeFetched(Some(c)) => TokenEventView::CodeFetched(
                Some((c.status, c.account_id, c.client_id@, c.params@)),
            ),
            TokenEvent::RefreshValidated(Ok((a, c, t))) => TokenEventView::RefreshValidated(
                Ok((*a, c@, *t)),
            ),
            TokenEvent::RefreshValidated(Err(e)) => TokenEventView::RefreshValidated(Err(*e)),
        }
    }
}

impl View for TokenAction {
    type V = TokenActionView;

    open spec fn view(&self) -> TokenActionView {
        match self {
            TokenAction::FetchCode { key } => TokenActionView::FetchCode { key: key@ },
            TokenAction::ValidateRefresh { token } => TokenActionView::ValidateRefresh {
                token: token@,
            },
            TokenAction::Issue { delete_key, account_id, client_id, with_refresh_token } => {
                TokenActionView::Issue {
                    delete_key: match delete_key {
                        Some(k) => Some(k@),
                        None => None,
                    },
                    account_id: *account_id,
                    client_id: client_id@,
                    with_refresh_token: *with_refresh_token,
                }
            },
            TokenAction::Respond { error } => TokenActionView::Respond { error: *error },
        }
    }
}

/// The `grant_type` field of a request, empty where it has none.
pub open spec fn grant_field(params: &FormData) -> Seq<char> {
    match params.field("grant_type"@) {
        Some(g) => g,
        None => Seq::<char>::empty(),
    }
}

/// The first step of a request: the fetch or the validation that its flow
/// needs. A code flow that lacks one of its fields is refused as
/// `invalid_client`, a refresh without its token as `invalid_request`, and a
/// flow that is not served as `invalid_grant`; nothing is fetched then.
pub open spec fn first_step(params: &FormData) -> TokenActionView {
    match grant_kind(grant_field(params)) {
        GrantKind::AuthorizationCode => match (
            params.field("code"@),
            params.field("client_id"@),
            params.field("redirect_uri"@),
        ) {
            (Some(code), Some(_), Some(_)) => TokenActionView::FetchCode { key: code_key(code) },
            _ => TokenActionView::Respond { error: ErrorType::InvalidClient },
        },
        GrantKind::DeviceCode => match (params.field("device_code"@), params.field("client_id"@)) {
            (Some(code), Some(_)) => TokenActionView::FetchCode { key: code_key(code) },
            _ => TokenActionView::Respond { error: ErrorType::InvalidClient },
        },
        GrantKind::RefreshToken => match params.field("refresh_token"@) {
            Some(token) => TokenActionView::ValidateRefresh { token },
            None => TokenActionView::Respond { error: ErrorType::InvalidRequest },
        },
        GrantKind::Other => TokenActionView::Respond { error: ErrorType::InvalidGrant },
    }
}

/// The step after the record of an authorization code was fetched.
pub open spec fn authorization_code_step(
    key: Seq<u8>,
    client_id: Seq<char>,
    redirect_uri: Seq<char>,
    record: Option<(OAuthStatus, u32, Seq<char>, Seq<char>)>,
) -> TokenActionView {
    match record {
        None => TokenActionView::Respond { error: ErrorType::AccessDenied },
        Some((status, account_id, stored_client, stored_params)) => if client_id != stored_client
            || redirect_uri != stored_params {
            TokenActionView::Respond { error: ErrorType::InvalidClient }
        } else if status == OAuthStatus::Authorized {
            TokenActionView::Issue {
                delete_key: Some(key),
                account_id,
                client_id: stored_client,
                with_refresh_token: true,
            }
        } else {
            TokenActionView::Respond { error: ErrorType::InvalidGrant }
        },
    }
}

/// The step after the record of a device code was fetched.
pub open spec fn device_code_step(
    key: Seq<u8>,
    client_id: Seq<char>,
    record: Option<(OAuthStatus, u32, Seq<char>, Seq<char>)>,
) -> TokenActionView {
    match record {
        None => TokenActionView::Respond { error: ErrorType::ExpiredToken },
        Some((status, account_id, stored_client, _)) => if client_id != stored_client {
            TokenActionView::Respond { error: ErrorType::InvalidClient }
        } else {
            match status {
                OAuthStatus::Authorized => TokenActionView::Issue {
                    delete_key: Some(key),
                    account_id,
                    client_id: stored_client,
                    with_refresh_token: true,
                },
                OAuthStatus::Pending => TokenActionView::Respond {
                    error: ErrorType::AuthorizationPending,
                },
                OAuthStatus::TokenIssued => TokenActionView::Respond {
                    error: ErrorType::ExpiredToken,
                },
            }
        },
    }
}

/// The step after a refresh token was validated: a new access token, and a
/// new refresh token too where no more than `renew` seconds are left.
pub open spec fn refresh_step(
    validated: Result<(u32, Seq<char>, u64), TokenError>,
    renew: u64,
) -> TokenActionView {
    match validated {
        Ok((account_id, client_id, time_left)) => TokenActionView::Issue {
            delete_key: None,
            account_id,
            client_id,
            with_refresh_token: time_left <= renew,
        },
        Err(_) => TokenActionView::Respond { error: ErrorType::InvalidGrant },
    }
}

/// The step that follows `event` in a request with the fields `params`. An
/// event that the request's first step did not ask for gets that first step
/// again.
pub open spec fn token_step(params: &FormData, event: TokenEventView, renew: u64) -> TokenActionView {
    match (first_step(params), event) {
        (TokenActionView::FetchCode { key }, TokenEventView::CodeFetched(record)) => {
            match (
                grant_kind(grant_field(params)),
                params.field("client_id"@),
                params.field("redirect_uri"@),
            ) {
                (
                    GrantKind::AuthorizationCode,
                    Some(client_id),
                    Some(redirect_uri),
                ) => authorization_code_step(key, client_id, redirect_uri, record),
                (GrantKind::DeviceCode, Some(client_id), _) => device_code_step(
                    key,
                    client_id,
                    record,
                ),
                _ => first_step(params),
            }
        },
        (TokenActionView::ValidateRefresh { .. }, TokenEventView::RefreshValidated(validated)) => {
            refresh_step(validated, renew)
        },
        (first, _) => first,
    }
}

/// A code whose record is gone mints nothing: the step after a fetch that
/// found no record never issues a token.
pub proof fn lemma_missing_record_is_refused(params: &FormData, renew: u64)
    ensures
        !(token_step(params, TokenEventView::CodeFetched(None), renew) is Issue),
{
}

/// A token is issued for a code only where its record is authorized and was
/// presented by the client it was made for, and only together with the
/// deletion of that record: the key to delete is the key of the code.
pub proof fn lemma_code_is_spent_with_issue(
    params: &FormData,
    record: Option<(OAuthStatus, u32, Seq<char>, Seq<char>)>,
    renew: u64,
)
    requires
        token_step(params, TokenEventView::CodeFetched(record), renew) is Issue,
    ensures
        record is Some,
        record.unwrap().0 == OAuthStatus::Authorized,
        params.field("client_id"@) == Some(record.unwrap().2),
        first_step(params) is FetchCode,
        token_step(params, TokenEventView::CodeFetched(record), renew)->delete_key == Some(
            first_step(params)->FetchCode_key,
        ),
        token_step(params, TokenEventView::CodeFetched(record), renew)->account_id
            == record.unwrap().1,
{
}

/// A request for a served flow that lacks one of the flow's fields is
/// refused as `invalid_client` or `invalid_request`, before any record is
/// fetched.
pub proof fn lemma_missing_field_is_refused(params: &FormData)
    requires
        grant_kind(grant_field(params)) != GrantKind::Other,
        !(first_step(params) is FetchCode),
        !(first_step(params) is ValidateRefresh),
    ensures
        first_step(params) == (TokenActionView::Respond { error: ErrorType::InvalidClient })
            || first_step(params) == (TokenActionView::Respond {
            error: ErrorType::InvalidRequest,
        }),
{
}

/// The flow that `grant_type` asks for.
pub fn grant_kind_of(grant_type: &str) -> (kind: GrantKind)
    ensures
        kind == grant_kind(grant_type@),
{
    let g = grant_type.as_bytes();
    if bytes_eq_ignore_ascii_case(g, "authorization_code".as_bytes()) {
        GrantKind::AuthorizationCode
    } else if bytes_eq_ignore_ascii_case(
        g,
        "urn:ietf:params:oauth:grant-type:device_code".as_bytes(),
    ) {
        GrantKind::DeviceCode
    } else if bytes_eq_ignore_ascii_case(g, "refresh_token".as_bytes()) {
        GrantKind::RefreshToken
    } else {
        GrantKind::Other
    }
}

/// The key under which the record of `code` is stored.
pub fn code_key_of(code: &str) -> (key: Vec<u8>)
    ensures
        key@ == code_key(code@),
{
    let mut key: Vec<u8> = Vec::new();
    key.extend_from_slice("oauth:".as_bytes());
    key.extend_from_slice(code.as_bytes());
    key
}

/// The `grant_type` field of a request, empty where it has none.
pub fn grant_type_of(params: &FormData) -> (grant_type: &str)
    ensures
        grant_type@ == grant_field(params),
{
    match params.get("grant_type") {
        Some(g) => g,
        None => {
            proof {
                reveal_strlit("");
                assert(""@ =~= Seq::<char>::empty());
            }
            ""
        },
    }
}

/// The first step of a request with the fields `params`.
pub fn plan_token_request(params: &FormData) -> (action: TokenAction)
    ensures
        action@ == first_step(params),
{
    match grant_kind_of(grant_type_of(params)) {
        GrantKind::AuthorizationCode => {
            match (params.get("code"), params.get("client_id"), params.get("redirect_uri")) {
                (Some(code), Some(_), Some(_)) => TokenAction::FetchCode { key: code_key_of(code) },
                _ => TokenAction::Respond { error: ErrorType::InvalidClient },
            }
        },
        GrantKind::DeviceCode => {
            match (params.get("device_code"), params.get("client_id")) {
                (Some(code), Some(_)) => TokenAction::FetchCode { key: code_key_of(code) },
                _ => TokenAction::Respond { error: ErrorType::InvalidClient },
            }
        },
        GrantKind::RefreshToken => {
            match params.get("refresh_token") {
                Some(token) => TokenAction::ValidateRefresh { token: token.to_owned() },
                None => TokenAction::Respond { error: ErrorType::InvalidRequest },
            }
        },
        GrantKind::Other => TokenAction::Respond { error: ErrorType::InvalidGrant },
    }
}

/// The step after the record stored under `key` was fetched for an
/// authorization code presented by `client_id` with `redirect_uri`.
pub fn decide_authorization_code(
    key: Vec<u8>,
    client_id: &str,
    redirect_uri: &str,
    record: &Option<OAuthCode>,
) -> (action: TokenAction)
    ensures
        action@ == authorization_code_step(
            key@,
            client_id@,
            redirect_uri@,
            TokenEvent::CodeFetched(*record)@->CodeFetched_0,
        ),
{
    match record {
        None => TokenAction::Respond { error: ErrorType::AccessDenied },
        Some(oauth) => {
            if !str_eq(client_id, oauth.client_id.as_str()) || !str_eq(
                redirect_uri,
                oauth.params.as_str(),
            ) {
                TokenAction::Respond { error: ErrorType::InvalidClient }
            } else if oauth.status == OAuthStatus::Authorized {
                TokenAction::Issue {
                    delete_key: Some(key),
                    account_id: oauth.account_id,
                    client_id: oauth.client_id.clone(),
                    with_refresh_token: true,
                }
            } else {
                TokenAction::Respond { error: ErrorType::InvalidGrant }
            }
        },
    }
}

/// The step after the record stored under `key` was fetched for a device
/// code presented by `client_id`.
pub fn decide_device_code(key: Vec<u8>, client_id: &str, record: &Option<OAuthCode>) -> (action:
    TokenAction)
    ensures
        action@ == device_code_step(
            key@,
            client_id@,
            TokenEvent::CodeFetched(*record)@->CodeFetched_0,
        ),
{
    match record {
        None => TokenAction::Respond { error: ErrorType::ExpiredToken },
        Some(oauth) => {
            if !str_eq(client_id, oauth.client_id.as_str()) {
                TokenAction::Respond { error: ErrorType::InvalidClient }
            } else {
                match oauth.status {
                    OAuthStatus::Authorized => TokenAction::Issue {
                        delete_key: Some(key),
                        account_id: oauth.account_id,
                        client_id: oauth.client_id.clone(),
                        with_refresh_token: true,
                    },
                    OAuthStatus::Pending => TokenAction::Respond {
                        error: ErrorType::AuthorizationPending,
                    },
                    OAuthStatus::TokenIssued => TokenAction::Respond {
                        error: ErrorType::ExpiredToken,
                    },
                }
            }
        },
    }
}

/// The step after a refresh token was validated.
pub fn decide_refresh(validated: &Result<(u32, String, u64), TokenError>, renew: u64) -> (action:
    TokenAction)
    ensures
        action@ == refresh_step(
            TokenEvent::RefreshValidated(*validated)@->RefreshValidated_0,
            renew,
        ),
{
    match validated {
        Ok((account_id, client_id, time_left)) => TokenAction::Issue {
            delete_key: None,
            account_id: *account_id,
            client_id: client_id.clone(),
            with_refresh_token: *time_left <= renew,
        },
        Err(_) => TokenAction::Respond { error: ErrorType::InvalidGrant },
    }
}

impl JMAP {
    /// The step that follows `event` in the token request with the fields
    /// `params`.
    pub fn handle_token_request(&self, params: &FormData, event: &TokenEvent) -> (action:
        TokenAction)
        ensures
            action@ == token_step(params, event@, self.core.jmap.oauth_expiry_refresh_token_renew),
    {
        let first = plan_token_request(params);
        match (first, event) {
            (TokenAction::FetchCode { key }, TokenEvent::CodeFetched(record)) => {
                match (
                    grant_kind_of(grant_type_of(params)),
                    params.get("client_id"),
                    params.get("redirect_uri"),
                ) {
                    (
                        GrantKind::AuthorizationCode,
                        Some(client_id),
                        Some(redirect_uri),
                    ) => decide_authorization_code(key, client_id, redirect_uri, record),
                    (GrantKind::DeviceCode, Some(client_id), _) => decide_device_code(
                        key,
                        client_id,
                        record,
                    ),
                    _ => plan_token_request(params),
                }
            },
            (TokenAction::ValidateRefresh { .. }, TokenEvent::RefreshValidated(validated)) => {
                decide_refresh(validated, self.core.jmap.oauth_expiry_refresh_token_renew)
            },
            (first, _) => first,
        }
    }

    /// The answer to a request whose token was, or was not, issued: the
    /// grant, or nothing where issuing failed, which is an internal error.
    pub fn token_granted(issued: Result<OAuthResponse, TokenError>) -> (r: Result<
        TokenResponse,
        TokenError,
    >)
        ensures
            r == match issued {
                Ok(response) => Ok::<TokenResponse, TokenError>(TokenResponse::Granted(response)),
                Err(e) => Err::<TokenResponse, TokenError>(e),
            },
    {
        match issued {
            Ok(response) => Ok(TokenResponse::Granted(response)),
            Err(e) => Err(e),
        }
    }
}

} // verus!
