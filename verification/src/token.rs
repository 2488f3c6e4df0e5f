//! Bearer tokens: issuing them, and validating them against the account's
//! current password hash, the grant type and the clock.

use crate::cipher::aead_opened;
use crate::cipher::aead_sealed;
use crate::cipher::base64_bytes;
use crate::cipher::base64_decoded;
use crate::cipher::base64_encoded;
use crate::cipher::base64_text;
use crate::cipher::derived_key;
use crate::cipher::random_code;
use crate::cipher::unix_seconds;
use crate::cipher::utf8_string;
use crate::cipher::SymmetricEncrypt;
use crate::cipher::ENCRYPT_TAG_LEN;
use crate::cipher::RANDOM_CODE_LEN;
use crate::cipher::SEAL_MAX_LEN;
use crate::envelope::build_context;
use crate::envelope::build_nonce;
use crate::envelope::expiry_at;
use crate::envelope::expiry_of;
use crate::envelope::frame_token;
use crate::envelope::lemma_frame_round_trip;
use crate::envelope::frame_claims;
use crate::envelope::read_claims;
use crate::envelope::token_context;
use crate::envelope::token_frame;
use crate::envelope::token_nonce;
use crate::envelope::token_time;
use crate::envelope::token_time_of;
use crate::envelope::SEALED_LEN;
use crate::snapshot::Core;
use vstd::prelude::*;
use vstd::slice::slice_subrange;
use vstd::slice::slice_to_vec;
use vstd::utf8::decode_utf8;
use vstd::utf8::encode_utf8;
use vstd::utf8::encode_utf8_decode_utf8;
use vstd::utf8::encode_utf8_valid_utf8;
use vstd::utf8::valid_utf8;

verus! {

/// The longest client id that a token may carry, in bytes.
pub const CLIENT_ID_MAX_LEN: usize = 20;

/// The account id that stands for the fallback administrator.
pub const FALLBACK_ADMIN_ID: u32 = 0xFFFF_FFFF;

/// Why a token was not issued or not accepted.
#[derive(Clone, Copy, Debug, PartialEq, Eq, Structural)]
pub enum TokenError {
    TemporaryLookup,
    AccountMissing,
    NoPasswordHash,
    InvalidAccount,
    ClientIdTooLong,
    EncryptFailed,
    DecodeFailed,
    Expired,
}

impl TokenError {
    /// The message of each error.
    pub open spec fn message_text(&self) -> Seq<char> {
        match self {
            TokenError::TemporaryLookup => "Temporary lookup error"@,
            TokenError::AccountMissing => "Account no longer exists"@,
            TokenError::NoPasswordHash => "Failed to obtain password hash"@,
            TokenError::InvalidAccount => "Invalid account id."@,
            TokenError::ClientIdTooLong => "ClientId is too long"@,
            TokenError::EncryptFailed => "Failed to encrypt token."@,
            TokenError::DecodeFailed => "Failed to decode token"@,
            TokenError::Expired => "Token expired"@,
        }
    }

    /// The message shown for this error. Decoding failures of every kind
    /// share one message.
    pub fn message(&self) -> (text: &'static str)
        ensures
            text@ == self.message_text(),
    {
        match self {
            TokenError::TemporaryLookup => "Temporary lookup error",
            TokenError::AccountMissing => "Account no longer exists",
            TokenError::NoPasswordHash => "Failed to obtain password hash",
            TokenError::InvalidAccount => "Invalid account id.",
            TokenError::ClientIdTooLong => "ClientId is too long",
            TokenError::EncryptFailed => "Failed to encrypt token.",
            TokenError::DecodeFailed => "Failed to decode token",
            TokenError::Expired => "Token expired",
        }
    }
}

/// What the directory answered when asked for an account by its id.
#[derive(Debug)]
pub enum DirectoryAnswer {
    /// The query failed.
    Failed,
    /// There is no such account.
    Missing,
    /// The account's secrets, the password hash first.
    Secrets(Vec<String>),
}

/// What the token endpoint hands out.
#[derive(Debug)]
pub struct OAuthResponse {
    pub access_token: String,
    pub token_type: String,
    pub expires_in: u64,
    pub refresh_token: Option<String>,
    pub scope: Option<String>,
}

/// An `OAuthResponse` as plain text.
pub struct OAuthResponseView {
    pub access_token: Seq<char>,
    pub token_type: Seq<char>,
    pub expires_in: u64,
    pub refresh_token: Option<Seq<char>>,
    pub scope: Option<Seq<char>>,
}

impl View for OAuthResponse {
    type V = OAuthResponseView;

    open spec fn view(&self) -> OAuthResponseView {
        OAuthResponseView {
            access_token: self.access_token@,
            token_type: self.token_type@,
            expires_in: self.expires_in,
            refresh_token: match self.refresh_token {
                Some(t) => Some(t@),
                None => None,
            },
            scope: match self.scope {
                Some(t) => Some(t@),
                None => None,
            },
        }
    }
}

/// A result that holds text, as plain text.
pub open spec fn text_result(r: Result<String, TokenError>) -> Result<Seq<char>, TokenError> {
    match r {
        Ok(s) => Ok(s@),
        Err(e) => Err(e),
    }
}

/// A result that holds a response, as plain text.
pub open spec fn response_result(r: Result<OAuthResponse, TokenError>) -> Result<
    OAuthResponseView,
    TokenError,
> {
    match r {
        Ok(s) => Ok(s@),
        Err(e) => Err(e),
    }
}

/// A validation result, as plain values.
pub open spec fn claims_result(r: Result<(u32, String, u64), TokenError>) -> Result<
    (u32, Seq<char>, u64),
    TokenError,
> {
    match r {
        Ok((account_id, client, left)) => Ok((account_id, client@, left)),
        Err(e) => Err(e),
    }
}

/// What the cipher makes of `code` for a token with these claims: sealed
/// under the key derived from the context, with the nonce derived from grant
/// type, hash and expiry.
pub open spec fn sealed_part(
    key: Seq<u8>,
    grant: Seq<char>,
    account_id: u32,
    hash: Seq<char>,
    client: Seq<char>,
    expiry: u64,
    code: Seq<u8>,
) -> Option<Seq<u8>> {
    aead_sealed(
        derived_key(token_context(grant, client, account_id, hash), key),
        token_nonce(encode_utf8(grant), encode_utf8(hash), expiry),
        code,
    )
}

/// The bytes of the token that seals `code` for these claims at this expiry:
/// the frame around the sealed part.
pub open spec fn sealed_token(
    key: Seq<u8>,
    grant: Seq<char>,
    account_id: u32,
    hash: Seq<char>,
    client: Seq<char>,
    expiry: u64,
    code: Seq<u8>,
) -> Option<Seq<u8>> {
    match sealed_part(key, grant, account_id, hash, client, expiry, code) {
        Some(sealed) => Some(token_frame(sealed, account_id, expiry, encode_utf8(client))),
        None => None,
    }
}

/// What encoding a token returns at the Unix time `now_unix` with the random
/// code `code`.
pub open spec fn encode_spec(
    key: Seq<u8>,
    grant: Seq<char>,
    account_id: u32,
    hash: Seq<char>,
    client: Seq<char>,
    expiry_in: u64,
    now_unix: u64,
    code: Seq<u8>,
) -> Result<Seq<char>, TokenError> {
    if encode_utf8(client).len() > CLIENT_ID_MAX_LEN {
        Err(TokenError::ClientIdTooLong)
    } else {
        match sealed_token(
            key,
            grant,
            account_id,
            hash,
            client,
            expiry_at(now_unix, expiry_in),
            code,
        ) {
            Some(bytes) => Ok(base64_encoded(bytes)),
            None => Err(TokenError::EncryptFailed),
        }
    }
}

/// The token text `token` decodes to the frame of `sealed`, which is what the
/// cipher made of `code` for these claims, in `SEALED_LEN` bytes.
pub open spec fn issued_as(
    key: Seq<u8>,
    grant: Seq<char>,
    token: Seq<u8>,
    account_id: u32,
    hash: Seq<char>,
    client: Seq<char>,
    expiry: u64,
    code: Seq<u8>,
    sealed: Seq<u8>,
) -> bool {
    &&& sealed.len() == SEALED_LEN
    &&& sealed_part(key, grant, account_id, hash, client, expiry, code) == Some(sealed)
    &&& base64_decoded(token) == Some(
        token_frame(sealed, account_id, expiry, encode_utf8(client)),
    )
}

/// A token text that encoding returned for a 16-byte code, and that the
/// Base64 reader reads back as the bytes it was written from, is issued in
/// the sense of `issued_as`, with the expiry that encoding computed.
pub proof fn lemma_encoded_is_issued(
    key: Seq<u8>,
    grant: Seq<char>,
    account_id: u32,
    hash: Seq<char>,
    client: Seq<char>,
    expiry_in: u64,
    now_unix: u64,
    code: Seq<u8>,
    text: Seq<char>,
    sealed: Seq<u8>,
)
    requires
        code.len() == RANDOM_CODE_LEN,
        encode_spec(key, grant, account_id, hash, client, expiry_in, now_unix, code) == Ok::<
            Seq<char>,
            TokenError,
        >(text),
        sealed_part(key, grant, account_id, hash, client, expiry_at(now_unix, expiry_in), code)
            == Some(sealed),
        sealed.len() == code.len() + ENCRYPT_TAG_LEN,
        base64_decoded(encode_utf8(text)) == sealed_token(
            key,
            grant,
            account_id,
            hash,
            client,
            expiry_at(now_unix, expiry_in),
            code,
        ),
    ensures
        issued_as(
            key,
            grant,
            encode_utf8(text),
            account_id,
            hash,
            client,
            expiry_at(now_unix, expiry_in),
            code,
            sealed,
        ),
{
}

/// What the bytes of a token claim at the Unix time `now_unix`: account id,
/// expiry and client id. Bytes without claims, or with a client id that is
/// not text, fail to decode; claims whose time has come are expired.
pub open spec fn checked_claims(bytes: Seq<u8>, now_unix: u64) -> Result<
    (u32, u64, Seq<char>),
    TokenError,
> {
    match frame_claims(bytes) {
        None => Err(TokenError::DecodeFailed),
        Some(claims) => if !valid_utf8(claims.client) {
            Err(TokenError::DecodeFailed)
        } else if claims.expiry <= token_time(now_unix) {
            Err(TokenError::Expired)
        } else {
            Ok((claims.account_id, claims.expiry, decode_utf8(claims.client)))
        },
    }
}

/// Reads and checks the claims of the bytes of a token at the Unix time
/// `now_unix`.
pub fn check_claims(bytes: &[u8], now_unix: u64) -> (r: Result<(u32, u64, String), TokenError>)
    ensures
        match r {
            Ok((account_id, expiry, client_id)) => checked_claims(bytes@, now_unix) == Ok::<
                (u32, u64, Seq<char>),
                TokenError,
            >((account_id, expiry, client_id@)),
            Err(e) => checked_claims(bytes@, now_unix) == Err::<(u32, u64, Seq<char>), TokenError>(
                e,
            ),
        },
{
    let (account_id, expiry, at) = match read_claims(bytes) {
        Some(claims) => claims,
        None => {
            return Err(TokenError::DecodeFailed);
        },
    };
    let client = slice_subrange(bytes, at, bytes.len());
    proof {
        assert(client@ =~= bytes@.skip(at as int));
    }
    let client_id = match utf8_string(slice_to_vec(client)) {
        Some(text) => text,
        None => {
            return Err(TokenError::DecodeFailed);
        },
    };
    if expiry <= token_time_of(now_unix) {
        return Err(TokenError::Expired);
    }
    proof {
        encode_utf8_decode_utf8(client_id@);
    }
    Ok((account_id, expiry, client_id))
}

/// The service that issues and validates tokens under one snapshot.
pub struct JMAP {
    pub core: Core,
}

impl JMAP {
    /// The configured token secret, as bytes.
    pub open spec fn key_bytes(&self) -> Seq<u8> {
        encode_utf8(self.core.jmap.oauth_key@)
    }

    /// The password hash that binds the tokens of `account_id`: the first
    /// secret of the account, or the fallback administrator's for its id.
    pub open spec fn password_hash_spec(&self, account_id: u32, answer: DirectoryAnswer) -> Result<
        Seq<char>,
        TokenError,
    > {
        if account_id != FALLBACK_ADMIN_ID {
            match answer {
                DirectoryAnswer::Failed => Err(TokenError::TemporaryLookup),
                DirectoryAnswer::Missing => Err(TokenError::AccountMissing),
                DirectoryAnswer::Secrets(secrets) => if secrets@.len() > 0 {
                    Ok(secrets@[0]@)
                } else {
                    Err(TokenError::NoPasswordHash)
                },
            }
        } else {
            match self.core.jmap.fallback_admin {
                Some((_, secret)) => Ok(secret@),
                None => Err(TokenError::InvalidAccount),
            }
        }
    }

    /// What encoding returns, and what holds of it: the result is that of
    /// `encode_spec`; a token that is returned seals `code` in as many bytes
    /// and a tag; and a client id within its limit, with a code that the
    /// cipher takes, gets a token.
    pub open spec fn encoded_at(
        &self,
        r: Result<Seq<char>, TokenError>,
        grant: Seq<char>,
        account_id: u32,
        hash: Seq<char>,
        client: Seq<char>,
        expiry_in: u64,
        now_unix: u64,
        code: Seq<u8>,
    ) -> bool {
        let sealed = sealed_part(
            self.key_bytes(),
            grant,
            account_id,
            hash,
            client,
            expiry_at(now_unix, expiry_in),
            code,
        );
        &&& r == encode_spec(
            self.key_bytes(),
            grant,
            account_id,
            hash,
            client,
            expiry_in,
            now_unix,
            code,
        )
        &&& r is Ok ==> sealed is Some && sealed.unwrap().len() == code.len() + ENCRYPT_TAG_LEN
        &&& encode_utf8(client).len() <= CLIENT_ID_MAX_LEN && code.len() <= SEAL_MAX_LEN ==> r is Ok
    }

    /// What issuing returns at the Unix time `now_unix` with the random codes
    /// `code_access` and `code_refresh`.
    pub open spec fn issue_spec(
        &self,
        account_id: u32,
        client: Seq<char>,
        with_refresh_token: bool,
        answer: DirectoryAnswer,
        now_unix: u64,
        code_access: Seq<u8>,
        code_refresh: Seq<u8>,
    ) -> Result<OAuthResponseView, TokenError> {
        match self.password_hash_spec(account_id, answer) {
            Err(e) => Err(e),
            Ok(hash) => match encode_spec(
                self.key_bytes(),
                "access_token"@,
                account_id,
                hash,
                client,
                self.core.jmap.oauth_expiry_token,
                now_unix,
                code_access,
            ) {
                Err(e) => Err(e),
                Ok(access) => if with_refresh_token {
                    match encode_spec(
                        self.key_bytes(),
                        "refresh_token"@,
                        account_id,
                        hash,
                        client,
                        self.core.jmap.oauth_expiry_refresh_token,
                        now_unix,
                        code_refresh,
                    ) {
                        Err(e) => Err(e),
                        Ok(refresh) => Ok(
                            OAuthResponseView {
                                access_token: access,
                                token_type: "bearer"@,
                                expires_in: self.core.jmap.oauth_expiry_token,
                                refresh_token: Some(refresh),
                                scope: None,
                            },
                        ),
                    }
                } else {
                    Ok(
                        OAuthResponseView {
                            access_token: access,
                            token_type: "bearer"@,
                            expires_in: self.core.jmap.oauth_expiry_token,
                            refresh_token: None,
                            scope: None,
                        },
                    )
                },
            },
        }
    }

    /// Tokens are issued exactly for an account whose password hash is
    /// known and a client id within its limit.
    pub open spec fn issues_for(
        &self,
        account_id: u32,
        client: Seq<char>,
        answer: DirectoryAnswer,
    ) -> bool {
        self.password_hash_spec(account_id, answer) is Ok && encode_utf8(client).len()
            <= CLIENT_ID_MAX_LEN
    }

    /// What issuing a custom token returns at the Unix time `now_unix` with
    /// the random code `code`.
    pub open spec fn custom_spec(
        &self,
        account_id: u32,
        grant: Seq<char>,
        client: Seq<char>,
        expiry_in: u64,
        answer: DirectoryAnswer,
        now_unix: u64,
        code: Seq<u8>,
    ) -> Result<Seq<char>, TokenError> {
        match self.password_hash_spec(account_id, answer) {
            Err(e) => Err(e),
            Ok(hash) => encode_spec(
                self.key_bytes(),
                grant,
                account_id,
                hash,
                client,
                expiry_in,
                now_unix,
                code,
            ),
        }
    }

    /// The account that the text of a token names at the Unix time
    /// `now_unix`, or why it names none.
    pub open spec fn account_spec(token: Seq<u8>, now_unix: u64) -> Result<u32, TokenError> {
        match base64_decoded(token) {
            None => Err(TokenError::DecodeFailed),
            Some(bytes) => match checked_claims(bytes, now_unix) {
                Err(e) => Err(e),
                Ok((account_id, _, _)) => Ok(account_id),
            },
        }
    }

    /// What validating `token` returns at the Unix time `now_unix`: a token
    /// that does not decode, or whose client id is not text, fails to decode;
    /// one that has expired is expired; then the account's password hash is
    /// needed; then the sealed part must open under the reconstructed key and
    /// nonce.
    pub open spec fn validate_spec(
        &self,
        grant: Seq<char>,
        token: Seq<u8>,
        answer: DirectoryAnswer,
        now_unix: u64,
    ) -> Result<(u32, Seq<char>, u64), TokenError> {
        match base64_decoded(token) {
            None => Err(TokenError::DecodeFailed),
            Some(bytes) => match checked_claims(bytes, now_unix) {
                Err(e) => Err(e),
                Ok((account_id, expiry, client)) => match self.password_hash_spec(
                    account_id,
                    answer,
                ) {
                    Err(e) => Err(e),
                    Ok(hash) => match aead_opened(
                        derived_key(token_context(grant, client, account_id, hash), self.key_bytes()),
                        token_nonce(encode_utf8(grant), encode_utf8(hash), expiry),
                        bytes.take(SEALED_LEN as int),
                    ) {
                        None => Err(TokenError::DecodeFailed),
                        Some(_) => Ok((account_id, client, (expiry - token_time(now_unix)) as u64)),
                    },
                },
            },
        }
    }

    /// Validation stops before the cipher is asked.
    pub open spec fn stops_early(
        &self,
        token: Seq<u8>,
        answer: DirectoryAnswer,
        now_unix: u64,
    ) -> bool {
        match base64_decoded(token) {
            None => true,
            Some(bytes) => match checked_claims(bytes, now_unix) {
                Err(_) => true,
                Ok((account_id, _, _)) => self.password_hash_spec(account_id, answer) is Err,
            },
        }
    }

    /// An issued token validates: where `token` is what was issued for an
    /// account, a client and an expiry still ahead, under the password hash
    /// that the account has now, the result `r` is that account, that client
    /// and the time left.
    pub open spec fn accepts_issued(
        &self,
        r: Result<(u32, Seq<char>, u64), TokenError>,
        grant: Seq<char>,
        token: Seq<u8>,
        answer: DirectoryAnswer,
        now_unix: u64,
    ) -> bool {
        forall|
            account_id: u32,
            hash: Seq<char>,
            client: Seq<char>,
            expiry: u64,
            code: Seq<u8>,
            sealed: Seq<u8>,
        |
            #[trigger] issued_as(
                self.key_bytes(),
                grant,
                token,
                account_id,
                hash,
                client,
                expiry,
                code,
                sealed,
            ) && self.password_hash_spec(account_id, answer) == Ok::<Seq<char>, TokenError>(hash)
                && expiry > token_time(now_unix) ==> r == Ok::<(u32, Seq<char>, u64), TokenError>(
                (account_id, client, (expiry - token_time(now_unix)) as u64),
            )
    }

    /// What holds of a validation at the Unix time `now_unix`: its result is
    /// that of `validate_spec`, and an issued token validates.
    pub open spec fn validated_at(
        &self,
        r: Result<(u32, Seq<char>, u64), TokenError>,
        grant: Seq<char>,
        token: Seq<u8>,
        answer: DirectoryAnswer,
        now_unix: u64,
    ) -> bool {
        r == self.validate_spec(grant, token, answer, now_unix) && self.accepts_issued(
            r,
            grant,
            token,
            answer,
            now_unix,
        )
    }

    /// What the claims of an issued token are read as.
    proof fn lemma_issued_claims(
        &self,
        grant: Seq<char>,
        token: Seq<u8>,
        now_unix: u64,
        account_id: u32,
        hash: Seq<char>,
        client: Seq<char>,
        expiry: u64,
        code: Seq<u8>,
        sealed: Seq<u8>,
    )
        requires
            issued_as(
                self.key_bytes(),
                grant,
                token,
                account_id,
                hash,
                client,
                expiry,
                code,
                sealed,
            ),
            expiry > token_time(now_unix),
        ensures
            base64_decoded(token) is Some,
            checked_claims(base64_decoded(token).unwrap(), now_unix) == Ok::<
                (u32, u64, Seq<char>),
                TokenError,
            >((account_id, expiry, client)),
            base64_decoded(token).unwrap().take(SEALED_LEN as int) == sealed,
    {
        lemma_frame_round_trip(sealed, account_id, expiry, encode_utf8(client));
        encode_utf8_valid_utf8(client);
        encode_utf8_decode_utf8(client);
    }

    /// No issued and unexpired token makes validation stop early.
    proof fn lemma_early_is_not_issued(
        &self,
        r: Result<(u32, Seq<char>, u64), TokenError>,
        grant: Seq<char>,
        token: Seq<u8>,
        answer: DirectoryAnswer,
        now_unix: u64,
    )
        requires
            self.stops_early(token, answer, now_unix),
        ensures
            self.accepts_issued(r, grant, token, answer, now_unix),
    {
        assert forall|
            account_id: u32,
            hash: Seq<char>,
            client: Seq<char>,
            expiry: u64,
            code: Seq<u8>,
            sealed: Seq<u8>,
        |
            #[trigger] issued_as(
                self.key_bytes(),
                grant,
                token,
                account_id,
                hash,
                client,
                expiry,
                code,
                sealed,
            ) && self.password_hash_spec(account_id, answer) == Ok::<Seq<char>, TokenError>(hash)
                && expiry > token_time(now_unix) implies r == Ok::<
            (u32, Seq<char>, u64),
            TokenError,
        >((account_id, client, (expiry - token_time(now_unix)) as u64)) by {
            self.lemma_issued_claims(
                grant,
                token,
                now_unix,
                account_id,
                hash,
                client,
                expiry,
                code,
                sealed,
            );
        }
    }

    /// Where the cipher opens what it sealed, an issued and unexpired token
    /// gets the result that `validate_spec` gives, which is its claims.
    proof fn lemma_opened_is_issued(
        &self,
        r: Result<(u32, Seq<char>, u64), TokenError>,
        grant: Seq<char>,
        token: Seq<u8>,
        answer: DirectoryAnswer,
        now_unix: u64,
        key: Seq<u8>,
        nonce: Seq<u8>,
        part: Seq<u8>,
    )
        requires
            !self.stops_early(token, answer, now_unix),
            r == self.validate_spec(grant, token, answer, now_unix),
            ({
                let bytes = base64_decoded(token).unwrap();
                let claims = checked_claims(bytes, now_unix).unwrap();
                let hash = self.password_hash_spec(claims.0, answer).unwrap();
                &&& key == derived_key(
                    token_context(grant, claims.2, claims.0, hash),
                    self.key_bytes(),
                )
                &&& nonce == token_nonce(encode_utf8(grant), encode_utf8(hash), claims.1)
                &&& part == bytes.take(SEALED_LEN as int)
            }),
            forall|plaintext: Seq<u8>| #[trigger]
                aead_sealed(key, nonce, plaintext) == Some(part) ==> aead_opened(key, nonce, part)
                    is Some,
        ensures
            self.accepts_issued(r, grant, token, answer, now_unix),
    {
        assert forall|
            account_id: u32,
            hash: Seq<char>,
            client: Seq<char>,
            expiry: u64,
            code: Seq<u8>,
            sealed: Seq<u8>,
        |
            #[trigger] issued_as(
                self.key_bytes(),
                grant,
                token,
                account_id,
                hash,
                client,
                expiry,
                code,
                sealed,
            ) && self.password_hash_spec(account_id, answer) == Ok::<Seq<char>, TokenError>(hash)
                && expiry > token_time(now_unix) implies r == Ok::<
            (u32, Seq<char>, u64),
            TokenError,
        >((account_id, client, (expiry - token_time(now_unix)) as u64)) by {
            self.lemma_issued_claims(
                grant,
                token,
                now_unix,
                account_id,
                hash,
                client,
                expiry,
                code,
                sealed,
            );
            assert(aead_sealed(key, nonce, code) == Some(part));
        }
    }

    /// The password hash that binds the tokens of `account_id`, from what the
    /// directory answered for that id. The answer is not read for the
    /// fallback administrator.
    pub fn password_hash(&self, account_id: u32, answer: &DirectoryAnswer) -> (r: Result<
        String,
        TokenError,
    >)
        ensures
            text_result(r) == self.password_hash_spec(account_id, *answer),
    {
        if account_id != FALLBACK_ADMIN_ID {
            match answer {
                DirectoryAnswer::Failed => Err(TokenError::TemporaryLookup),
                DirectoryAnswer::Missing => Err(TokenError::AccountMissing),
                DirectoryAnswer::Secrets(secrets) => {
                    if secrets.len() > 0 {
                        Ok(secrets[0].clone())
                    } else {
                        Err(TokenError::NoPasswordHash)
                    }
                },
            }
        } else {
            match &self.core.jmap.fallback_admin {
                Some((_, secret)) => Ok(secret.clone()),
                None => Err(TokenError::InvalidAccount),
            }
        }
    }

    /// Encodes a token for `account_id` and `client_id` under `grant_type`,
    /// issued at the Unix time `now_unix` for `expiry_in` seconds, sealing
    /// `code`.
    pub fn encode_access_token_at(
        &self,
        grant_type: &str,
        account_id: u32,
        password_hash: &str,
        client_id: &str,
        expiry_in: u64,
        now_unix: u64,
        code: &[u8],
    ) -> (r: Result<String, TokenError>)
        ensures
            self.encoded_at(
                text_result(r),
                grant_type@,
                account_id,
                password_hash@,
                client_id@,
                expiry_in,
                now_unix,
                code@,
            ),
    {
        let client = client_id.as_bytes();
        if client.len() > CLIENT_ID_MAX_LEN {
            return Err(TokenError::ClientIdTooLong);
        }
        let context = build_context(grant_type, client_id, account_id, password_hash);
        let expiry = expiry_of(now_unix, expiry_in);
        let nonce = build_nonce(grant_type.as_bytes(), password_hash.as_bytes(), expiry);
        let cipher = SymmetricEncrypt::new(
            self.core.jmap.oauth_key.as_str().as_bytes(),
            context.as_str(),
        );
        match cipher.encrypt(code, nonce.as_slice()) {
            None => Err(TokenError::EncryptFailed),
            Some(sealed) => {
                let token = frame_token(sealed, account_id, expiry, client);
                Ok(base64_text(token.as_slice()))
            },
        }
    }

    /// Encodes a token as `encode_access_token_at` does, at the time the
    /// clock shows and with a fresh random code. It fails only for a client
    /// id over its limit.
    pub fn encode_access_token(
        &self,
        grant_type: &str,
        account_id: u32,
        password_hash: &str,
        client_id: &str,
        expiry_in: u64,
    ) -> (r: Result<String, TokenError>)
        ensures
            r is Ok <==> encode_utf8(client_id@).len() <= CLIENT_ID_MAX_LEN,
            exists|now_unix: u64, code: Seq<u8>|
                code.len() == RANDOM_CODE_LEN && #[trigger] self.encoded_at(
                    text_result(r),
                    grant_type@,
                    account_id,
                    password_hash@,
                    client_id@,
                    expiry_in,
                    now_unix,
                    code,
                ),
    {
        let now_unix = unix_seconds();
        let code = random_code();
        self.encode_access_token_at(
            grant_type,
            account_id,
            password_hash,
            client_id,
            expiry_in,
            now_unix,
            code.as_slice(),
        )
    }

    /// Issues an access token for the account, with a refresh token if asked,
    /// at the Unix time `now_unix` and with the given random codes.
    pub fn issue_token_at(
        &self,
        account_id: u32,
        client_id: &str,
        with_refresh_token: bool,
        answer: &DirectoryAnswer,
        now_unix: u64,
        code_access: &[u8],
        code_refresh: &[u8],
    ) -> (r: Result<OAuthResponse, TokenError>)
        ensures
            response_result(r) == self.issue_spec(
                account_id,
                client_id@,
                with_refresh_token,
                *answer,
                now_unix,
                code_access@,
                code_refresh@,
            ),
            r is Ok ==> self.issues_for(account_id, client_id@, *answer),
            code_access@.len() <= SEAL_MAX_LEN && code_refresh@.len() <= SEAL_MAX_LEN
                && self.issues_for(account_id, client_id@, *answer) ==> r is Ok,
    {
        let password_hash = match self.password_hash(account_id, answer) {
            Ok(hash) => hash,
            Err(e) => {
                return Err(e);
            },
        };
        let access_token = match self.encode_access_token_at(
            "access_token",
            account_id,
            password_hash.as_str(),
            client_id,
            self.core.jmap.oauth_expiry_token,
            now_unix,
            code_access,
        ) {
            Ok(token) => token,
            Err(e) => {
                return Err(e);
            },
        };
        let refresh_token = if with_refresh_token {
            match self.encode_access_token_at(
                "refresh_token",
                account_id,
                password_hash.as_str(),
                client_id,
                self.core.jmap.oauth_expiry_refresh_token,
                now_unix,
                code_refresh,
            ) {
                Ok(token) => Some(token),
                Err(e) => {
                    return Err(e);
                },
            }
        } else {
            None
        };
        Ok(
            OAuthResponse {
                access_token,
                token_type: "bearer".to_owned(),
                expires_in: self.core.jmap.oauth_expiry_token,
                refresh_token,
                scope: None,
            },
        )
    }

    /// Issues tokens as `issue_token_at` does, at the time the clock shows
    /// and with fresh random codes. It succeeds exactly for an account whose
    /// password hash is known and a client id within its limit.
    pub fn issue_token(
        &self,
        account_id: u32,
        client_id: &str,
        with_refresh_token: bool,
        answer: &DirectoryAnswer,
    ) -> (r: Result<OAuthResponse, TokenError>)
        ensures
            r is Ok <==> self.issues_for(account_id, client_id@, *answer),
            exists|now_unix: u64, code_access: Seq<u8>, code_refresh: Seq<u8>|
                code_access.len() == RANDOM_CODE_LEN && code_refresh.len() == RANDOM_CODE_LEN
                    && response_result(r) == #[trigger] self.issue_spec(
                    account_id,
                    client_id@,
                    with_refresh_token,
                    *answer,
                    now_unix,
                    code_access,
                    code_refresh,
                ),
    {
        let now_unix = unix_seconds();
        let code_access = random_code();
        let code_refresh = random_code();
        self.issue_token_at(
            account_id,
            client_id,
            with_refresh_token,
            answer,
            now_unix,
            code_access.as_slice(),
            code_refresh.as_slice(),
        )
    }

    /// Issues one token under a grant type and a lifetime of the caller's
    /// choice, at the time the clock shows and with a fresh random code. It
    /// succeeds exactly for an account whose password hash is known and a
    /// client id within its limit.
    pub fn issue_custom_token(
        &self,
        account_id: u32,
        grant_type: &str,
        client_id: &str,
        expiry_in: u64,
        answer: &DirectoryAnswer,
    ) -> (r: Result<String, TokenError>)
        ensures
            r is Ok <==> self.issues_for(account_id, client_id@, *answer),
            exists|now_unix: u64, code: Seq<u8>|
                code.len() == RANDOM_CODE_LEN && text_result(r) == #[trigger] self.custom_spec(
                    account_id,
                    grant_type@,
                    client_id@,
                    expiry_in,
                    *answer,
                    now_unix,
                    code,
                ),
    {
        let now_unix = unix_seconds();
        let code = random_code();
        let r = match self.password_hash(account_id, answer) {
            Err(e) => Err(e),
            Ok(hash) => self.encode_access_token_at(
                grant_type,
                account_id,
                hash.as_str(),
                client_id,
                expiry_in,
                now_unix,
                code.as_slice(),
            ),
        };
        proof {
            assert(code@.len() == RANDOM_CODE_LEN && text_result(r) == self.custom_spec(
                account_id,
                grant_type@,
                client_id@,
                expiry_in,
                *answer,
                now_unix,
                code@,
            ));
        }
        r
    }

    /// The account that `token_` names at the Unix time `now_unix`, for the
    /// caller to ask the directory about before validating; or why the
    /// token names none: it does not decode, or has expired.
    pub fn token_account_at(token_: &str, now_unix: u64) -> (r: Result<u32, TokenError>)
        ensures
            r == Self::account_spec(encode_utf8(token_@), now_unix),
    {
        match base64_bytes(token_.as_bytes()) {
            None => Err(TokenError::DecodeFailed),
            Some(bytes) => match check_claims(bytes.as_slice(), now_unix) {
                Err(e) => Err(e),
                Ok((account_id, _, _)) => Ok(account_id),
            },
        }
    }

    /// The account that `token_` names at the time the clock shows.
    pub fn token_account(token_: &str) -> (r: Result<u32, TokenError>)
        ensures
            exists|now_unix: u64| r == #[trigger] Self::account_spec(encode_utf8(token_@), now_unix),
    {
        let now_unix = unix_seconds();
        Self::token_account_at(token_, now_unix)
    }

    /// Validates `token_` under `grant_type` at the Unix time `now_unix`,
    /// given what the directory answered for the account it names. Returns
    /// account id, client id and the seconds left.
    pub fn validate_access_token_at(
        &self,
        grant_type: &str,
        token_: &str,
        answer: &DirectoryAnswer,
        now_unix: u64,
    ) -> (r: Result<(u32, String, u64), TokenError>)
        ensures
            claims_result(r) == self.validate_spec(
                grant_type@,
                encode_utf8(token_@),
                *answer,
                now_unix,
            ),
            self.accepts_issued(
                claims_result(r),
                grant_type@,
                encode_utf8(token_@),
                *answer,
                now_unix,
            ),
    {
        let ghost grant_v = grant_type@;
        let ghost token_v = encode_utf8(token_@);
        let token = match base64_bytes(token_.as_bytes()) {
            Some(token) => token,
            None => {
                proof {
                    self.lemma_early_is_not_issued(
                        Err(TokenError::DecodeFailed),
                        grant_v,
                        token_v,
                        *answer,
                        now_unix,
                    );
                }
                return Err(TokenError::DecodeFailed);
            },
        };
        let (account_id, expiry, client_id) = match check_claims(token.as_slice(), now_unix) {
            Ok(claims) => claims,
            Err(e) => {
                proof {
                    self.lemma_early_is_not_issued(Err(e), grant_v, token_v, *answer, now_unix);
                }
                return Err(e);
            },
        };
        let now = token_time_of(now_unix);
        let password_hash = match self.password_hash(account_id, answer) {
            Ok(hash) => hash,
            Err(e) => {
                proof {
                    self.lemma_early_is_not_issued(Err(e), grant_v, token_v, *answer, now_unix);
                }
                return Err(e);
            },
        };
        let context = build_context(
            grant_type,
            client_id.as_str(),
            account_id,
            password_hash.as_str(),
        );
        let nonce = build_nonce(grant_type.as_bytes(), password_hash.as_str().as_bytes(), expiry);
        let cipher = SymmetricEncrypt::new(
            self.core.jmap.oauth_key.as_str().as_bytes(),
            context.as_str(),
        );
        let part = slice_subrange(token.as_slice(), 0, SEALED_LEN);
        proof {
            assert(part@ =~= token@.take(SEALED_LEN as int));
        }
        let opened = cipher.decrypt(part, nonce.as_slice());
        let r = match opened {
            None => Err(TokenError::DecodeFailed),
            Some(_) => Ok((account_id, client_id, expiry - now)),
        };
        proof {
            self.lemma_opened_is_issued(
                claims_result(r),
                grant_v,
                token_v,
                *answer,
                now_unix,
                cipher.key(),
                nonce@,
                part@,
            );
        }
        r
    }

    /// Validates `token_` as `validate_access_token_at` does, at the time
    /// the clock shows.
    pub fn validate_access_token(
        &self,
        grant_type: &str,
        token_: &str,
        answer: &DirectoryAnswer,
    ) -> (r: Result<(u32, String, u64), TokenError>)
        ensures
            exists|now_unix: u64| #[trigger]
                self.validated_at(
                    claims_result(r),
                    grant_type@,
                    encode_utf8(token_@),
                    *answer,
                    now_unix,
                ),
    {
        let now_unix = unix_seconds();
        let r = self.validate_access_token_at(grant_type, token_, answer, now_unix);
        proof {
            assert(self.validated_at(
                claims_result(r),
                grant_type@,
                encode_utf8(token_@),
                *answer,
                now_unix,
            ));
        }
        r
    }
}

} // verus!
