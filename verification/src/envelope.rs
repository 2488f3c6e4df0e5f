//! The byte layout of a bearer token and the strings that bind it: the sealed
//! part, then account id and expiry as variable-length integers, then the
//! client id; the cipher context and the nonce input derived from the grant
//! type, the client, the account and its password hash.

use crate::cipher::blake3_digest;
use crate::cipher::blake3_hash;
use crate::cipher::NONCE_LEN;
use crate::leb128::leb128_bytes;
use crate::leb128::lemma_u32_round_trip;
use crate::leb128::lemma_u64_round_trip;
use crate::leb128::push_u32;
use crate::leb128::push_u64;
use crate::leb128::read_u32;
use crate::leb128::read_u32_spec;
use crate::leb128::read_u64;
use crate::leb128::read_u64_spec;
use vstd::prelude::*;
use vstd::string::StringExecFns;

verus! {

/// Seconds from the Unix epoch to 2000-01-01T00:00:00Z, where token time starts.
pub const EPOCH_OFFSET: u64 = 946_684_800;

/// Bytes of a token that are sealed: the encrypted random code and its tag.
pub const SEALED_LEN: usize = 32;

/// Token time at the Unix time `now_unix`; 0 before 2000.
pub open spec fn token_time(now_unix: u64) -> u64 {
    if now_unix >= EPOCH_OFFSET {
        (now_unix - EPOCH_OFFSET) as u64
    } else {
        0
    }
}

/// The expiry of a token issued at `now_unix` for `expiry_in` seconds,
/// saturating at the largest value.
pub open spec fn expiry_at(now_unix: u64, expiry_in: u64) -> u64 {
    if token_time(now_unix) + expiry_in > u64::MAX {
        u64::MAX
    } else {
        (token_time(now_unix) + expiry_in) as u64
    }
}

/// The decimal digits of `n`, in ASCII.
pub open spec fn decimal_bytes(n: nat) -> Seq<u8>
    decreases n,
{
    if n < 10 {
        seq![(48 + n) as u8]
    } else {
        decimal_bytes(n / 10) + seq![(48 + n % 10) as u8]
    }
}

/// The low `width` bytes of `v`, most significant first.
pub open spec fn be_bytes(v: nat, width: nat) -> Seq<u8>
    decreases width,
{
    if width == 0 {
        Seq::empty()
    } else {
        be_bytes(v / 256, (width - 1) as nat) + seq![(v % 256) as u8]
    }
}

/// The word between grant type and password hash in a nonce input: " nonce ".
pub open spec fn nonce_word() -> Seq<u8> {
    seq![32u8, 110u8, 111u8, 110u8, 99u8, 101u8, 32u8]
}

/// The decimal digit `d`.
pub open spec fn digit_char(d: nat) -> char {
    if d == 0 {
        '0'
    } else if d == 1 {
        '1'
    } else if d == 2 {
        '2'
    } else if d == 3 {
        '3'
    } else if d == 4 {
        '4'
    } else if d == 5 {
        '5'
    } else if d == 6 {
        '6'
    } else if d == 7 {
        '7'
    } else if d == 8 {
        '8'
    } else {
        '9'
    }
}

/// The decimal digits of `n`, as text.
pub open spec fn decimal_text(n: nat) -> Seq<char>
    decreases n,
{
    if n < 10 {
        seq![digit_char(n)]
    } else {
        decimal_text(n / 10) + seq![digit_char(n % 10)]
    }
}

/// The cipher context of a token: grant type, client id, account id in
/// decimal and password hash, with one space between them.
pub open spec fn token_context(
    grant: Seq<char>,
    client: Seq<char>,
    account_id: u32,
    hash: Seq<char>,
) -> Seq<char> {
    grant + seq![' '] + client + seq![' '] + decimal_text(account_id as nat) + seq![' '] + hash
}

/// What is hashed for a token's nonce: grant type, " nonce ", password hash,
/// then the expiry as eight bytes, most significant first.
pub open spec fn nonce_input(grant: Seq<u8>, hash: Seq<u8>, expiry: u64) -> Seq<u8> {
    grant + nonce_word() + hash + be_bytes(expiry as nat, 8)
}

/// A token's nonce: the first `NONCE_LEN` bytes of the hash of its nonce input.
pub open spec fn token_nonce(grant: Seq<u8>, hash: Seq<u8>, expiry: u64) -> Seq<u8> {
    blake3_digest(nonce_input(grant, hash, expiry)).take(NONCE_LEN as int)
}

/// The bytes of a token: the sealed part, account id, expiry, client id.
pub open spec fn token_frame(sealed: Seq<u8>, account_id: u32, expiry: u64, client: Seq<u8>) -> Seq<
    u8,
> {
    sealed + leb128_bytes(account_id as nat) + leb128_bytes(expiry as nat) + client
}

/// What the bytes after the sealed part of a token say.
pub struct Claims {
    pub account_id: u32,
    pub expiry: u64,
    pub client: Seq<u8>,
}

/// The claims that `bytes` carry after the first `SEALED_LEN` bytes, or
/// nothing where two variable-length integers do not follow them.
pub open spec fn frame_claims(bytes: Seq<u8>) -> Option<Claims> {
    if bytes.len() < SEALED_LEN {
        None
    } else {
        match read_u32_spec(bytes.skip(SEALED_LEN as int)) {
            None => None,
            Some((account_id, n1)) => match read_u64_spec(bytes.skip(SEALED_LEN + n1)) {
                None => None,
                Some((expiry, n2)) => Some(
                    Claims { account_id, expiry, client: bytes.skip(SEALED_LEN + n1 + n2) },
                ),
            },
        }
    }
}

/// The claims of a framed token are those it was framed with.
pub proof fn lemma_frame_round_trip(sealed: Seq<u8>, account_id: u32, expiry: u64, client: Seq<u8>)
    requires
        sealed.len() == SEALED_LEN,
    ensures
        frame_claims(token_frame(sealed, account_id, expiry, client)) == Some(
            Claims { account_id, expiry, client },
        ),
        token_frame(sealed, account_id, expiry, client).take(SEALED_LEN as int) == sealed,
{
    let a = leb128_bytes(account_id as nat);
    let e = leb128_bytes(expiry as nat);
    let all = token_frame(sealed, account_id, expiry, client);
    assert(all.skip(SEALED_LEN as int) =~= a + (e + client));
    lemma_u32_round_trip(account_id, e + client);
    assert(all.skip(SEALED_LEN + a.len()) =~= e + client);
    lemma_u64_round_trip(expiry, client);
    assert(all.skip(SEALED_LEN + a.len() + e.len()) =~= client);
    assert(all.take(SEALED_LEN as int) =~= sealed);
}

/// Tokens issued later do not expire earlier.
pub proof fn lemma_expiry_monotonic(t1: u64, t2: u64, expiry_in: u64)
    requires
        t1 <= t2,
    ensures
        expiry_at(t1, expiry_in) <= expiry_at(t2, expiry_in),
{
}

/// Two contexts that differ in the grant type alone are different.
pub proof fn lemma_context_binds_grant(
    grant_a: Seq<char>,
    grant_b: Seq<char>,
    client: Seq<char>,
    account_id: u32,
    hash: Seq<char>,
)
    requires
        grant_a != grant_b,
    ensures
        token_context(grant_a, client, account_id, hash) != token_context(
            grant_b,
            client,
            account_id,
            hash,
        ),
{
    let tail = seq![' '] + client + seq![' '] + decimal_text(account_id as nat) + seq![' '] + hash;
    let ca = token_context(grant_a, client, account_id, hash);
    let cb = token_context(grant_b, client, account_id, hash);
    assert(ca =~= grant_a + tail);
    assert(cb =~= grant_b + tail);
    if ca == cb {
        assert(grant_a.len() == grant_b.len());
        assert forall|i: int| 0 <= i < grant_a.len() implies grant_a[i] == grant_b[i] by {
            assert(ca[i] == grant_a[i]);
            assert(cb[i] == grant_b[i]);
        }
        assert(grant_a =~= grant_b);
    }
}

/// Two contexts that differ in the password hash alone are different.
pub proof fn lemma_context_binds_hash(
    grant: Seq<char>,
    client: Seq<char>,
    account_id: u32,
    hash_a: Seq<char>,
    hash_b: Seq<char>,
)
    requires
        hash_a != hash_b,
    ensures
        token_context(grant, client, account_id, hash_a) != token_context(
            grant,
            client,
            account_id,
            hash_b,
        ),
{
    let head = grant + seq![' '] + client + seq![' '] + decimal_text(account_id as nat) + seq![' '];
    let ca = token_context(grant, client, account_id, hash_a);
    let cb = token_context(grant, client, account_id, hash_b);
    assert(ca =~= head + hash_a);
    assert(cb =~= head + hash_b);
    if ca == cb {
        assert(hash_a.len() == hash_b.len());
        assert forall|i: int| 0 <= i < hash_a.len() implies hash_a[i] == hash_b[i] by {
            assert(ca[head.len() + i] == hash_a[i]);
            assert(cb[head.len() + i] == hash_b[i]);
        }
        assert(hash_a =~= hash_b);
    }
}

/// Token time at the Unix time `now_unix`.
pub fn token_time_of(now_unix: u64) -> (t: u64)
    ensures
        t == token_time(now_unix),
{
    now_unix.saturating_sub(EPOCH_OFFSET)
}

/// The expiry of a token issued at `now_unix` for `expiry_in` seconds.
pub fn expiry_of(now_unix: u64, expiry_in: u64) -> (e: u64)
    ensures
        e == expiry_at(now_unix, expiry_in),
{
    now_unix.saturating_sub(EPOCH_OFFSET).saturating_add(expiry_in)
}

/// Appends the decimal digits of `n` to `out`.
pub fn push_decimal(out: &mut Vec<u8>, n: u32)
    ensures
        final(out)@ == old(out)@ + decimal_bytes(n as nat),
    decreases n,
{
    let ghost before = out@;
    if n >= 10 {
        push_decimal(out, n / 10);
    }
    let ghost mid = out@;
    out.push(48 + (n % 10) as u8);
    proof {
        if n >= 10 {
            assert(out@ =~= before + (decimal_bytes((n / 10) as nat) + seq![
                (48 + n % 10) as u8,
            ]));
        } else {
            assert(out@ =~= before + seq![(48 + n) as u8]);
        }
    }
}

/// Appends the low `width` bytes of `v` to `out`, most significant first.
pub fn push_be(out: &mut Vec<u8>, v: u64, width: usize)
    ensures
        final(out)@ == old(out)@ + be_bytes(v as nat, width as nat),
    decreases width,
{
    let ghost before = out@;
    if width > 0 {
        push_be(out, v / 256, width - 1);
        out.push((v % 256) as u8);
        proof {
            assert(out@ =~= before + (be_bytes((v / 256) as nat, (width - 1) as nat) + seq![
                (v % 256) as u8,
            ]));
        }
    } else {
        proof {
            assert(out@ =~= before + be_bytes(v as nat, 0));
        }
    }
}

/// The decimal digit `d`, as text.
pub fn digit_text(d: u32) -> (text: &'static str)
    requires
        d < 10,
    ensures
        text@ == seq![digit_char(d as nat)],
{
    proof {
        reveal_strlit("0");
        reveal_strlit("1");
        reveal_strlit("2");
        reveal_strlit("3");
        reveal_strlit("4");
        reveal_strlit("5");
        reveal_strlit("6");
        reveal_strlit("7");
        reveal_strlit("8");
        reveal_strlit("9");
    }
    let text = if d == 0 {
        "0"
    } else if d == 1 {
        "1"
    } else if d == 2 {
        "2"
    } else if d == 3 {
        "3"
    } else if d == 4 {
        "4"
    } else if d == 5 {
        "5"
    } else if d == 6 {
        "6"
    } else if d == 7 {
        "7"
    } else if d == 8 {
        "8"
    } else {
        "9"
    };
    proof {
        assert(text@ =~= seq![digit_char(d as nat)]);
    }
    text
}

/// Appends the decimal digits of `n` to `out`.
pub fn push_decimal_text(out: &mut String, n: u32)
    ensures
        final(out)@ == old(out)@ + decimal_text(n as nat),
    decreases n,
{
    let ghost before = out@;
    if n >= 10 {
        push_decimal_text(out, n / 10);
    }
    out.append(digit_text(n % 10));
    proof {
        if n >= 10 {
            assert(out@ =~= before + (decimal_text((n / 10) as nat) + seq![
                digit_char((n % 10) as nat),
            ]));
        } else {
            assert(out@ =~= before + seq![digit_char(n as nat)]);
        }
    }
}

/// The cipher context of a token.
pub fn build_context(grant: &str, client: &str, account_id: u32, hash: &str) -> (context: String)
    ensures
        context@ == token_context(grant@, client@, account_id, hash@),
{
    proof {
        reveal_strlit(" ");
        assert(" "@ =~= seq![' ']);
    }
    let mut context = String::new();
    context.append(grant);
    context.append(" ");
    context.append(client);
    context.append(" ");
    push_decimal_text(&mut context, account_id);
    context.append(" ");
    context.append(hash);
    proof {
        assert(context@ =~= token_context(grant@, client@, account_id, hash@));
    }
    context
}

/// The nonce of a token: `NONCE_LEN` bytes.
pub fn build_nonce(grant: &[u8], hash: &[u8], expiry: u64) -> (nonce: Vec<u8>)
    ensures
        nonce@ == token_nonce(grant@, hash@, expiry),
        nonce@.len() == NONCE_LEN,
{
    let mut input: Vec<u8> = Vec::new();
    input.extend_from_slice(grant);
    input.push(32);
    input.push(110);
    input.push(111);
    input.push(110);
    input.push(99);
    input.push(101);
    input.push(32);
    input.extend_from_slice(hash);
    push_be(&mut input, expiry, 8);
    proof {
        assert(input@ =~= nonce_input(grant@, hash@, expiry));
    }
    let mut digest = blake3_hash(input.as_slice());
    digest.truncate(NONCE_LEN);
    proof {
        assert(digest@ =~= token_nonce(grant@, hash@, expiry));
    }
    digest
}

/// Frames a token: appends account id, expiry and client id to the sealed part.
pub fn frame_token(sealed: Vec<u8>, account_id: u32, expiry: u64, client: &[u8]) -> (token: Vec<
    u8,
>)
    ensures
        token@ == token_frame(sealed@, account_id, expiry, client@),
{
    let mut token = sealed;
    push_u32(&mut token, account_id);
    push_u64(&mut token, expiry);
    token.extend_from_slice(client);
    token
}

/// Reads the claims of a token: account id, expiry, and the index at which
/// the client id starts.
pub fn read_claims(bytes: &[u8]) -> (claims: Option<(u32, u64, usize)>)
    ensures
        match claims {
            Some((account_id, expiry, at)) => at <= bytes@.len() && frame_claims(bytes@) == Some(
                Claims { account_id, expiry, client: bytes@.skip(at as int) },
            ),
            None => frame_claims(bytes@) is None,
        },
{
    if bytes.len() < SEALED_LEN {
        return None;
    }
    match read_u32(bytes, SEALED_LEN) {
        None => None,
        Some((account_id, next)) => match read_u64(bytes, next) {
            None => None,
            Some((expiry, at)) => Some((account_id, expiry, at)),
        },
    }
}

} // verus!
