//! Variable-length integers: seven bits a byte, low bits first, the high bit
//! set on every byte but the last.

use vstd::prelude::*;

verus! {

/// The bytes that stand for `v`.
pub open spec fn leb128_bytes(v: nat) -> Seq<u8>
    decreases v,
{
    if v < 128 {
        seq![v as u8]
    } else {
        seq![(v % 128 + 128) as u8] + leb128_bytes(v / 128)
    }
}

/// What a reader that takes at most `budget` bytes finds at the head of `s`:
/// the value, and how many bytes stood for it. `None` where `s` ends, or the
/// budget is used up, before a byte without the high bit.
pub open spec fn leb128_read(s: Seq<u8>, budget: nat) -> Option<(nat, nat)>
    decreases budget,
{
    if budget == 0 || s.len() == 0 {
        None
    } else if s[0] < 128 {
        Some((s[0] as nat, 1nat))
    } else {
        match leb128_read(s.skip(1), (budget - 1) as nat) {
            Some((v, n)) => Some(((s[0] - 128) as nat + 128 * v, n + 1)),
            None => None,
        }
    }
}

/// The number that the low seven bits of each byte of `s` spell, low group first.
pub open spec fn group_value(s: Seq<u8>) -> nat
    decreases s.len(),
{
    if s.len() == 0 {
        0
    } else {
        (s[0] % 128) as nat + 128 * group_value(s.skip(1))
    }
}

/// `v` is written in at most `budget` bytes.
pub open spec fn fits_in(v: nat, budget: nat) -> bool
    decreases budget,
{
    budget > 0 && (v < 128 || fits_in(v / 128, (budget - 1) as nat))
}

/// The longest encoding of a `u32`, in bytes.
pub const U32_MAX_BYTES: usize = 5;

/// The longest encoding of a `u64`, in bytes.
pub const U64_MAX_BYTES: usize = 10;

/// What `read_u32` returns on `s`: the value cut to 32 bits, and the bytes taken.
pub open spec fn read_u32_spec(s: Seq<u8>) -> Option<(u32, nat)> {
    match leb128_read(s, 5) {
        Some((v, n)) => Some(((v % 0x1_0000_0000) as u32, n)),
        None => None,
    }
}

/// What `read_u64` returns on `s`: the value cut to 64 bits, and the bytes taken.
pub open spec fn read_u64_spec(s: Seq<u8>) -> Option<(u64, nat)> {
    match leb128_read(s, 10) {
        Some((v, n)) => Some(((v % 0x1_0000_0000_0000_0000) as u64, n)),
        None => None,
    }
}

/// A value that fits in the budget has an encoding no longer than the budget.
pub proof fn lemma_bytes_len(v: nat, budget: nat)
    requires
        fits_in(v, budget),
    ensures
        1 <= leb128_bytes(v).len() <= budget,
    decreases budget,
{
    if v >= 128 {
        lemma_bytes_len(v / 128, (budget - 1) as nat);
    }
}

/// Reading what was written gives the value back, whatever follows it.
pub proof fn lemma_read_written(v: nat, rest: Seq<u8>, budget: nat)
    requires
        fits_in(v, budget),
    ensures
        leb128_read(leb128_bytes(v) + rest, budget) == Some((v, leb128_bytes(v).len())),
    decreases budget,
{
    let all = leb128_bytes(v) + rest;
    if v < 128 {
        assert(all[0] == v as u8);
    } else {
        let tail = leb128_bytes(v / 128);
        lemma_read_written(v / 128, rest, (budget - 1) as nat);
        assert(all[0] == (v % 128 + 128) as u8);
        assert(all.skip(1) =~= tail + rest);
        assert(leb128_bytes(v).len() == tail.len() + 1);
        assert((all[0] - 128) as nat + 128 * (v / 128) == v);
    }
}

/// Every `u32` fits in five bytes.
pub proof fn lemma_u32_fits(v: u32)
    ensures
        fits_in(v as nat, 5),
{
    reveal_with_fuel(fits_in, 6);
    let a = v as nat;
    assert(a / 128 / 128 / 128 / 128 < 128);
}

/// Every `u64` fits in ten bytes.
pub proof fn lemma_u64_fits(v: u64)
    ensures
        fits_in(v as nat, 10),
{
    reveal_with_fuel(fits_in, 11);
    let a = v as nat;
    assert(a / 128 / 128 / 128 / 128 / 128 / 128 / 128 / 128 / 128 < 128);
}

/// A written `u32` is read back as itself.
pub proof fn lemma_u32_round_trip(v: u32, rest: Seq<u8>)
    ensures
        read_u32_spec(leb128_bytes(v as nat) + rest) == Some((v, leb128_bytes(v as nat).len())),
        leb128_bytes(v as nat).len() <= 5,
{
    lemma_u32_fits(v);
    lemma_read_written(v as nat, rest, 5);
    lemma_bytes_len(v as nat, 5);
}

/// A written `u64` is read back as itself.
pub proof fn lemma_u64_round_trip(v: u64, rest: Seq<u8>)
    ensures
        read_u64_spec(leb128_bytes(v as nat) + rest) == Some((v, leb128_bytes(v as nat).len())),
        leb128_bytes(v as nat).len() <= 10,
{
    lemma_u64_fits(v);
    lemma_read_written(v as nat, rest, 10);
    lemma_bytes_len(v as nat, 10);
}

/// Where the first `k` bytes carry the high bit and the next one does not,
/// the reader takes `k + 1` bytes and returns what their groups spell.
proof fn lemma_read_terminated(s: Seq<u8>, k: nat, budget: nat)
    requires
        k < budget,
        k < s.len(),
        s[k as int] < 128,
        forall|i: int| 0 <= i < k ==> #[trigger] s[i] >= 128,
    ensures
        leb128_read(s, budget) == Some((group_value(s.take(k as int + 1)), k + 1)),
    decreases k,
{
    let head = s.take(k as int + 1);
    assert(head[0] == s[0]);
    if k == 0 {
        assert(head.skip(1).len() == 0);
        assert(group_value(head.skip(1)) == 0);
    } else {
        let rest = s.skip(1);
        assert(rest[k - 1] == s[k as int]);
        assert forall|i: int| 0 <= i < k - 1 implies #[trigger] rest[i] >= 128 by {
            assert(rest[i] == s[i + 1]);
        }
        lemma_read_terminated(rest, (k - 1) as nat, (budget - 1) as nat);
        assert(rest.take(k as int) =~= head.skip(1));
    }
}

/// Where every byte within the budget carries the high bit, nothing is read.
proof fn lemma_read_unterminated(s: Seq<u8>, budget: nat)
    requires
        forall|i: int| 0 <= i < s.len() && i < budget ==> #[trigger] s[i] >= 128,
    ensures
        leb128_read(s, budget) is None,
    decreases budget,
{
    if budget > 0 && s.len() > 0 {
        let rest = s.skip(1);
        assert forall|i: int| 0 <= i < rest.len() && i < budget - 1 implies #[trigger] rest[i]
            >= 128 by {
            assert(rest[i] == s[i + 1]);
        }
        lemma_read_unterminated(rest, (budget - 1) as nat);
    }
}

/// Cutting to `m` before or after taking in one more group is the same.
proof fn lemma_group_step(d: int, x: int, m: int)
    requires
        m > 0,
    ensures
        (d + 128 * (x % m)) % m == (d + 128 * x) % m,
{
    vstd::arithmetic::div_mod::lemma_mul_mod_noop_right(128, x, m);
    vstd::arithmetic::div_mod::lemma_add_mod_noop_right(d, 128 * (x % m), m);
    vstd::arithmetic::div_mod::lemma_add_mod_noop_right(d, 128 * x, m);
}

/// Appends the encoding of `value` to `out`.
pub fn push_u64(out: &mut Vec<u8>, value: u64)
    ensures
        final(out)@ == old(out)@ + leb128_bytes(value as nat),
{
    let ghost before = out@;
    let mut v: u64 = value;
    while v >= 128
        invariant
            out@ + leb128_bytes(v as nat) == before + leb128_bytes(value as nat),
        decreases v,
    {
        let ghost prev = out@;
        out.push((v % 128 + 128) as u8);
        proof {
            assert(out@ + leb128_bytes((v / 128) as nat) =~= prev + leb128_bytes(v as nat));
        }
        v = v / 128;
    }
    let ghost prev = out@;
    out.push(v as u8);
    proof {
        assert(out@ =~= prev + leb128_bytes(v as nat));
    }
}

/// Appends the encoding of `value` to `out`.
pub fn push_u32(out: &mut Vec<u8>, value: u32)
    ensures
        final(out)@ == old(out)@ + leb128_bytes(value as nat),
{
    push_u64(out, value as u64)
}

/// Where the encoding that starts at `start` ends: the index of the first
/// byte without the high bit, among `budget` bytes at most.
fn find_last(bytes: &[u8], start: usize, budget: usize) -> (r: Option<usize>)
    requires
        start <= bytes.len(),
        budget <= 10,
    ensures
        match r {
            Some(end) => start <= end < bytes.len() && end - start < budget && bytes[end as int]
                < 128 && forall|i: int| start <= i < end ==> #[trigger] bytes[i] >= 128,
            None => forall|i: int|
                start <= i < bytes.len() && i - start < budget ==> #[trigger] bytes[i] >= 128,
        },
{
    let mut i: usize = start;
    let mut taken: usize = 0;
    while taken < budget && i < bytes.len()
        invariant
            start <= i <= bytes.len(),
            i - start == taken,
            taken <= budget <= 10,
            forall|j: int| start <= j < i ==> #[trigger] bytes[j] >= 128,
        decreases budget - taken,
    {
        if bytes[i] < 128 {
            return Some(i);
        }
        i = i + 1;
        taken = taken + 1;
    }
    None
}

/// Reads a `u32` from `bytes` at `start`: the value, and the index after it.
/// Bits beyond the thirty-second are dropped.
pub fn read_u32(bytes: &[u8], start: usize) -> (r: Option<(u32, usize)>)
    requires
        start <= bytes.len(),
    ensures
        match read_u32_spec(bytes@.skip(start as int)) {
            Some((v, n)) => r == Some((v, (start + n) as usize)) && start + n <= bytes.len(),
            None => r is None,
        },
{
    let ghost s = bytes@.skip(start as int);
    match find_last(bytes, start, U32_MAX_BYTES) {
        None => {
            proof {
                assert forall|i: int| 0 <= i < s.len() && i < 5 implies #[trigger] s[i] >= 128 by {
                    assert(s[i] == bytes[start + i]);
                }
                lemma_read_unterminated(s, 5);
            }
            None
        },
        Some(end) => {
            let ghost k: int = end - start;
            proof {
                assert forall|i: int| 0 <= i < k implies #[trigger] s[i] >= 128 by {
                    assert(s[i] == bytes[start + i]);
                }
                assert(s[k] == bytes[end as int]);
                lemma_read_terminated(s, k as nat, 5);
            }
            let ghost head = s.take(k + 1);
            let mut acc: u64 = 0;
            let mut i: usize = end + 1;
            proof {
                assert(head.skip(k + 1).len() == 0);
            }
            while i > start
                invariant
                    start <= i <= end + 1,
                    end < bytes.len(),
                    k == end - start,
                    s == bytes@.skip(start as int),
                    head == s.take(k + 1),
                    acc < 0x1_0000_0000,
                    acc == group_value(head.skip(i - start)) % 0x1_0000_0000,
                decreases i,
            {
                i = i - 1;
                let d: u64 = (bytes[i] % 128) as u64;
                proof {
                    let cur = head.skip(i - start);
                    assert(cur[0] == bytes[i as int]);
                    assert(cur.skip(1) =~= head.skip(i - start + 1));
                    lemma_group_step(d as int, group_value(cur.skip(1)) as int, 0x1_0000_0000);
                }
                acc = (d + 128 * acc) % 0x1_0000_0000;
            }
            proof {
                assert(head.skip(0) =~= head);
            }
            Some((acc as u32, end + 1))
        },
    }
}

/// Reads a `u64` from `bytes` at `start`: the value, and the index after it.
/// Bits beyond the sixty-fourth are dropped.
pub fn read_u64(bytes: &[u8], start: usize) -> (r: Option<(u64, usize)>)
    requires
        start <= bytes.len(),
    ensures
        match read_u64_spec(bytes@.skip(start as int)) {
            Some((v, n)) => r == Some((v, (start + n) as usize)) && start + n <= bytes.len(),
            None => r is None,
        },
{
    let ghost s = bytes@.skip(start as int);
    match find_last(bytes, start, U64_MAX_BYTES) {
        None => {
            proof {
                assert forall|i: int| 0 <= i < s.len() && i < 10 implies #[trigger] s[i]
                    >= 128 by {
                    assert(s[i] == bytes[start + i]);
                }
                lemma_read_unterminated(s, 10);
            }
            None
        },
        Some(end) => {
            let ghost k: int = end - start;
            proof {
                assert forall|i: int| 0 <= i < k implies #[trigger] s[i] >= 128 by {
                    assert(s[i] == bytes[start + i]);
                }
                assert(s[k] == bytes[end as int]);
                lemma_read_terminated(s, k as nat, 10);
            }
            let ghost head = s.take(k + 1);
            let mut acc: u128 = 0;
            let mut i: usize = end + 1;
            proof {
                assert(head.skip(k + 1).len() == 0);
            }
            while i > start
                invariant
                    start <= i <= end + 1,
                    end < bytes.len(),
                    k == end - start,
                    s == bytes@.skip(start as int),
                    head == s.take(k + 1),
                    acc < 0x1_0000_0000_0000_0000,
                    acc == group_value(head.skip(i - start)) % 0x1_0000_0000_0000_0000,
                decreases i,
            {
                i = i - 1;
                let d: u128 = (bytes[i] % 128) as u128;
                proof {
                    let cur = head.skip(i - start);
                    assert(cur[0] == bytes[i as int]);
                    assert(cur.skip(1) =~= head.skip(i - start + 1));
                    lemma_group_step(d as int, group_value(cur.skip(1)) as int, 0x1_0000_0000_0000_0000);
                }
                acc = (d + 128 * acc) % 0x1_0000_0000_0000_0000;
            }
            proof {
                assert(head.skip(0) =~= head);
            }
            Some((acc as u64, end + 1))
        },
    }
}

} // verus!
