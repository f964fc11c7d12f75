//! A deterministic, platform- and run-independent hash of test identifiers,
//! used by hash-based partitioning so that the same case always lands in the
//! same shard across independent invocations.
//!
//! The hash is 64-bit FNV-1a, folded over the characters of the binary
//! identifier, a separator, and the test name.

use vstd::prelude::*;

verus! {

pub const FNV_OFFSET_BASIS: u64 = 0xcbf29ce484222325;

pub const FNV_PRIME: u64 = 0x100000001b3;

/// One FNV-1a round: xor the character in, then multiply by the FNV prime
/// modulo 2^64.
pub open spec fn fnv_step(h: u64, c: char) -> u64 {
    ((((h ^ ((c as u32) as u64)) as int) * (FNV_PRIME as int)) % 0x10000000000000000) as u64
}

/// FNV-1a folded over a whole character sequence, left to right.
pub open spec fn spec_fnv(h: u64, s: Seq<char>) -> u64
    decreases s.len(),
{
    if s.len() == 0 {
        h
    } else {
        spec_fnv(fnv_step(h, s[0]), s.skip(1))
    }
}

/// The stable hash of an identifier (binary_id, test name): a pure function
/// of the characters alone, so repeated invocations agree.
pub open spec fn spec_stable_hash(bin: Seq<char>, name: Seq<char>) -> u64 {
    spec_fnv(fnv_step(spec_fnv(FNV_OFFSET_BASIS, bin), '\n'), name)
}

/// One executable FNV-1a round.
fn fnv_step_exec(h: u64, c: char) -> (r: u64)
    ensures
        r == fnv_step(h, c),
{
    let x: u64 = h ^ ((c as u32) as u64);
    proof {
        assert((x as int) * (FNV_PRIME as int) <= (u64::MAX as int) * (FNV_PRIME as int))
            by (nonlinear_arith)
            requires
                x <= u64::MAX,
        ;
    }
    let wide: u128 = (x as u128) * (FNV_PRIME as u128);
    let m: u128 = wide % 0x10000000000000000u128;
    m as u64
}

/// Fold FNV-1a over the characters of `s`, starting from `h`.
fn fnv_fold(h: u64, s: &str) -> (r: u64)
    ensures
        r == spec_fnv(h, s@),
{
    let n = s.unicode_len();
    let mut acc: u64 = h;
    let mut i: usize = 0;
    proof {
        assert(s@.skip(0) =~= s@);
    }
    while i < n
        invariant
            n == s@.len(),
            i <= n,
            spec_fnv(h, s@) == spec_fnv(acc, s@.skip(i as int)),
        decreases n - i,
    {
        proof {
            assert(s@.skip(i as int)[0] == s@[i as int]);
            assert(s@.skip(i as int).skip(1) =~= s@.skip(i + 1));
        }
        acc = fnv_step_exec(acc, s.get_char(i));
        i = i + 1;
    }
    acc
}

/// The stable hash of the identifier (binary_id, test name).
pub fn stable_hash(binary_id: &str, name: &str) -> (h: u64)
    ensures
        h == spec_stable_hash(binary_id@, name@),
{
    let h1 = fnv_fold(FNV_OFFSET_BASIS, binary_id);
    let h2 = fnv_step_exec(h1, '\n');
    fnv_fold(h2, name)
}

} // verus!
