//! Which shard serves a client.

use crate::text;
use vstd::prelude::*;

verus! {

/// The djb2 hash of a sequence of bytes, modulo 2^32.
pub open spec fn djb2(bytes: Seq<u8>) -> nat
    decreases bytes.len(),
{
    if bytes.len() == 0 {
        5381
    } else {
        (djb2(bytes.drop_last()) * 33 + bytes.last() as nat) % 0x1_0000_0000
    }
}

/// The configured number of shards, or 250 where there is no such number.
pub open spec fn shard_count(var: Option<Seq<char>>) -> nat {
    match var {
        Some(v) => match text::unsigned_value(v, u32::MAX as nat) {
            Some(n) => n,
            None => 250,
        },
        None => 250,
    }
}

/// The shard that is asked at an attempt: shards are tried one after the other from `start`.
pub open spec fn shard_at(start: nat, attempt: nat, max_shards: nat) -> nat {
    (start + attempt) % max_shards
}

/// Whether a shard is asked in one round of attempts.
pub open spec fn is_asked(start: nat, max_shards: nat, shard: nat) -> bool {
    exists|attempt: nat|
        attempt < max_shards && #[trigger] shard_at(start, attempt, max_shards) == shard
}

/// The djb2 hash of the UTF-8 form of `s`.
pub fn djb2_hash(s: &str) -> (h: u32)
    ensures
        h == djb2(vstd::utf8::encode_utf8(s@)),
{
    let bytes = s.as_bytes();
    let mut h: u32 = 5381;
    for i in 0..bytes.len()
        invariant
            bytes@ == vstd::utf8::encode_utf8(s@),
            h == djb2(bytes@.take(i as int)),
    {
        assert(bytes@.take(i + 1).drop_last() =~= bytes@.take(i as int));
        h = h.wrapping_mul(33).wrapping_add(bytes[i] as u32);
    }
    assert(bytes@.take(bytes@.len() as int) =~= bytes@);
    h
}

/// The number of shards that the configuration asks for.
pub fn get_max_shards(var: Option<&str>) -> (n: u32)
    ensures
        n == shard_count(text::opt_str(var)),
{
    match var {
        Some(v) => match text::parse_unsigned(v, u32::MAX as u64) {
            Some(n) => n as u32,
            None => 250,
        },
        None => 250,
    }
}

/// The shard that is asked at an attempt.
pub fn shard_for_attempt(start: u32, attempt: u32, max_shards: u32) -> (shard: u32)
    requires
        max_shards > 0,
    ensures
        shard == shard_at(start as nat, attempt as nat, max_shards as nat),
        shard < max_shards,
{
    ((start as u64 + attempt as u64) % (max_shards as u64)) as u32
}

/// The attempts of one round ask every shard, and none of them twice.
pub proof fn law_overflow_asks_every_shard_once(start: nat, max_shards: nat)
    requires
        max_shards > 0,
    ensures
        forall|shard: nat| shard < max_shards ==> #[trigger] is_asked(start, max_shards, shard),
        forall|a: nat, b: nat|
            a < max_shards && b < max_shards && #[trigger] shard_at(start, a, max_shards)
                == #[trigger] shard_at(start, b, max_shards) ==> a == b,
        forall|a: nat| #[trigger] shard_at(start, a, max_shards) < max_shards,
{
    let m = max_shards as int;
    let s = start as int % m;
    vstd::arithmetic::div_mod::lemma_mod_bound(start as int, m);
    assert forall|a: nat| #[trigger] shard_at(start, a, max_shards) < max_shards by {
        vstd::arithmetic::div_mod::lemma_mod_bound((start + a) as int, m);
    }
    assert forall|a: nat| a < max_shards implies #[trigger] shard_at(start, a, max_shards) == (if s
        + a < m {
        s + a
    } else {
        s + a - m
    }) by {
        vstd::arithmetic::div_mod::lemma_add_mod_noop(start as int, a as int, m);
        vstd::arithmetic::div_mod::lemma_small_mod(a, max_shards);
        if s + a < m {
            vstd::arithmetic::div_mod::lemma_small_mod((s + a) as nat, max_shards);
        } else {
            vstd::arithmetic::div_mod::lemma_mod_sub_multiples_vanish(s + a, m);
            vstd::arithmetic::div_mod::lemma_small_mod((s + a - m) as nat, max_shards);
        }
    }
    assert forall|shard: nat| shard < max_shards implies #[trigger] is_asked(
        start,
        max_shards,
        shard,
    ) by {
        let a: nat = if shard >= s {
            (shard - s) as nat
        } else {
            (shard - s + m) as nat
        };
        assert(shard_at(start, a, max_shards) == shard);
    }
}

/// The hash starts at 5381, and each byte is added to 33 times what the bytes before it gave,
/// modulo 2^32. So it is the value of a polynomial in 33.
pub proof fn law_hash_is_a_polynomial(bytes: Seq<u8>, b: u8)
    ensures
        djb2(Seq::empty()) == 5381,
        djb2(bytes + seq![b]) == (33 * djb2(bytes) + b) % 0x1_0000_0000,
        djb2(bytes) < 0x1_0000_0000,
        djb2(bytes) == weighted(bytes) % 0x1_0000_0000,
    decreases bytes.len(),
{
    assert((bytes + seq![b]).drop_last() =~= bytes);
    if bytes.len() > 0 {
        law_hash_is_a_polynomial(bytes.drop_last(), b);
        let m = 0x1_0000_0000int;
        let w = weighted(bytes.drop_last()) as int;
        vstd::arithmetic::div_mod::lemma_mul_mod_noop_left(w, 33, m);
        vstd::arithmetic::div_mod::lemma_add_mod_noop(
            (w % m) * 33,
            bytes.last() as int,
            m,
        );
        vstd::arithmetic::div_mod::lemma_add_mod_noop(w * 33, bytes.last() as int, m);
    }
}

/// The bytes as the digits of a number to the base 33, behind a first digit of 5381.
pub open spec fn weighted(bytes: Seq<u8>) -> nat
    decreases bytes.len(),
{
    if bytes.len() == 0 {
        5381
    } else {
        weighted(bytes.drop_last()) * 33 + bytes.last() as nat
    }
}

/// The number of shards is the one that is configured, if that is a number that fits, and 250
/// otherwise.
pub proof fn law_configured_shards_count(n: nat, var: Seq<char>)
    ensures
        shard_count(None) == 250,
        n <= u32::MAX ==> shard_count(Some(text::decimal(n))) == n,
        text::unsigned_value(var, u32::MAX as nat) matches Some(v) ==> shard_count(Some(var)) == v,
        text::unsigned_value(var, u32::MAX as nat) is None ==> shard_count(Some(var)) == 250,
{
    if n <= u32::MAX {
        text::law_decimal_is_read_back(n, u32::MAX as nat);
    }
}

/// The first attempt goes to the shard that the hash points to, and every further one to the
/// shard behind the last, with the first behind the last of all.
pub proof fn law_attempts_go_round(start: nat, attempt: nat, max_shards: nat)
    requires
        max_shards > 0,
    ensures
        start < max_shards ==> shard_at(start, 0, max_shards) == start,
        shard_at(start, attempt, max_shards) < max_shards,
        shard_at(start, attempt + 1, max_shards) == (if shard_at(start, attempt, max_shards) + 1
            < max_shards {
            (shard_at(start, attempt, max_shards) + 1) as nat
        } else {
            0
        }),
{
    let m = max_shards as int;
    let x = (start + attempt) as int;
    vstd::arithmetic::div_mod::lemma_mod_bound(x, m);
    if start < max_shards {
        vstd::arithmetic::div_mod::lemma_small_mod(start, max_shards);
    }
    vstd::arithmetic::div_mod::lemma_add_mod_noop(x, 1, m);
    if x % m + 1 < m {
        vstd::arithmetic::div_mod::lemma_small_mod((x % m + 1) as nat, max_shards);
        if m > 1 {
            vstd::arithmetic::div_mod::lemma_small_mod(1, max_shards);
        }
    } else {
        if m > 1 {
            vstd::arithmetic::div_mod::lemma_small_mod(1, max_shards);
            vstd::arithmetic::div_mod::lemma_mod_self_0(m);
        } else {
            assert((x + 1) % 1 == 0);
        }
    }
}

} // verus!
