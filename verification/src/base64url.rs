//! The base64url form of bytes, without padding.

use crate::text;
use vstd::prelude::*;

verus! {

/// The six bits that a character stands for.
pub open spec fn sextet(c: char) -> Option<nat> {
    if 'A' <= c <= 'Z' {
        Some((c as int - 65) as nat)
    } else if 'a' <= c <= 'z' {
        Some((c as int - 71) as nat)
    } else if '0' <= c <= '9' {
        Some((c as int + 4) as nat)
    } else if c == '-' {
        Some(62)
    } else if c == '_' {
        Some(63)
    } else {
        None
    }
}

/// Whether `s` is the form of some bytes: every character stands for six bits, the bits make up
/// whole bytes, and those left over at the end are zero.
pub open spec fn is_encoding(s: Seq<char>) -> bool {
    &&& forall|i: int| 0 <= i < s.len() ==> sextet(#[trigger] s[i]) is Some
    &&& s.len() % 4 != 1
    &&& s.len() % 4 == 2 ==> sextet(s.last())->0 % 16 == 0
    &&& s.len() % 4 == 3 ==> sextet(s.last())->0 % 4 == 0
}

/// The byte at `i`: four characters make up three bytes.
pub open spec fn byte_at(s: Seq<char>, i: int) -> nat {
    let j = i / 3 * 4;
    if i % 3 == 0 {
        sextet(s[j])->0 * 4 + sextet(s[j + 1])->0 / 16
    } else if i % 3 == 1 {
        sextet(s[j + 1])->0 % 16 * 16 + sextet(s[j + 2])->0 / 4
    } else {
        sextet(s[j + 2])->0 % 4 * 64 + sextet(s[j + 3])->0
    }
}

/// The bytes that `s` is the form of, if it is one.
pub open spec fn decoded(s: Seq<char>) -> Option<Seq<u8>> {
    if is_encoding(s) {
        Some(Seq::new(s.len() * 3 / 4, |i: int| byte_at(s, i) as u8))
    } else {
        None
    }
}

fn sextet_of(c: char) -> (r: Option<u8>)
    ensures
        match r {
            Some(v) => v < 64 && sextet(c) == Some(v as nat),
            None => sextet(c) is None,
        },
{
    if 'A' <= c && c <= 'Z' {
        Some((c as u32 - 65) as u8)
    } else if 'a' <= c && c <= 'z' {
        Some((c as u32 - 71) as u8)
    } else if '0' <= c && c <= '9' {
        Some((c as u32 + 4) as u8)
    } else if c == '-' {
        Some(62)
    } else if c == '_' {
        Some(63)
    } else {
        None
    }
}

/// The bytes that `s` is the form of.
pub fn decode(s: &str) -> (r: Option<Vec<u8>>)
    ensures
        match r {
            Some(bytes) => decoded(s@) == Some(bytes@),
            None => decoded(s@) is None,
        },
{
    let chars = text::to_chars(s);
    let n: usize = chars.len();
    let mut v: Vec<u8> = Vec::new();
    for i in 0..n
        invariant
            n == chars@.len(),
            chars@ == s@,
            v@.len() == i,
            forall|k: int|
                0 <= k < i ==> (#[trigger] v@[k]) < 64 && sextet(s@[k]) == Some(v@[k] as nat),
    {
        match sextet_of(chars[i]) {
            Some(d) => {
                v.push(d);
            },
            None => {
                assert(sextet(s@[i as int]) is None);
                return None;
            },
        }
    }
    assert forall|k: int| 0 <= k < n implies sextet(#[trigger] s@[k]) == Some(v@[k] as nat) by {
        assert(v@[k] < 64);
    }
    if n % 4 == 1 {
        return None;
    }
    if n % 4 == 2 && v[n - 1] % 16 != 0 {
        return None;
    }
    if n % 4 == 3 && v[n - 1] % 4 != 0 {
        return None;
    }
    let len: usize = n / 4 * 3 + n % 4 * 3 / 4;
    let mut bytes: Vec<u8> = Vec::new();
    for i in 0..len
        invariant
            n == s@.len(),
            n == v.len(),
            len == n / 4 * 3 + n % 4 * 3 / 4,
            forall|k: int|
                0 <= k < n ==> (#[trigger] v@[k]) < 64 && sextet(s@[k]) == Some(v@[k] as nat),
            bytes@.len() == i,
            forall|k: int| 0 <= k < i ==> #[trigger] bytes@[k] == byte_at(s@, k) as u8,
    {
        let j: usize = i / 3 * 4;
        let byte: u8 = if i % 3 == 0 {
            v[j] * 4 + v[j + 1] / 16
        } else if i % 3 == 1 {
            v[j + 1] % 16 * 16 + v[j + 2] / 4
        } else {
            v[j + 2] % 4 * 64 + v[j + 3]
        };
        assert(byte == byte_at(s@, i as int));
        bytes.push(byte);
    }
    assert(len == s@.len() * 3 / 4);
    assert(bytes@ =~= decoded(s@)->0);
    Some(bytes)
}

/// Bytes keep their bits: four characters hold the same bits as their three bytes, in the same
/// order, and fewer at the end hold those of one or two bytes and zeros.
pub proof fn law_decoding_keeps_the_bits(s: Seq<char>)
    requires
        is_encoding(s),
    ensures
        ({
            let b = decoded(s)->0;
            let v = |i: int| sextet(s[i])->0;
            &&& decoded(s) is Some
            &&& s.len() == 0 ==> b.len() == 0
            &&& s.len() == 2 ==> b.len() == 1 && v(0) * 64 + v(1) == b[0] * 16
            &&& s.len() == 3 ==> b.len() == 2 && v(0) * 4096 + v(1) * 64 + v(2) == b[0] * 1024
                + b[1] * 4
            &&& s.len() == 4 ==> b.len() == 3 && v(0) * 262144 + v(1) * 4096 + v(2) * 64 + v(3)
                == b[0] * 65536 + b[1] * 256 + b[2]
        }),
{
    let b = decoded(s)->0;
    assert forall|i: int| 0 <= i < s.len() implies sextet(#[trigger] s[i])->0 < 64 by {
        assert(sextet(s[i]) is Some);
    }
    if s.len() == 2 {
        assert(s.last() == s[1]);
        assert(sextet(s[0])->0 < 64 && sextet(s[1])->0 < 64);
        assert(b[0] == byte_at(s, 0) as u8);
    } else if s.len() == 3 {
        assert(s.last() == s[2]);
        assert(sextet(s[0])->0 < 64 && sextet(s[1])->0 < 64 && sextet(s[2])->0 < 64);
        assert(b[0] == byte_at(s, 0) as u8);
        assert(b[1] == byte_at(s, 1) as u8);
    } else if s.len() == 4 {
        assert(sextet(s[0])->0 < 64 && sextet(s[1])->0 < 64 && sextet(s[2])->0 < 64 && sextet(
            s[3],
        )->0 < 64);
        assert(b[0] == byte_at(s, 0) as u8);
        assert(b[1] == byte_at(s, 1) as u8);
        assert(b[2] == byte_at(s, 2) as u8);
    }
}

/// A text is decoded in groups of four characters.
pub proof fn law_decoding_goes_group_by_group(group: Seq<char>, rest: Seq<char>)
    requires
        group.len() == 4,
    ensures
        decoded(group + rest) == (match (decoded(group), decoded(rest)) {
            (Some(a), Some(b)) => Some(a + b),
            _ => None,
        }),
{
    let s = group + rest;
    assert(is_encoding(s) <==> is_encoding(group) && is_encoding(rest)) by {
        if is_encoding(s) {
            assert forall|i: int| 0 <= i < 4 implies sextet(#[trigger] group[i]) is Some by {
                assert(s[i] == group[i]);
            }
            assert forall|i: int| 0 <= i < rest.len() implies sextet(
                #[trigger] rest[i],
            ) is Some by {
                assert(s[i + 4] == rest[i]);
            }
        }
        if rest.len() > 0 {
            assert(s.last() == rest.last());
        }
    }
    if is_encoding(s) {
        let a = decoded(group)->0;
        let b = decoded(rest)->0;
        assert(decoded(s)->0.len() == a.len() + b.len());
        assert forall|i: int| 0 <= i < decoded(s)->0.len() implies decoded(s)->0[i] == (a
            + b)[i] by {
            if i >= 3 {
                let k = i - 3;
                assert(i / 3 == k / 3 + 1);
                assert(i % 3 == k % 3);
                assert(0 <= k < rest.len() * 3 / 4);
                let j = k / 3 * 4;
                assert(s[j + 4] == rest[j]);
                if k % 3 == 0 {
                    assert(s[j + 5] == rest[j + 1]);
                } else if k % 3 == 1 {
                    assert(s[j + 5] == rest[j + 1]);
                    assert(s[j + 6] == rest[j + 2]);
                } else {
                    assert(s[j + 6] == rest[j + 2]);
                    assert(s[j + 7] == rest[j + 3]);
                }
                assert(byte_at(s, i) == byte_at(rest, k));
            } else {
                assert(byte_at(s, i) == byte_at(group, i));
            }
        }
        assert(decoded(s)->0 =~= a + b);
    }
}

/// The 64 characters are the letters, the digits, the hyphen and the underscore. Within a range
/// they stand for numbers in a row, and no two stand for the same.
pub proof fn law_characters_stand_for_six_bits(c: char, d: char)
    ensures
        sextet(c) is Some <==> 'A' <= c <= 'Z' || 'a' <= c <= 'z' || '0' <= c <= '9' || c == '-'
            || c == '_',
        sextet(c) matches Some(v) ==> v < 64,
        sextet(c) is Some && sextet(c) == sextet(d) ==> c == d,
        sextet('A') == Some(0nat),
        sextet('a') == Some(26nat),
        sextet('0') == Some(52nat),
        sextet('-') == Some(62nat),
        sextet('_') == Some(63nat),
        d as int == c as int + 1 && ('A' <= c < 'Z' || 'a' <= c < 'z' || '0' <= c < '9')
            ==> sextet(d)->0 == sextet(c)->0 + 1,
{
}

} // verus!
