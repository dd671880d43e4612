//! Operations on text, stated over sequences of characters.

use vstd::prelude::*;

verus! {

/// `String::push` appends one character to the end of the string.
pub assume_specification[ String::push ](s: &mut String, c: char)
    ensures
        final(s)@ == old(s)@.push(c),
;

/// The texts held by a sequence of strings.
pub open spec fn texts(v: Seq<String>) -> Seq<Seq<char>> {
    v.map_values(|s: String| s@)
}

/// The text held by an optional string.
pub open spec fn opt_text(o: Option<String>) -> Option<Seq<char>> {
    match o {
        Some(s) => Some(s@),
        None => None,
    }
}

/// The text behind an optional string slice.
pub open spec fn opt_str(o: Option<&str>) -> Option<Seq<char>> {
    match o {
        Some(s) => Some(s@),
        None => None,
    }
}

/// `s` without the run of `c` that it starts with.
pub open spec fn drop_leading(s: Seq<char>, c: char) -> Seq<char>
    decreases s.len(),
{
    if s.len() > 0 && s[0] == c {
        drop_leading(s.drop_first(), c)
    } else {
        s
    }
}

/// `s` without the run of `c` that it ends with.
pub open spec fn drop_trailing(s: Seq<char>, c: char) -> Seq<char>
    decreases s.len(),
{
    if s.len() > 0 && s.last() == c {
        drop_trailing(s.drop_last(), c)
    } else {
        s
    }
}

/// The pieces of `s` between occurrences of `c`: one more than there are occurrences.
pub open spec fn split(s: Seq<char>, c: char) -> Seq<Seq<char>>
    decreases s.len(),
{
    if s.len() == 0 {
        seq![Seq::<char>::empty()]
    } else {
        let head = split(s.drop_last(), c);
        if s.last() == c {
            head.push(Seq::<char>::empty())
        } else {
            head.drop_last().push(head.last().push(s.last()))
        }
    }
}

/// The pieces with `c` between each two neighbours.
pub open spec fn join(parts: Seq<Seq<char>>, c: char) -> Seq<char>
    decreases parts.len(),
{
    if parts.len() == 0 {
        Seq::<char>::empty()
    } else if parts.len() == 1 {
        parts[0]
    } else {
        join(parts.drop_last(), c).push(c) + parts.last()
    }
}

/// `s` with `with` in place of every `c`.
pub open spec fn replace_char(s: Seq<char>, c: char, with: Seq<char>) -> Seq<char>
    decreases s.len(),
{
    if s.len() == 0 {
        Seq::<char>::empty()
    } else {
        replace_char(s.drop_last(), c, with) + if s.last() == c {
            with
        } else {
            seq![s.last()]
        }
    }
}

/// Whether `pat` stands in `s` at position `i`.
pub open spec fn occurs_at(s: Seq<char>, i: int, pat: Seq<char>) -> bool {
    0 <= i && i + pat.len() <= s.len() && s.subrange(i, i + pat.len()) == pat
}

/// Whether `pat` stands somewhere in `s`.
pub open spec fn occurs(s: Seq<char>, pat: Seq<char>) -> bool {
    exists|i: int| occurs_at(s, i, pat)
}

/// `s` with `with` in place of every occurrence of `pat`, found from left to right
/// without overlap.
pub open spec fn replace_text(s: Seq<char>, pat: Seq<char>, with: Seq<char>) -> Seq<char>
    decreases s.len(),
{
    if pat.len() == 0 || s.len() == 0 {
        s
    } else if occurs_at(s, 0, pat) {
        with + replace_text(s.skip(pat.len() as int), pat, with)
    } else {
        seq![s[0]] + replace_text(s.skip(1), pat, with)
    }
}

/// The characters with the Unicode property `White_Space`.
pub open spec fn is_white_space(c: char) -> bool {
    ||| '\u{9}' <= c <= '\u{d}'
    ||| c == '\u{20}'
    ||| c == '\u{85}'
    ||| c == '\u{a0}'
    ||| c == '\u{1680}'
    ||| '\u{2000}' <= c <= '\u{200a}'
    ||| '\u{2028}' <= c <= '\u{2029}'
    ||| c == '\u{202f}'
    ||| c == '\u{205f}'
    ||| c == '\u{3000}'
}

/// Whether `s` holds white space only.
pub open spec fn is_blank(s: Seq<char>) -> bool {
    forall|i: int| 0 <= i < s.len() ==> is_white_space(#[trigger] s[i])
}

/// The decimal digit for `d`.
pub open spec fn digit(d: nat) -> char {
    (48 + d) as char
}

/// `n` in decimal, without leading zeros.
pub open spec fn decimal(n: nat) -> Seq<char>
    decreases n,
{
    if n < 10 {
        seq![digit(n)]
    } else {
        decimal(n / 10).push(digit(n % 10))
    }
}

/// The number that a run of decimal digits stands for, if `s` is one.
pub open spec fn digits_value(s: Seq<char>) -> Option<nat>
    decreases s.len(),
{
    if s.len() == 0 {
        Some(0)
    } else {
        match digits_value(s.drop_last()) {
            Some(v) if '0' <= s.last() <= '9' => Some((10 * v + (s.last() as int - 48)) as nat),
            _ => None,
        }
    }
}

/// An unsigned decimal number of at most `max`, with an optional plus sign before it.
pub open spec fn unsigned_value(s: Seq<char>, max: nat) -> Option<nat> {
    let body = if s.len() > 0 && s[0] == '+' {
        s.drop_first()
    } else {
        s
    };
    match digits_value(body) {
        Some(v) if body.len() > 0 && v <= max => Some(v),
        _ => None,
    }
}

proof fn lemma_drop_leading(s: Seq<char>, c: char, n: int)
    requires
        0 <= n <= s.len(),
        forall|i: int| 0 <= i < n ==> s[i] == c,
        n < s.len() ==> s[n] != c,
    ensures
        drop_leading(s, c) == s.skip(n),
    decreases n,
{
    if n > 0 {
        lemma_drop_leading(s.drop_first(), c, n - 1);
        assert(s.drop_first().skip(n - 1) =~= s.skip(n));
    } else {
        assert(s.skip(0) =~= s);
    }
}

proof fn lemma_drop_trailing(s: Seq<char>, c: char, n: int)
    requires
        0 <= n <= s.len(),
        forall|i: int| n <= i < s.len() ==> s[i] == c,
        n > 0 ==> s[n - 1] != c,
    ensures
        drop_trailing(s, c) == s.take(n),
    decreases s.len(),
{
    if n < s.len() {
        lemma_drop_trailing(s.drop_last(), c, n);
        assert(s.drop_last().take(n) =~= s.take(n));
    } else {
        assert(s.take(n) =~= s);
    }
}

proof fn lemma_digits_value_grows(s: Seq<char>, n: int)
    requires
        0 <= n <= s.len(),
    ensures
        digits_value(s) matches Some(v) ==> digits_value(s.take(n)) matches Some(w) && w <= v,
    decreases s.len() - n,
{
    if n < s.len() {
        lemma_digits_value_grows(s, n + 1);
        assert(s.take(n + 1).drop_last() =~= s.take(n));
    } else {
        assert(s.take(n) =~= s);
    }
}

/// Splitting takes nothing away: the pieces hold no separator, there is at least one, and
/// joining them gives the text back.
pub proof fn law_split_loses_nothing(s: Seq<char>, c: char)
    ensures
        split(s, c).len() >= 1,
        forall|i: int| 0 <= i < split(s, c).len() ==> !(#[trigger] split(s, c)[i]).contains(c),
        join(split(s, c), c) == s,
    decreases s.len(),
{
    let parts = split(s, c);
    if s.len() > 0 {
        let head = split(s.drop_last(), c);
        law_split_loses_nothing(s.drop_last(), c);
        assert(s.drop_last().push(s.last()) =~= s);
        if s.last() == c {
            assert(parts.drop_last() =~= head);
            assert(join(parts, c) =~= s);
        } else {
            assert(!head[head.len() - 1].contains(c));
            assert(!head.last().push(s.last()).contains(c)) by {
                let piece = head.last().push(s.last());
                if piece.contains(c) {
                    let k = choose|k: int| 0 <= k < piece.len() && piece[k] == c;
                    assert(head.last()[k] == c);
                }
            }
            assert forall|i: int| 0 <= i < parts.len() implies !(#[trigger] parts[i]).contains(
                c,
            ) by {
                if i < parts.len() - 1 {
                    assert(parts[i] == head[i]);
                }
            }
            if head.len() == 1 {
                assert(parts[0] =~= s);
            } else {
                assert(parts.drop_last() =~= head.drop_last());
                assert(join(parts, c) =~= join(head, c).push(s.last()));
            }
        }
    }
}

proof fn lemma_split_extends(s: Seq<char>, t: Seq<char>, c: char)
    requires
        !t.contains(c),
    ensures
        split(s + t, c) == split(s, c).drop_last().push(split(s, c).last() + t),
    decreases t.len(),
{
    law_split_loses_nothing(s, c);
    let parts = split(s, c);
    if t.len() == 0 {
        assert(s + t =~= s);
        assert(parts.last() + t =~= parts.last());
        assert(parts.drop_last().push(parts.last()) =~= parts);
    } else {
        assert forall|i: int| 0 <= i < t.drop_last().len() implies t.drop_last()[i] != c by {
            assert(t[i] == t.drop_last()[i]);
        }
        assert(t[t.len() - 1] != c);
        lemma_split_extends(s, t.drop_last(), c);
        assert((s + t).drop_last() =~= s + t.drop_last());
        let head = split(s + t.drop_last(), c);
        assert(head.drop_last() =~= parts.drop_last());
        assert(head.last().push(t.last()) =~= parts.last() + t);
    }
}

/// Joining pieces that hold no separator is undone by splitting.
pub proof fn law_split_undoes_join(parts: Seq<Seq<char>>, c: char)
    requires
        parts.len() >= 1,
        forall|i: int| 0 <= i < parts.len() ==> !(#[trigger] parts[i]).contains(c),
    ensures
        split(join(parts, c), c) == parts,
    decreases parts.len(),
{
    let empty = Seq::<char>::empty();
    if parts.len() == 1 {
        lemma_split_extends(empty, parts[0], c);
        assert(empty + parts[0] =~= parts[0]);
        assert(split(parts[0], c) =~= parts);
    } else {
        let front = join(parts.drop_last(), c);
        law_split_undoes_join(parts.drop_last(), c);
        assert(front.push(c).drop_last() =~= front);
        lemma_split_extends(front.push(c), parts.last(), c);
        let opened = split(front.push(c), c);
        assert(opened =~= parts.drop_last().push(empty));
        assert(opened.drop_last() =~= parts.drop_last());
        assert(empty + parts.last() =~= parts.last());
        assert(parts.drop_last().push(parts.last()) =~= parts);
    }
}

pub(crate) proof fn lemma_decimal_digits(n: nat)
    ensures
        decimal(n).len() > 0,
        forall|i: int| 0 <= i < decimal(n).len() ==> '0' <= #[trigger] decimal(n)[i] <= '9',
        digits_value(decimal(n)) == Some(n),
    decreases n,
{
    if n < 10 {
        assert(decimal(n).drop_last() =~= Seq::<char>::empty());
        assert(digits_value(Seq::<char>::empty()) == Some(0nat));
    } else {
        lemma_decimal_digits(n / 10);
        assert(decimal(n).drop_last() =~= decimal(n / 10));
    }
}

/// A number written in decimal is read back as itself.
pub proof fn law_decimal_is_read_back(n: nat, max: nat)
    requires
        n <= max,
    ensures
        unsigned_value(decimal(n), max) == Some(n),
{
    lemma_decimal_digits(n);
    assert('0' <= decimal(n)[0]);
}

/// Dropping trailing characters leaves a prefix that does not end in them, and dropping them
/// once more changes nothing.
pub proof fn law_drop_trailing_is_final(s: Seq<char>, c: char)
    ensures
        drop_trailing(s, c).is_prefix_of(s),
        drop_trailing(s, c).len() > 0 ==> drop_trailing(s, c).last() != c,
        drop_trailing(drop_trailing(s, c), c) == drop_trailing(s, c),
    decreases s.len(),
{
    if s.len() > 0 && s.last() == c {
        law_drop_trailing_is_final(s.drop_last(), c);
    }
}

/// Replacing a character by text that does not hold it leaves none of it, and brings in no
/// other character than those of the replacement.
pub proof fn law_replace_char_leaves_none(s: Seq<char>, c: char, with: Seq<char>, d: char)
    requires
        !with.contains(d),
        d == c || !s.contains(d),
    ensures
        !replace_char(s, c, with).contains(d),
    decreases s.len(),
{
    if s.len() > 0 {
        assert forall|i: int| 0 <= i < s.drop_last().len() implies d == c || s.drop_last()[i]
            != d by {
            assert(s[i] == s.drop_last()[i]);
        }
        law_replace_char_leaves_none(s.drop_last(), c, with, d);
        let head = replace_char(s.drop_last(), c, with);
        let tail = if s.last() == c {
            with
        } else {
            seq![s.last()]
        };
        assert(s[s.len() - 1] == s.last());
        assert forall|i: int| 0 <= i < (head + tail).len() implies (head + tail)[i] != d by {
            if i < head.len() {
                assert(head[i] == (head + tail)[i]);
            } else {
                assert(tail[i - head.len()] == (head + tail)[i]);
            }
        }
    }
}

/// Text that does not hold the pattern is left as it is.
pub proof fn law_replace_text_leaves_other_text(s: Seq<char>, pat: Seq<char>, with: Seq<char>)
    requires
        !occurs(s, pat),
    ensures
        replace_text(s, pat, with) == s,
    decreases s.len(),
{
    if pat.len() > 0 && s.len() > 0 {
        assert(!occurs_at(s, 0, pat));
        assert(!occurs(s.skip(1), pat)) by {
            if occurs(s.skip(1), pat) {
                let i = choose|i: int| occurs_at(s.skip(1), i, pat);
                assert(s.subrange(i + 1, i + 1 + pat.len()) =~= s.skip(1).subrange(
                    i,
                    i + pat.len(),
                ));
                assert(occurs_at(s, i + 1, pat));
            }
        }
        law_replace_text_leaves_other_text(s.skip(1), pat, with);
        assert(seq![s[0]] + s.skip(1) =~= s);
    }
}

/// What is dropped in front is a run of the character, and the rest does not start with it.
pub proof fn law_drop_leading_drops_a_run(s: Seq<char>, c: char)
    ensures
        ({
            let rest = drop_leading(s, c);
            let n = s.len() - rest.len();
            &&& n >= 0
            &&& rest == s.skip(n)
            &&& forall|i: int| 0 <= i < n ==> s[i] == c
            &&& rest.len() > 0 ==> rest[0] != c
        }),
    decreases s.len(),
{
    if s.len() > 0 && s[0] == c {
        let tail = s.drop_first();
        law_drop_leading_drops_a_run(tail, c);
        let rest = drop_leading(s, c);
        let n = s.len() - rest.len();
        assert(tail.skip(n - 1) =~= s.skip(n));
        assert forall|i: int| 0 <= i < n implies s[i] == c by {
            if i > 0 {
                assert(tail[i - 1] == c);
            }
        }
    } else {
        assert(s.skip(0) =~= s);
    }
}

/// What is dropped at the end is a run of the character, and the rest does not end in it.
pub proof fn law_drop_trailing_drops_a_run(s: Seq<char>, c: char)
    ensures
        ({
            let rest = drop_trailing(s, c);
            &&& rest.len() <= s.len()
            &&& rest == s.take(rest.len() as int)
            &&& forall|i: int| rest.len() <= i < s.len() ==> s[i] == c
            &&& rest.len() > 0 ==> rest.last() != c
        }),
    decreases s.len(),
{
    if s.len() > 0 && s.last() == c {
        let front = s.drop_last();
        law_drop_trailing_drops_a_run(front, c);
        let rest = drop_trailing(s, c);
        assert(front.take(rest.len() as int) =~= s.take(rest.len() as int));
        assert forall|i: int| rest.len() <= i < s.len() implies s[i] == c by {
            if i < front.len() {
                assert(front[i] == c);
            }
        }
    } else {
        assert(s.take(s.len() as int) =~= s);
    }
}

/// One piece joined is itself, and a further piece is joined behind one separator.
pub proof fn law_join_puts_a_separator_between(parts: Seq<Seq<char>>, last: Seq<char>, c: char)
    ensures
        join(seq![last], c) == last,
        parts.len() > 0 ==> join(parts.push(last), c) == join(parts, c) + seq![c] + last,
{
    assert(parts.push(last).drop_last() =~= parts);
    assert(join(parts, c).push(c) =~= join(parts, c) + seq![c]);
}

/// Replacing a character goes character by character: the character itself becomes the
/// replacement, any other stays, and two texts in a row are replaced one after the other.
pub proof fn law_replace_char_acts_on_each_character(
    a: Seq<char>,
    b: Seq<char>,
    c: char,
    with: Seq<char>,
    d: char,
)
    ensures
        replace_char(Seq::empty(), c, with) == Seq::<char>::empty(),
        replace_char(seq![c], c, with) == with,
        d != c ==> replace_char(seq![d], c, with) == seq![d],
        replace_char(a + b, c, with) == replace_char(a, c, with) + replace_char(b, c, with),
    decreases b.len(),
{
    reveal_with_fuel(replace_char, 2);
    assert(seq![c].drop_last() =~= Seq::empty());
    assert(seq![d].drop_last() =~= Seq::empty());
    assert(Seq::<char>::empty() + with =~= with);
    assert(Seq::<char>::empty() + seq![d] =~= seq![d]);
    if b.len() == 0 {
        assert(a + b =~= a);
        assert(replace_char(a, c, with) + Seq::<char>::empty() =~= replace_char(a, c, with));
    } else {
        law_replace_char_acts_on_each_character(a, b.drop_last(), c, with, d);
        assert((a + b).drop_last() =~= a + b.drop_last());
        let tail = if b.last() == c {
            with
        } else {
            seq![b.last()]
        };
        assert(replace_char(a, c, with) + (replace_char(b.drop_last(), c, with) + tail) =~= (
        replace_char(a, c, with) + replace_char(b.drop_last(), c, with)) + tail);
    }
}

/// A pattern stands in a text if and only if the text is the pattern with something before it
/// and something behind it.
pub proof fn law_occurrence_is_a_part(s: Seq<char>, i: int, pat: Seq<char>)
    ensures
        occurs(s, pat) <==> exists|a: Seq<char>, b: Seq<char>| s == #[trigger] (a + pat + b),
        occurs_at(s, i, pat) <==> 0 <= i && i + pat.len() <= s.len() && forall|k: int|
            0 <= k < pat.len() ==> s[i + k] == #[trigger] pat[k],
{
    if occurs(s, pat) {
        let i = choose|i: int| occurs_at(s, i, pat);
        let a = s.take(i);
        let b = s.skip(i + pat.len());
        assert(s.subrange(i, i + pat.len()) == pat);
        assert(s =~= a + pat + b) by {
            assert forall|k: int| 0 <= k < s.len() implies s[k] == (a + pat + b)[k] by {
                if i <= k < i + pat.len() {
                    assert(s.subrange(i, i + pat.len())[k - i] == s[k]);
                }
            }
        }
    }
    if exists|a: Seq<char>, b: Seq<char>| s == #[trigger] (a + pat + b) {
        let (a, b) = choose|a: Seq<char>, b: Seq<char>| s == #[trigger] (a + pat + b);
        let n = a.len() as int;
        assert(s.subrange(n, n + pat.len()) =~= pat);
        assert(occurs_at(s, n, pat));
    }
    if occurs_at(s, i, pat) {
        assert forall|k: int| 0 <= k < pat.len() implies s[i + k] == #[trigger] pat[k] by {
            assert(s.subrange(i, i + pat.len())[k] == s[i + k]);
        }
    }
    if 0 <= i && i + pat.len() <= s.len() && forall|k: int|
        0 <= k < pat.len() ==> s[i + k] == #[trigger] pat[k] {
        assert(s.subrange(i, i + pat.len()) =~= pat);
    }
}

/// The first occurrence of a pattern is replaced, what stands before it stays, and what stands
/// behind it is replaced in the same way.
pub proof fn law_replace_text_goes_from_left_to_right(
    a: Seq<char>,
    pat: Seq<char>,
    b: Seq<char>,
    with: Seq<char>,
)
    requires
        pat.len() > 0,
        forall|i: int| 0 <= i < a.len() ==> !#[trigger] occurs_at(a + pat + b, i, pat),
    ensures
        replace_text(a + pat + b, pat, with) == a + with + replace_text(b, pat, with),
    decreases a.len(),
{
    let s = a + pat + b;
    if a.len() == 0 {
        assert(s.subrange(0, pat.len() as int) =~= pat);
        assert(s.skip(pat.len() as int) =~= b);
        assert(a + with + replace_text(b, pat, with) =~= with + replace_text(b, pat, with));
    } else {
        let rest = a.skip(1);
        let t = rest + pat + b;
        assert(s.skip(1) =~= t);
        assert(!occurs_at(s, 0, pat));
        assert forall|i: int| 0 <= i < rest.len() implies !#[trigger] occurs_at(t, i, pat) by {
            if occurs_at(t, i, pat) {
                assert(s.subrange(i + 1, i + 1 + pat.len()) =~= t.subrange(i, i + pat.len()));
                assert(occurs_at(s, i + 1, pat));
            }
        }
        law_replace_text_goes_from_left_to_right(rest, pat, b, with);
        assert(seq![s[0]] + (rest + with + replace_text(b, pat, with)) =~= a + with + replace_text(
            b,
            pat,
            with,
        ));
    }
}

/// A text is blank if and only if each of its characters is white space.
pub proof fn law_blank_texts_are_made_of_white_space(a: Seq<char>, b: Seq<char>, c: char)
    ensures
        is_blank(Seq::empty()),
        is_blank(seq![c]) <==> is_white_space(c),
        is_blank(a + b) <==> is_blank(a) && is_blank(b),
{
    assert(seq![c][0] == c);
    if is_blank(a + b) {
        assert forall|i: int| 0 <= i < a.len() implies is_white_space(#[trigger] a[i]) by {
            assert((a + b)[i] == a[i]);
        }
        assert forall|i: int| 0 <= i < b.len() implies is_white_space(#[trigger] b[i]) by {
            assert((a + b)[a.len() + i] == b[i]);
        }
    }
}

/// A number of one digit is written as that digit, and every further digit is written behind
/// the others.
pub proof fn law_decimal_is_positional(n: nat, d: nat)
    requires
        d < 10,
    ensures
        decimal(d) == seq![('0' as int + d) as char],
        n > 0 ==> decimal(10 * n + d) == decimal(n) + seq![('0' as int + d) as char],
{
    if n > 0 {
        assert((10 * n + d) / 10 == n);
        assert((10 * n + d) % 10 == d);
        assert(decimal(n).push(digit(d)) =~= decimal(n) + seq![digit(d)]);
    }
}

/// A number is read digit by digit, up to the largest that is allowed; a plus sign before it
/// changes nothing, and nothing else may stand in it.
pub proof fn law_numbers_are_read_digit_by_digit(s: Seq<char>, c: char, max: nat)
    ensures
        unsigned_value(Seq::empty(), max) is None,
        unsigned_value(seq!['+'], max) is None,
        unsigned_value(seq![c], max) == (if '0' <= c <= '9' && c as int - '0' as int <= max {
            Some((c as int - '0' as int) as nat)
        } else {
            None
        }),
        s.len() > 0 && s[0] != '+' ==> unsigned_value(s + seq![c], max) == (match unsigned_value(
            s,
            max,
        ) {
            Some(v) if '0' <= c <= '9' && 10 * v + (c as int - '0' as int) <= max => Some(
                (10 * v + (c as int - '0' as int)) as nat,
            ),
            _ => None,
        }),
        s.len() > 0 ==> unsigned_value(seq!['+'] + s, max) == (if s[0] == '+' {
            None
        } else {
            unsigned_value(s, max)
        }),
{
    reveal_with_fuel(digits_value, 2);
    assert(seq![c].drop_last() =~= Seq::empty());
    assert(seq!['+'].drop_first() =~= Seq::empty());
    assert((s + seq![c]).drop_last() =~= s);
    assert((seq!['+'] + s).drop_first() =~= s);
    if s.len() > 0 && s[0] == '+' {
        lemma_no_number_starts_with_plus(s);
    }
}

proof fn lemma_no_number_starts_with_plus(s: Seq<char>)
    requires
        s.len() > 0,
        s[0] == '+',
    ensures
        digits_value(s) is None,
    decreases s.len(),
{
    if s.len() > 1 {
        lemma_no_number_starts_with_plus(s.drop_last());
    }
}

/// Optional texts and lists of texts are taken as they are.
pub proof fn law_texts_are_taken_as_they_are(s: String, t: &str, v: Seq<String>)
    ensures
        opt_text(Some(s)) == Some(s@),
        opt_text(None) is None,
        opt_str(Some(t)) == Some(t@),
        opt_str(None) is None,
        texts(v).len() == v.len(),
        forall|i: int| 0 <= i < v.len() ==> #[trigger] texts(v)[i] == v[i]@,
{
}

/// The characters of `s`, in order.
pub(crate) fn to_chars(s: &str) -> (chars: Vec<char>)
    ensures
        chars@ == s@,
{
    let mut chars: Vec<char> = Vec::new();
    for c in it: s.chars()
        invariant
            chars@ == s@.take(it.index() as int),
            it.seq() == s@,
    {
        chars.push(c);
    }
    chars
}

/// The string made of `chars[from..to]`.
fn from_chars(chars: &Vec<char>, from: usize, to: usize) -> (s: String)
    requires
        from <= to <= chars@.len(),
    ensures
        s@ == chars@.subrange(from as int, to as int),
{
    let mut s = String::new();
    for i in from..to
        invariant
            from <= i <= to <= chars@.len(),
            s@ == chars@.subrange(from as int, i as int),
    {
        s.push(chars[i]);
    }
    s
}

/// Whether two texts are equal.
pub fn same_text(a: &str, b: &str) -> (same: bool)
    ensures
        same == (a@ == b@),
{
    let x = to_chars(a);
    let y = to_chars(b);
    assert(x@.subrange(0, x@.len() as int) =~= x@);
    x.len() == y.len() && matches_at(&x, 0, &y)
}

fn matches_at(s: &Vec<char>, i: usize, pat: &Vec<char>) -> (found: bool)
    requires
        i <= s@.len(),
    ensures
        found == occurs_at(s@, i as int, pat@),
{
    if s.len() - i < pat.len() {
        return false;
    }
    for j in 0..pat.len()
        invariant
            i + pat@.len() <= s.len(),
            forall|k: int| 0 <= k < j ==> s@[i + k] == pat@[k],
    {
        if s[i + j] != pat[j] {
            assert(s@.subrange(i as int, i + pat@.len())[j as int] != pat@[j as int]);
            return false;
        }
    }
    assert(s@.subrange(i as int, i + pat@.len()) =~= pat@);
    true
}

/// `s` without its leading occurrences of `c`.
pub fn trim_start(s: &str, c: char) -> (r: String)
    ensures
        r@ == drop_leading(s@, c),
{
    let chars = to_chars(s);
    let mut n: usize = 0;
    while n < chars.len() && chars[n] == c
        invariant
            n <= chars@.len(),
            forall|i: int| 0 <= i < n ==> chars@[i] == c,
        decreases chars@.len() - n,
    {
        n += 1;
    }
    proof {
        lemma_drop_leading(s@, c, n as int);
    }
    from_chars(&chars, n, chars.len())
}

/// `s` without its trailing occurrences of `c`.
pub fn trim_end(s: &str, c: char) -> (r: String)
    ensures
        r@ == drop_trailing(s@, c),
{
    let chars = to_chars(s);
    let mut n: usize = chars.len();
    while n > 0 && chars[n - 1] == c
        invariant
            n <= chars@.len(),
            forall|i: int| n <= i < chars@.len() ==> chars@[i] == c,
        decreases n,
    {
        n -= 1;
    }
    proof {
        lemma_drop_trailing(s@, c, n as int);
    }
    from_chars(&chars, 0, n)
}

/// The pieces of `s` between occurrences of `c`.
pub fn split_on(s: &str, c: char) -> (parts: Vec<String>)
    ensures
        texts(parts@) == split(s@, c),
{
    let mut parts: Vec<String> = Vec::new();
    let mut piece = String::new();
    assert(texts(parts@).push(piece@) =~= split(s@.take(0), c));
    for d in it: s.chars()
        invariant
            it.seq() == s@,
            split(s@.take(it.index() as int), c) == texts(parts@).push(piece@),
    {
        let ghost i = it.index() as int;
        let ghost before = texts(parts@).push(piece@);
        assert(s@.take(i + 1).drop_last() =~= s@.take(i));
        assert(before.drop_last() =~= texts(parts@));
        if d == c {
            parts.push(piece);
            piece = String::new();
            assert(texts(parts@).push(piece@) =~= before.push(Seq::<char>::empty()));
        } else {
            piece.push(d);
        }
    }
    assert(s@.take(s@.len() as int) =~= s@);
    let ghost done = parts@;
    parts.push(piece);
    assert(texts(parts@) =~= texts(done).push(piece@));
    parts
}

/// `s` with `with` in place of every `c`.
pub fn substitute_char(s: &str, c: char, with: &str) -> (r: String)
    ensures
        r@ == replace_char(s@, c, with@),
{
    let mut r = String::new();
    for d in it: s.chars()
        invariant
            it.seq() == s@,
            r@ == replace_char(s@.take(it.index() as int), c, with@),
    {
        let ghost i = it.index() as int;
        let ghost before = r@;
        assert(s@.take(i + 1).drop_last() =~= s@.take(i));
        if d == c {
            r.append(with);
        } else {
            r.push(d);
            assert(r@ =~= before + seq![d]);
        }
    }
    assert(s@.take(s@.len() as int) =~= s@);
    r
}

/// `s` with `with` in place of every occurrence of `pat`.
pub fn substitute(s: &str, pat: &str, with: &str) -> (r: String)
    ensures
        r@ == replace_text(s@, pat@, with@),
{
    let chars = to_chars(s);
    let pattern = to_chars(pat);
    if pattern.len() == 0 {
        return s.to_owned();
    }
    let mut r = String::new();
    let mut i: usize = 0;
    assert(s@.skip(0) =~= s@);
    while i < chars.len()
        invariant
            i <= chars@.len(),
            chars@ == s@,
            pattern@ == pat@,
            pat@.len() > 0,
            replace_text(s@, pat@, with@) == r@ + replace_text(s@.skip(i as int), pat@, with@),
        decreases chars@.len() - i,
    {
        let ghost rest = s@.skip(i as int);
        let ghost before = r@;
        if matches_at(&chars, i, &pattern) {
            assert(rest.subrange(0, pat@.len() as int) =~= s@.subrange(i as int, i + pat@.len()));
            assert(rest.skip(pat@.len() as int) =~= s@.skip(i + pat@.len()));
            r.append(with);
            i += pattern.len();
            assert(before + (with@ + replace_text(s@.skip(i as int), pat@, with@)) =~= r@
                + replace_text(s@.skip(i as int), pat@, with@));
        } else {
            assert(!occurs_at(rest, 0, pat@)) by {
                if occurs_at(rest, 0, pat@) {
                    assert(rest.subrange(0, pat@.len() as int) =~= s@.subrange(
                        i as int,
                        i + pat@.len(),
                    ));
                }
            }
            assert(rest.skip(1) =~= s@.skip(i + 1));
            r.push(chars[i]);
            i += 1;
            assert(before + (seq![rest[0]] + replace_text(s@.skip(i as int), pat@, with@)) =~= r@
                + replace_text(s@.skip(i as int), pat@, with@));
        }
    }
    assert(r@ + replace_text(s@.skip(i as int), pat@, with@) =~= r@);
    r
}

/// Whether `pat` stands somewhere in `s`.
pub fn contains_text(s: &str, pat: &str) -> (found: bool)
    ensures
        found == occurs(s@, pat@),
{
    let chars = to_chars(s);
    let pattern = to_chars(pat);
    let mut i: usize = 0;
    while i < chars.len()
        invariant
            i <= chars@.len(),
            chars@ == s@,
            pattern@ == pat@,
            forall|k: int| 0 <= k < i ==> !occurs_at(s@, k, pat@),
        decreases chars@.len() - i,
    {
        if matches_at(&chars, i, &pattern) {
            return true;
        }
        i += 1;
    }
    matches_at(&chars, i, &pattern)
}

fn char_is_white_space(c: char) -> (white: bool)
    ensures
        white == is_white_space(c),
{
    ('\u{9}' <= c && c <= '\u{d}') || c == '\u{20}' || c == '\u{85}' || c == '\u{a0}' || c
        == '\u{1680}' || ('\u{2000}' <= c && c <= '\u{200a}') || ('\u{2028}' <= c && c
        <= '\u{2029}') || c == '\u{202f}' || c == '\u{205f}' || c == '\u{3000}'
}

/// Whether `s` holds white space only.
pub fn blank(s: &str) -> (b: bool)
    ensures
        b == is_blank(s@),
{
    for c in it: s.chars()
        invariant
            it.seq() == s@,
            forall|i: int| 0 <= i < it.index() ==> is_white_space(#[trigger] s@[i]),
    {
        if !char_is_white_space(c) {
            assert(!is_white_space(s@[it.index() as int]));
            return false;
        }
    }
    true
}

fn push_decimal(out: &mut String, n: u64)
    ensures
        final(out)@ == old(out)@ + decimal(n as nat),
    decreases n,
{
    if n >= 10 {
        push_decimal(out, n / 10);
    }
    let ghost before = out@;
    out.push((48 + (n % 10) as u8) as char);
    assert(before.push(digit((n % 10) as nat)) =~= before + seq![digit((n % 10) as nat)]);
    assert(out@ =~= old(out)@ + decimal(n as nat));
}

/// `n` in decimal.
pub fn to_decimal(n: u64) -> (s: String)
    ensures
        s@ == decimal(n as nat),
{
    let mut s = String::new();
    push_decimal(&mut s, n);
    s
}

/// The unsigned decimal number of at most `max` that `s` holds, if it holds one.
pub fn parse_unsigned(s: &str, max: u64) -> (r: Option<u64>)
    ensures
        r matches Some(v) ==> unsigned_value(s@, max as nat) == Some(v as nat),
        r is None ==> unsigned_value(s@, max as nat) is None,
{
    let chars = to_chars(s);
    let start: usize = if chars.len() > 0 && chars[0] == '+' {
        1
    } else {
        0
    };
    let ghost body = s@.skip(start as int);
    assert(start == 0 ==> body =~= s@);
    assert(start == 1 ==> body =~= s@.drop_first());
    if start == chars.len() {
        return None;
    }
    let mut v: u64 = 0;
    let mut i: usize = start;
    assert(body.take(0) =~= Seq::<char>::empty());
    while i < chars.len()
        invariant
            start <= i <= chars@.len(),
            chars@ == s@,
            body == s@.skip(start as int),
            unsigned_value(s@, max as nat) == (match digits_value(body) {
                Some(w) if w <= max => Some(w),
                _ => None,
            }),
            v <= max,
            digits_value(body.take(i - start)) == Some(v as nat),
        decreases chars@.len() - i,
    {
        let c = chars[i];
        assert(body.take(i - start + 1).drop_last() =~= body.take(i - start));
        assert(body.take(i - start + 1).last() == c);
        proof {
            lemma_digits_value_grows(body, i - start + 1);
        }
        if c < '0' || '9' < c {
            return None;
        }
        let next: u128 = 10 * (v as u128) + (c as u128 - 48);
        if next > max as u128 {
            return None;
        }
        v = next as u64;
        i += 1;
    }
    assert(body.take(i - start) =~= body);
    Some(v)
}

} // verus!
