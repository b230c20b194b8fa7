//! Text handling shared by the modules: splitting and joining at a
//! separator, prefixes, and decimal numbers.

use vstd::prelude::*;
use vstd::std_specs::iter::IteratorSpec;

verus! {

/// `String::push` of the standard library appends one character to the end
/// of the string and changes nothing else.
pub assume_specification[ String::push ](s: &mut String, c: char)
    ensures
        final(s)@ == old(s)@.push(c),
;

/// The pieces of `s` between occurrences of `sep`. There is always at least
/// one piece; `n` separators give `n + 1` pieces, some of them possibly empty.
pub open spec fn split(s: Seq<char>, sep: char) -> Seq<Seq<char>>
    decreases s.len(),
{
    if s.len() == 0 {
        seq![Seq::<char>::empty()]
    } else {
        let before = split(s.drop_last(), sep);
        if s.last() == sep {
            before.push(Seq::<char>::empty())
        } else {
            before.drop_last().push(before.last().push(s.last()))
        }
    }
}

/// The pieces put together again with `sep` between neighbours.
pub open spec fn join(parts: Seq<Seq<char>>, sep: char) -> Seq<char>
    decreases parts.len(),
{
    if parts.len() == 0 {
        Seq::<char>::empty()
    } else if parts.len() == 1 {
        parts[0]
    } else {
        join(parts.drop_last(), sep).push(sep) + parts.last()
    }
}

/// How often `sep` occurs in `s`.
pub open spec fn count(s: Seq<char>, sep: char) -> nat
    decreases s.len(),
{
    if s.len() == 0 {
        0
    } else {
        count(s.drop_last(), sep) + if s.last() == sep {
            1nat
        } else {
            0nat
        }
    }
}

/// Splitting yields one piece more than there are separators, and no piece
/// holds a separator.
pub proof fn lemma_split_shape(s: Seq<char>, sep: char)
    ensures
        split(s, sep).len() == count(s, sep) + 1,
        forall|k: int, i: int|
            0 <= k < split(s, sep).len() && 0 <= i < split(s, sep)[k].len() ==> split(
                s,
                sep,
            )[k][i] != sep,
    decreases s.len(),
{
    if s.len() > 0 {
        lemma_split_shape(s.drop_last(), sep);
    }
}

/// Splits `s` at every `sep`.
pub fn split_at_char(s: &str, sep: char) -> (parts: Vec<String>)
    ensures
        parts.deep_view() == split(s@, sep),
{
    let mut parts: Vec<String> = Vec::new();
    let mut current: String = String::new();
    let ghost mut done: Seq<char> = Seq::empty();
    for c in it: s.chars()
        invariant
            it.seq() == s@,
            done == s@.take(it.index() as int),
            parts.deep_view().push(current@) == split(done, sep),
    {
        proof {
            let next = s@.take(it.index() + 1);
            assert(next.drop_last() == done);
            assert(next.last() == c);
            done = next;
        }
        if c == sep {
            parts.push(current);
            current = String::new();
        } else {
            current.push(c);
        }
    }
    proof {
        assert(s@.take(s@.len() as int) =~= s@);
    }
    let ghost before = parts.deep_view();
    parts.push(current);
    assert(parts.deep_view() =~= before.push(current@));
    parts
}

/// Joins `parts` with `sep` between neighbours.
pub fn join_with(parts: &Vec<String>, sep: char) -> (joined: String)
    ensures
        joined@ == join(parts.deep_view(), sep),
{
    let mut joined: String = String::new();
    let mut k: usize = 0;
    while k < parts.len()
        invariant
            k <= parts.len(),
            joined@ == join(parts.deep_view().take(k as int), sep),
        decreases parts.len() - k,
    {
        proof {
            let upto = parts.deep_view().take(k + 1);
            assert(upto.drop_last() =~= parts.deep_view().take(k as int));
            assert(upto.last() == parts[k as int]@);
        }
        if k > 0 {
            joined.push(sep);
        }
        joined.append(parts[k].as_str());
        k += 1;
    }
    proof {
        assert(parts.deep_view().take(parts.len() as int) =~= parts.deep_view());
    }
    joined
}

/// The first character of `s`, if it has one.
pub fn first_char(s: &str) -> (c: Option<char>)
    ensures
        c == if s@.len() > 0 {
            Some(s@[0])
        } else {
            None
        },
{
    let mut it = s.chars();
    it.next()
}

/// Whether `s` begins with `prefix`.
pub fn starts_with(s: &str, prefix: &str) -> (yes: bool)
    ensures
        yes == prefix@.is_prefix_of(s@),
{
    let mut rest = s.chars();
    for c in it: prefix.chars()
        invariant
            it.seq() == prefix@,
            rest.remaining() == s@.skip(it.index() as int),
            it.index() <= s@.len(),
            s@.take(it.index() as int) == prefix@.take(it.index() as int),
    {
        let ghost i = it.index() as int;
        match rest.next() {
            Some(d) => {
                if d != c {
                    assert(s@[i] != prefix@[i]);
                    return false;
                }
                assert(s@.skip(i).drop_first() =~= s@.skip(i + 1));
                assert(s@.take(i + 1) =~= s@.take(i).push(d));
                assert(prefix@.take(i + 1) =~= prefix@.take(i).push(c));
            },
            None => {
                return false;
            },
        }
    }
    proof {
        assert(prefix@.take(prefix@.len() as int) =~= prefix@);
        assert(s@.take(prefix@.len() as int) =~= s@.subrange(0, prefix@.len() as int));
    }
    true
}

/// A decimal digit.
pub open spec fn is_digit(c: char) -> bool {
    '0' <= c <= '9'
}

/// Every character is a decimal digit.
pub open spec fn all_digits(d: Seq<char>) -> bool {
    forall|i: int| 0 <= i < d.len() ==> is_digit(#[trigger] d[i])
}

/// The number that the digits `d` write in base ten; 0 for no digits.
pub open spec fn digits_value(d: Seq<char>) -> int
    decreases d.len(),
{
    if d.len() == 0 {
        0
    } else {
        digits_value(d.drop_last()) * 10 + (d.last() as int - '0' as int)
    }
}

/// `s` without one leading `+`.
pub open spec fn unsigned_part(s: Seq<char>) -> Seq<char> {
    if s.len() > 0 && s[0] == '+' {
        s.skip(1)
    } else {
        s
    }
}

/// The number that `s` writes: an optional `+`, then one or more decimal
/// digits and nothing else, with a value that fits in 32 bits.
pub open spec fn decimal_u32(s: Seq<char>) -> Option<u32> {
    let d = unsigned_part(s);
    if d.len() > 0 && all_digits(d) && digits_value(d) <= u32::MAX {
        Some(digits_value(d) as u32)
    } else {
        None
    }
}

/// More digits never write a smaller number.
pub proof fn lemma_digits_value_grows(d: Seq<char>, k: int)
    requires
        all_digits(d),
        0 <= k <= d.len(),
    ensures
        0 <= digits_value(d.take(k)) <= digits_value(d),
    decreases d.len() - k,
{
    if k == d.len() {
        assert(d.take(k) =~= d);
        lemma_digits_value_nonnegative(d);
    } else {
        lemma_digits_value_grows(d, k + 1);
        assert(d.take(k + 1).drop_last() =~= d.take(k));
        assert(is_digit(d[k]));
        lemma_digits_value_nonnegative(d.take(k));
    }
}

proof fn lemma_digits_value_nonnegative(d: Seq<char>)
    requires
        all_digits(d),
    ensures
        0 <= digits_value(d),
    decreases d.len(),
{
    if d.len() > 0 {
        assert(is_digit(d.last()));
        lemma_digits_value_nonnegative(d.drop_last());
    }
}

/// Reads a decimal number as [`decimal_u32`] describes it.
pub fn parse_u32(s: &str) -> (n: Option<u32>)
    ensures
        n == decimal_u32(s@),
{
    let mut value: u32 = 0;
    let mut at_start: bool = true;
    let mut seen: bool = false;
    let ghost mut start: int = 0;
    for c in it: s.chars()
        invariant
            it.seq() == s@,
            at_start == (it.index() == 0),
            start == if it.index() > 0 && s@[0] == '+' {
                1int
            } else {
                0int
            },
            start <= it.index() || it.index() == 0,
            seen == (it.index() > start),
            all_digits(s@.subrange(start, it.index() as int)),
            value == digits_value(s@.subrange(start, it.index() as int)),
    {
        let ghost i = it.index() as int;
        let ghost d = unsigned_part(s@);
        if at_start && c == '+' {
            proof {
                start = 1;
                assert(s@.subrange(1, 1) =~= Seq::<char>::empty());
            }
        } else {
            proof {
                assert(d =~= s@.skip(start));
                assert(d[i - start] == c);
                assert(s@.subrange(start, i + 1).drop_last() =~= s@.subrange(start, i));
                assert(s@.subrange(start, i + 1) =~= d.take(i + 1 - start));
            }
            if c < '0' || c > '9' {
                return None;
            }
            let digit: u32 = c as u32 - '0' as u32;
            if value > (u32::MAX - digit) / 10 {
                proof {
                    if all_digits(d) {
                        lemma_digits_value_grows(d, i + 1 - start);
                    }
                }
                return None;
            }
            value = value * 10 + digit;
            seen = true;
        }
        at_start = false;
    }
    proof {
        let d = unsigned_part(s@);
        if s@.len() > 0 {
            assert(d =~= s@.subrange(start, s@.len() as int));
        }
    }
    if seen {
        Some(value)
    } else {
        None
    }
}

} // verus!
