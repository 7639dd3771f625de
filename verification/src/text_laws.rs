//! Laws of text: what searching, trimming, case and numbers come to, said of the characters.

use vstd::prelude::*;

use crate::text::{
    all_digits, ascii_digit, blank, dark, decimal, decimal_value, ends_with, lemma_first_where,
    lemma_last_where, lower, lower_char, spec_parse_u16, starts_with, trimmed, unsigned_digits,
    white_space,
};

verus! {

// ---- Beginnings and ends ----

/// A text begins with whatever it is put together from first.
pub proof fn law_begins_with_its_front(front: Seq<char>, rest: Seq<char>)
    ensures
        starts_with(front + rest, front),
{
    assert((front + rest).take(front.len() as int) =~= front);
}

/// A text that begins with another is that and a rest.
pub proof fn law_front_can_be_taken_off(s: Seq<char>, front: Seq<char>)
    requires
        starts_with(s, front),
    ensures
        s == front + s.skip(front.len() as int),
{
    assert(s =~= s.take(front.len() as int) + s.skip(front.len() as int));
}

/// A text ends with whatever it is put together from last, and only with that.
pub proof fn law_ends_with_its_back(s: Seq<char>, rest: Seq<char>, back: Seq<char>)
    ensures
        ends_with(rest + back, back),
        ends_with(s, back) ==> s == s.take(s.len() - back.len()) + back,
{
    assert((rest + back).skip(rest.len() as int) =~= back);
    if ends_with(s, back) {
        assert(s =~= s.take(s.len() - back.len()) + s.skip(s.len() - back.len()));
    }
}

// ---- Case ----

/// Lower case changes no character but the capital letters of ASCII, each into the letter 32
/// places on.
pub proof fn law_lower_case(s: Seq<char>, i: int)
    requires
        0 <= i < s.len(),
    ensures
        lower(s).len() == s.len(),
        65 <= s[i] as u32 <= 90 ==> lower(s)[i] as u32 == s[i] as u32 + 32,
        !(65 <= s[i] as u32 <= 90) ==> lower(s)[i] == s[i],
{
    assert(lower(s)[i] == lower_char(s[i]));
}

/// Text in lower case stays as it is, and the two cases of a text have the same lower case.
pub proof fn law_lower_case_is_the_end(s: Seq<char>, t: Seq<char>)
    ensures
        lower(lower(s)) == lower(s),
        lower(s + t) == lower(s) + lower(t),
{
    assert(lower(lower(s)) =~= lower(s));
    assert(lower(s + t) =~= lower(s) + lower(t));
}

// ---- White space ----

/// Trimming takes white space from the ends of a text, all of it, and nothing else: what is left
/// of white space, a core and white space is the core, where that begins and ends with something
/// else.
pub proof fn law_trimmed_is_the_core(front: Seq<char>, core: Seq<char>, back: Seq<char>)
    requires
        forall|i: int| 0 <= i < front.len() ==> white_space(#[trigger] front[i]),
        forall|i: int| 0 <= i < back.len() ==> white_space(#[trigger] back[i]),
        core.len() > 0 ==> !white_space(core[0]) && !white_space(core.last()),
    ensures
        trimmed(front + core + back) == core,
{
    let s = front + core + back;
    if core.len() > 0 {
        let from = front.len() as int;
        let last = front.len() + core.len() - 1;
        assert forall|i: int| 0 <= i < from implies !dark()(#[trigger] s[i]) by {
            assert(s[i] == front[i]);
        }
        assert(s[from] == core[0]);
        lemma_first_where(s, dark(), 0, from);
        assert forall|i: int| last < i < s.len() implies !dark()(#[trigger] s[i]) by {
            assert(s[i] == back[i - front.len() - core.len()]);
        }
        assert(s[last] == core.last());
        lemma_last_where(s, dark(), s.len() as int, last);
        assert(s.subrange(from, last + 1) =~= core);
    } else {
        assert forall|i: int| 0 <= i < s.len() implies !dark()(#[trigger] s[i]) by {
            if i < front.len() {
                assert(s[i] == front[i]);
            } else {
                assert(s[i] == back[i - front.len()]);
            }
        }
        lemma_first_where(s, dark(), 0, s.len() as int);
        lemma_last_where(s, dark(), s.len() as int, -1);
        assert(trimmed(s) =~= core);
    }
}

/// Text is blank just where every character of it is white space.
pub proof fn law_blank_text(s: Seq<char>, c: char)
    ensures
        blank(Seq::<char>::empty()),
        blank(s.push(c)) == (blank(s) && white_space(c)),
{
    if blank(s.push(c)) {
        assert forall|i: int| 0 <= i < s.len() implies white_space(#[trigger] s[i]) by {
            assert(s.push(c)[i] == s[i]);
        }
        assert(s.push(c)[s.len() as int] == c);
    }
}

/// White space is what Unicode gives that property.
pub proof fn law_white_space(c: char)
    ensures
        white_space(c) == ({
            let n = c as u32;
            9 <= n <= 13 || n == 32 || n == 0x85 || n == 0xa0 || n == 0x1680 || 0x2000 <= n
                <= 0x200a || n == 0x2028 || n == 0x2029 || n == 0x202f || n == 0x205f || n == 0x3000
        }),
{
}

// ---- Numbers ----

/// Nothing, and a sign alone, is no number; a digit is one.
pub proof fn law_shortest_numbers(c: char)
    ensures
        spec_parse_u16(Seq::empty()) is None,
        spec_parse_u16(seq!['+']) is None,
        '0' <= c && c <= '9' ==> spec_parse_u16(seq![c]) == Some((c as u32 - 48) as u16),
        !('0' <= c && c <= '9') ==> spec_parse_u16(seq![c]) is None,
{
    assert(seq!['+'].skip(1) =~= Seq::<char>::empty());
    assert(seq![c].drop_last() =~= Seq::<char>::empty());
    reveal_with_fuel(decimal_value, 2);
    if '0' <= c && c <= '9' {
        assert(ascii_digit(seq![c][0]));
        assert(all_digits(seq![c]));
    } else {
        assert(!ascii_digit(seq![c][0]));
    }
}

/// One more digit makes a number ten times what it was and the digit, as long as it stays below
/// 65536; anything else behind it makes it no number.
pub proof fn law_one_more_digit(s: Seq<char>, c: char)
    requires
        s.len() > 0,
        s != seq!['+'],
    ensures
        !('0' <= c && c <= '9') ==> spec_parse_u16(s.push(c)) is None,
        '0' <= c && c <= '9' ==> spec_parse_u16(s.push(c)) == (match spec_parse_u16(s) {
            Some(n) => if n * 10 + (c as u32 - 48) < 65536 {
                Some((n * 10 + (c as u32 - 48)) as u16)
            } else {
                None
            },
            None => None,
        }),
{
    let d = unsigned_digits(s);
    let e = unsigned_digits(s.push(c));
    if s[0] == '+' {
        if d.len() == 0 {
            assert(s =~= seq!['+']);
        }
    }
    assert(e =~= d.push(c));
    assert(e.drop_last() =~= d);
    if '0' <= c && c <= '9' {
        assert(all_digits(e) == all_digits(d)) by {
            if all_digits(d) {
                assert forall|i: int| 0 <= i < e.len() implies ascii_digit(#[trigger] e[i]) by {
                    if i < d.len() {
                        assert(ascii_digit(d[i]));
                    }
                }
            }
            if all_digits(e) {
                assert forall|i: int| 0 <= i < d.len() implies ascii_digit(#[trigger] d[i]) by {
                    assert(ascii_digit(e[i]));
                }
            }
        }
        assert(decimal_value(e) == decimal_value(d) * 10 + (c as u32 - 48));
    } else {
        assert(!ascii_digit(e[e.len() - 1]));
    }
}

/// One plus sign before a number changes nothing; a second makes it none.
pub proof fn law_plus_sign(s: Seq<char>)
    requires
        s.len() > 0,
    ensures
        s[0] != '+' ==> spec_parse_u16(seq!['+'] + s) == spec_parse_u16(s),
        s[0] == '+' ==> spec_parse_u16(seq!['+'] + s) is None,
{
    assert((seq!['+'] + s).skip(1) =~= s);
    if s[0] == '+' {
        assert(!ascii_digit(s[0]));
    }
}

/// A number is written in the digits that stand for it.
pub proof fn law_decimal_digits(n: nat, d: nat)
    requires
        d < 10,
    ensures
        decimal(d) == seq![(48 + d) as u32 as char],
        n > 0 ==> decimal(n * 10 + d) == decimal(n).push((48 + d) as u32 as char),
{
    if n > 0 {
        assert((n * 10 + d) / 10 == n && (n * 10 + d) % 10 == d) by (nonlinear_arith)
            requires
                d < 10,
        ;
    }
}

/// The digits of two numbers differ.
pub proof fn law_decimal_tells_numbers_apart(a: nat, b: nat)
    requires
        decimal(a) == decimal(b),
    ensures
        a == b,
    decreases a,
{
    let x = decimal(a);
    let y = decimal(b);
    lemma_decimal_length(a);
    lemma_decimal_length(b);
    assert(x.last() == (('0' as u32 + a % 10) as u32) as char);
    assert(y.last() == (('0' as u32 + b % 10) as u32) as char);
    assert((x.last() as u32) == 48 + a % 10);
    assert((y.last() as u32) == 48 + b % 10);
    if a >= 10 {
        assert(x.drop_last() =~= decimal(a / 10));
        assert(y.drop_last() =~= decimal(b / 10));
        law_decimal_tells_numbers_apart(a / 10, b / 10);
    }
}

proof fn lemma_decimal_length(n: nat)
    ensures
        n < 10 ==> decimal(n).len() == 1,
        n >= 10 ==> decimal(n).len() > 1,
    decreases n,
{
    if n >= 10 {
        lemma_decimal_length(n / 10);
    }
}

} // verus!
