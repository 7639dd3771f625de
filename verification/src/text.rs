//! Text as a sequence of characters: searching, trimming, case, and decimal numbers.

use vstd::prelude::*;

verus! {

// ---- What is said of text ----

/// The first position from `from` on at which `p` holds, or the length where there is none.
pub open spec fn first_where(s: Seq<char>, p: spec_fn(char) -> bool, from: int) -> int
    decreases s.len() - from,
{
    if from >= s.len() {
        s.len() as int
    } else if p(s[from]) {
        from
    } else {
        first_where(s, p, from + 1)
    }
}

/// The last position before `to` at which `p` holds, or -1 where there is none.
pub open spec fn last_where(s: Seq<char>, p: spec_fn(char) -> bool, to: int) -> int
    decreases to,
{
    if to <= 0 {
        -1
    } else if p(s[to - 1]) {
        to - 1
    } else {
        last_where(s, p, to - 1)
    }
}

/// Being the character `c`.
pub open spec fn equals(c: char) -> spec_fn(char) -> bool {
    |x: char| x == c
}

/// The position of the first `c`, or the length where there is none.
pub open spec fn first_of(s: Seq<char>, c: char) -> int {
    first_where(s, equals(c), 0)
}

/// The position of the last `c`, or -1 where there is none.
pub open spec fn last_of(s: Seq<char>, c: char) -> int {
    last_where(s, equals(c), s.len() as int)
}

/// `s` begins with `prefix`.
pub open spec fn starts_with(s: Seq<char>, prefix: Seq<char>) -> bool {
    prefix.len() <= s.len() && s.take(prefix.len() as int) == prefix
}

/// `s` ends with `suffix`.
pub open spec fn ends_with(s: Seq<char>, suffix: Seq<char>) -> bool {
    suffix.len() <= s.len() && s.skip(s.len() - suffix.len()) == suffix
}

pub open spec fn ascii_letter(c: char) -> bool {
    ('a' <= c && c <= 'z') || ('A' <= c && c <= 'Z')
}

pub open spec fn ascii_digit(c: char) -> bool {
    '0' <= c && c <= '9'
}

/// The lower case of an ASCII letter; any other character itself.
pub open spec fn lower_char(c: char) -> char {
    if 'A' <= c && c <= 'Z' {
        (c as u8 + 32) as u8 as char
    } else {
        c
    }
}

/// The text with each ASCII letter in lower case.
pub open spec fn lower(s: Seq<char>) -> Seq<char> {
    s.map_values(|c: char| lower_char(c))
}

/// The Unicode property White_Space.
pub open spec fn white_space(c: char) -> bool {
    ||| ('\u{9}' <= c && c <= '\u{d}')
    ||| c == ' '
    ||| c == '\u{85}'
    ||| c == '\u{a0}'
    ||| c == '\u{1680}'
    ||| ('\u{2000}' <= c && c <= '\u{200a}')
    ||| c == '\u{2028}'
    ||| c == '\u{2029}'
    ||| c == '\u{202f}'
    ||| c == '\u{205f}'
    ||| c == '\u{3000}'
}

/// The text holds nothing but white space.
pub open spec fn blank(s: Seq<char>) -> bool {
    forall|i: int| 0 <= i < s.len() ==> white_space(#[trigger] s[i])
}

/// Being something other than white space.
pub open spec fn dark() -> spec_fn(char) -> bool {
    |c: char| !white_space(c)
}

/// The text without the white space at its ends.
pub open spec fn trimmed(s: Seq<char>) -> Seq<char> {
    let from = first_where(s, dark(), 0);
    let to = last_where(s, dark(), s.len() as int) + 1;
    if from < to {
        s.subrange(from, to)
    } else {
        Seq::empty()
    }
}

/// The number that decimal digits stand for.
pub open spec fn decimal_value(s: Seq<char>) -> nat
    decreases s.len(),
{
    if s.len() == 0 {
        0
    } else {
        decimal_value(s.drop_last()) * 10 + (s.last() as u32 - '0' as u32) as nat
    }
}

pub open spec fn all_digits(s: Seq<char>) -> bool {
    forall|i: int| 0 <= i < s.len() ==> ascii_digit(#[trigger] s[i])
}

/// The decimal digits of a number, without leading zeros.
pub open spec fn decimal(n: nat) -> Seq<char>
    decreases n,
{
    let digit = (('0' as u32 + n % 10) as u32) as char;
    if n < 10 {
        seq![digit]
    } else {
        decimal(n / 10).push(digit)
    }
}

/// The digits of a number in text: an optional plus sign may precede them.
pub open spec fn unsigned_digits(s: Seq<char>) -> Seq<char> {
    if s.len() > 0 && s[0] == '+' {
        s.skip(1)
    } else {
        s
    }
}

/// The 16-bit number that the text stands for: an optional plus sign, then one or more decimal
/// digits and nothing else.
pub open spec fn spec_parse_u16(s: Seq<char>) -> Option<u16> {
    let digits = unsigned_digits(s);
    if digits.len() > 0 && all_digits(digits) && decimal_value(digits) <= u16::MAX {
        Some(decimal_value(digits) as u16)
    } else {
        None
    }
}

// ---- Facts about searching ----

/// `first_where` is the one position before which `p` holds nowhere and at which it holds.
pub proof fn lemma_first_where(s: Seq<char>, p: spec_fn(char) -> bool, from: int, at: int)
    requires
        0 <= from <= at <= s.len(),
        forall|i: int| from <= i < at ==> !p(#[trigger] s[i]),
        at < s.len() ==> p(s[at]),
    ensures
        first_where(s, p, from) == at,
    decreases at - from,
{
    if from < at {
        assert(!p(s[from]));
        lemma_first_where(s, p, from + 1, at);
    }
}

/// What `first_where` finds.
pub proof fn lemma_first_where_found(s: Seq<char>, p: spec_fn(char) -> bool, from: int)
    requires
        0 <= from <= s.len(),
    ensures
        from <= first_where(s, p, from) <= s.len(),
        forall|i: int| from <= i < first_where(s, p, from) ==> !p(#[trigger] s[i]),
        first_where(s, p, from) < s.len() ==> p(s[first_where(s, p, from)]),
    decreases s.len() - from,
{
    if from < s.len() && !p(s[from]) {
        lemma_first_where_found(s, p, from + 1);
    }
}

/// `last_where` is the one position after which `p` holds nowhere and at which it holds.
pub proof fn lemma_last_where(s: Seq<char>, p: spec_fn(char) -> bool, to: int, at: int)
    requires
        -1 <= at < to <= s.len() || (at == -1 && to == 0),
        forall|i: int| at < i < to ==> !p(#[trigger] s[i]),
        at >= 0 ==> p(s[at]),
    ensures
        last_where(s, p, to) == at,
    decreases to,
{
    if at < to - 1 {
        assert(!p(s[to - 1]));
        lemma_last_where(s, p, to - 1, at);
    }
}

/// What `last_where` finds.
pub proof fn lemma_last_where_found(s: Seq<char>, p: spec_fn(char) -> bool, to: int)
    requires
        0 <= to <= s.len(),
    ensures
        -1 <= last_where(s, p, to) < to || (to == 0 && last_where(s, p, to) == -1),
        forall|i: int| last_where(s, p, to) < i < to ==> !p(#[trigger] s[i]),
        last_where(s, p, to) >= 0 ==> p(s[last_where(s, p, to)]),
    decreases to,
{
    if to > 0 && !p(s[to - 1]) {
        lemma_last_where_found(s, p, to - 1);
    }
}

// ---- Reading and building text ----

/// The standard library's `String::push` appends one character.
pub assume_specification[ String::push ](s: &mut String, c: char)
    ensures
        final(s)@ == old(s)@.push(c),
;

/// The characters of `s`, in order.
pub fn chars_of(s: &str) -> (r: Vec<char>)
    ensures
        r@ == s@,
{
    let mut r: Vec<char> = Vec::new();
    for c in it: s.chars()
        invariant
            r@ == it.seq().take(it.index() as int),
            it.seq() == s@,
    {
        r.push(c);
    }
    r
}

/// The text that `from..to` of the characters makes.
pub fn text_of(s: &Vec<char>, from: usize, to: usize) -> (r: String)
    requires
        from <= to <= s@.len(),
    ensures
        r@ == s@.subrange(from as int, to as int),
{
    let mut r = String::new();
    let mut i: usize = from;
    while i < to
        invariant
            from <= i <= to <= s@.len(),
            r@ == s@.subrange(from as int, i as int),
        decreases to - i,
    {
        r.push(s[i]);
        i += 1;
    }
    r
}

/// `a` followed by `b`.
pub fn joined(a: &str, b: &str) -> (r: String)
    ensures
        r@ == a@ + b@,
{
    let mut r = a.to_owned();
    r.append(b);
    r
}

/// `a`, `b` and `c`, one after the other.
pub fn joined3(a: &str, b: &str, c: &str) -> (r: String)
    ensures
        r@ == a@ + b@ + c@,
{
    let mut r = joined(a, b);
    r.append(c);
    r
}

// ---- Searching ----

/// Whether the characters begin with `prefix`.
pub fn has_prefix(s: &Vec<char>, prefix: &str) -> (r: bool)
    ensures
        r == starts_with(s@, prefix@),
{
    let p = chars_of(prefix);
    if p.len() > s.len() {
        return false;
    }
    let mut i: usize = 0;
    while i < p.len()
        invariant
            i <= p@.len() <= s@.len(),
            p@ == prefix@,
            forall|j: int| 0 <= j < i ==> s@[j] == p@[j],
        decreases p@.len() - i,
    {
        if s[i] != p[i] {
            assert(s@.take(prefix@.len() as int)[i as int] != prefix@[i as int]);
            return false;
        }
        i += 1;
    }
    assert(s@.take(prefix@.len() as int) =~= prefix@);
    true
}

/// Whether the characters end with `suffix`.
pub fn has_suffix(s: &Vec<char>, suffix: &str) -> (r: bool)
    ensures
        r == ends_with(s@, suffix@),
{
    let p = chars_of(suffix);
    if p.len() > s.len() {
        return false;
    }
    let start: usize = s.len() - p.len();
    let mut i: usize = 0;
    while i < p.len()
        invariant
            i <= p@.len() <= s@.len() <= usize::MAX,
            start == s@.len() - p@.len(),
            p@ == suffix@,
            forall|j: int| 0 <= j < i ==> s@[start + j] == p@[j],
        decreases p@.len() - i,
    {
        if s[start + i] != p[i] {
            assert(s@.skip(s@.len() - suffix@.len())[i as int] != suffix@[i as int]);
            return false;
        }
        i += 1;
    }
    assert(s@.skip(s@.len() - suffix@.len()) =~= suffix@);
    true
}

/// Whether the characters are those of `t`.
pub fn is_text(s: &Vec<char>, t: &str) -> (r: bool)
    ensures
        r == (s@ == t@),
{
    let same = has_prefix(s, t);
    let n: usize = t.unicode_len();
    proof {
        if same && n == s@.len() {
            assert(s@.take(n as int) =~= s@);
        }
        if s@ == t@ {
            assert(s@.take(n as int) =~= s@);
        }
    }
    same && s.len() == n
}

/// The position of the first `c`, or the number of characters where there is none.
pub fn find_first(s: &Vec<char>, c: char) -> (r: usize)
    ensures
        r == first_of(s@, c),
        r <= s@.len(),
        r < s@.len() ==> s@[r as int] == c,
        forall|j: int| 0 <= j < r ==> s@[j] != c,
{
    let mut i: usize = 0;
    while i < s.len() && s[i] != c
        invariant
            i <= s@.len(),
            forall|j: int| 0 <= j < i ==> s@[j] != c,
        decreases s@.len() - i,
    {
        i += 1;
    }
    proof {
        lemma_first_where(s@, equals(c), 0, i as int);
    }
    i
}

/// The position of the last `c`, or `None` where there is none.
pub fn find_last(s: &Vec<char>, c: char) -> (r: Option<usize>)
    ensures
        match r {
            Some(i) => i < s@.len() && i == last_of(s@, c) && s@[i as int] == c,
            None => last_of(s@, c) == -1,
        },
{
    let mut i: usize = s.len();
    while i > 0 && s[i - 1] != c
        invariant
            i <= s@.len(),
            forall|j: int| i <= j < s@.len() ==> s@[j] != c,
        decreases i,
    {
        i -= 1;
    }
    proof {
        lemma_last_where(s@, equals(c), s@.len() as int, i - 1);
    }
    if i > 0 {
        Some(i - 1)
    } else {
        None
    }
}

// ---- Case, white space, numbers ----

/// The lower case of an ASCII letter; any other character itself.
pub fn to_lower_char(c: char) -> (r: char)
    ensures
        r == lower_char(c),
{
    if 'A' <= c && c <= 'Z' {
        (c as u8 + 32) as char
    } else {
        c
    }
}

/// The characters with each ASCII letter in lower case.
pub fn to_lower(s: &Vec<char>) -> (r: Vec<char>)
    ensures
        r@ == lower(s@),
{
    let mut r: Vec<char> = Vec::new();
    let mut i: usize = 0;
    while i < s.len()
        invariant
            i <= s@.len(),
            r@ == lower(s@.take(i as int)),
        decreases s@.len() - i,
    {
        r.push(to_lower_char(s[i]));
        i += 1;
        assert(r@ =~= lower(s@.take(i as int)));
    }
    assert(s@.take(i as int) =~= s@);
    r
}

/// Whether `c` has the Unicode property White_Space.
pub fn is_white_space(c: char) -> (r: bool)
    ensures
        r == white_space(c),
{
    ('\u{9}' <= c && c <= '\u{d}') || c == ' ' || c == '\u{85}' || c == '\u{a0}' || c == '\u{1680}'
        || ('\u{2000}' <= c && c <= '\u{200a}') || c == '\u{2028}' || c == '\u{2029}' || c
        == '\u{202f}' || c == '\u{205f}' || c == '\u{3000}'
}

/// Text is blank exactly where nothing is left of it once it is trimmed.
pub proof fn lemma_blank_is_trimmed_away(s: Seq<char>)
    ensures
        blank(s) <==> trimmed(s).len() == 0,
{
    lemma_first_where_found(s, dark(), 0);
    lemma_last_where_found(s, dark(), s.len() as int);
    let from = first_where(s, dark(), 0);
    let last = last_where(s, dark(), s.len() as int);
    if from < s.len() {
        assert(!white_space(s[from]));
        assert(last >= from);
    } else if last >= 0 {
        assert(dark()(s[last]));
    }
}

/// The text without the white space at its ends.
pub fn trim(s: &str) -> (r: String)
    ensures
        r@ == trimmed(s@),
{
    let chars = chars_of(s);
    let mut from: usize = 0;
    while from < chars.len() && is_white_space(chars[from])
        invariant
            from <= chars@.len(),
            forall|j: int| 0 <= j < from ==> white_space(#[trigger] chars@[j]),
        decreases chars@.len() - from,
    {
        from += 1;
    }
    let mut to: usize = chars.len();
    while to > from && is_white_space(chars[to - 1])
        invariant
            from <= to <= chars@.len(),
            forall|j: int| to <= j < chars@.len() ==> white_space(#[trigger] chars@[j]),
        decreases to,
    {
        to -= 1;
    }
    proof {
        lemma_first_where(chars@, dark(), 0, from as int);
        if from < to {
            lemma_last_where(chars@, dark(), chars@.len() as int, to - 1);
        } else {
            lemma_last_where(chars@, dark(), chars@.len() as int, -1);
            assert(chars@.subrange(from as int, to as int) =~= Seq::empty());
        }
    }
    text_of(&chars, from, to)
}

/// Whether the text holds nothing but white space.
pub fn is_blank(s: &str) -> (r: bool)
    ensures
        r == blank(s@),
{
    let chars = chars_of(s);
    let mut i: usize = 0;
    while i < chars.len()
        invariant
            i <= chars@.len(),
            chars@ == s@,
            forall|j: int| 0 <= j < i ==> white_space(#[trigger] chars@[j]),
        decreases chars@.len() - i,
    {
        if !is_white_space(chars[i]) {
            return false;
        }
        i += 1;
    }
    true
}

/// The value of more digits is no smaller.
proof fn lemma_decimal_value_grows(s: Seq<char>, i: int)
    requires
        0 <= i <= s.len(),
    ensures
        decimal_value(s.take(i)) <= decimal_value(s),
    decreases s.len(),
{
    if i < s.len() {
        lemma_decimal_value_grows(s.drop_last(), i);
        assert(s.drop_last().take(i) =~= s.take(i));
    } else {
        assert(s.take(i) =~= s);
    }
}

/// The 16-bit number that the characters from `from` on stand for: an optional plus sign, then
/// one or more decimal digits and nothing else.
pub fn parse_u16(s: &Vec<char>, from: usize) -> (r: Option<u16>)
    requires
        from <= s@.len(),
    ensures
        r == spec_parse_u16(s@.skip(from as int)),
{
    let ghost whole = s@.skip(from as int);
    let ghost digits = unsigned_digits(whole);
    let mut start: usize = from;
    if start < s.len() && s[start] == '+' {
        start += 1;
        assert(digits =~= s@.skip(start as int));
    }
    assert(digits =~= s@.skip(start as int));
    if start == s.len() {
        return None;
    }
    let mut value: u32 = 0;
    let mut i: usize = start;
    while i < s.len()
        invariant
            start <= i <= s@.len(),
            digits == s@.skip(start as int),
            digits.len() > 0,
            digits == unsigned_digits(whole),
            whole == s@.skip(from as int),
            all_digits(digits.take(i - start)),
            value == decimal_value(digits.take(i - start)),
            value <= u16::MAX,
        decreases s@.len() - i,
    {
        let c = s[i];
        assert(c == digits[i - start]);
        if !('0' <= c && c <= '9') {
            return None;
        }
        proof {
            let more = digits.take(i + 1 - start);
            assert(more.drop_last() =~= digits.take(i - start));
            assert(more.last() == c);
            lemma_decimal_value_grows(digits, i + 1 - start);
        }
        value = value * 10 + (c as u32 - '0' as u32);
        if value > u16::MAX as u32 {
            return None;
        }
        i += 1;
    }
    assert(digits.take(i - start) =~= digits);
    Some(value as u16)
}

/// The decimal digits of a number, without leading zeros.
pub fn to_decimal(n: u32) -> (r: String)
    ensures
        r@ == decimal(n as nat),
    decreases n,
{
    let digit: char = ('0' as u8 + (n % 10) as u8) as char;
    let mut r = if n < 10 {
        String::new()
    } else {
        to_decimal(n / 10)
    };
    r.push(digit);
    assert(n < 10 ==> r@ =~= seq![digit]);
    r
}

} // verus!
