//! Text handling over `Seq<char>`: trimming, splitting, case folding and
//! number formatting, each with the mathematical function it computes.

use vstd::prelude::*;
use vstd::string::*;
use vstd::utf8::*;

verus! {

/// `String::push`: appends one character to the end of the text.
pub assume_specification[ String::push ](s: &mut String, c: char)
    ensures
        final(s)@ == old(s)@.push(c),
;

/// The characters with the Unicode `White_Space` property.
pub open spec fn is_white_space(c: char) -> bool {
    ||| '\u{9}' <= c <= '\u{d}'
    ||| c == ' '
    ||| c == '\u{85}'
    ||| c == '\u{a0}'
    ||| c == '\u{1680}'
    ||| '\u{2000}' <= c <= '\u{200a}'
    ||| c == '\u{2028}'
    ||| c == '\u{2029}'
    ||| c == '\u{202f}'
    ||| c == '\u{205f}'
    ||| c == '\u{3000}'
}

/// `s` without its leading white space.
pub open spec fn without_leading_space(s: Seq<char>) -> Seq<char>
    decreases s.len(),
{
    if s.len() > 0 && is_white_space(s.first()) {
        without_leading_space(s.drop_first())
    } else {
        s
    }
}

/// `s` without its trailing white space.
pub open spec fn without_trailing_space(s: Seq<char>) -> Seq<char>
    decreases s.len(),
{
    if s.len() > 0 && is_white_space(s.last()) {
        without_trailing_space(s.drop_last())
    } else {
        s
    }
}

/// `s` without white space at either end.
pub open spec fn trimmed(s: Seq<char>) -> Seq<char> {
    without_trailing_space(without_leading_space(s))
}

/// The lower case form of an ASCII capital; any other character as it is.
pub open spec fn ascii_lower(c: char) -> char {
    if 'A' <= c <= 'Z' {
        (c as u32 + 32) as char
    } else {
        c
    }
}

/// `s` with every ASCII capital in lower case.
pub open spec fn ascii_lowered(s: Seq<char>) -> Seq<char> {
    s.map_values(|c: char| ascii_lower(c))
}

/// What stands before the first `sep`, or all of `s` where there is none.
pub open spec fn text_before(s: Seq<char>, sep: char) -> Seq<char> {
    match s.index_of_first(sep) {
        Some(i) => s.take(i),
        None => s,
    }
}

/// The pieces of `s` between the occurrences of `sep`, in order.
pub open spec fn pieces(s: Seq<char>, sep: char) -> Seq<Seq<char>>
    decreases s.len(),
{
    if s.contains(sep) {
        let i = s.index_of_first(sep)->0;
        if 0 <= i < s.len() {
            seq![s.take(i)] + pieces(s.skip(i + 1), sep)
        } else {
            seq![s]
        }
    } else {
        seq![s]
    }
}

/// `parts` in order, with `sep` between each and the next.
pub open spec fn joined(parts: Seq<Seq<char>>, sep: char) -> Seq<char>
    decreases parts.len(),
{
    if parts.len() == 0 {
        Seq::empty()
    } else if parts.len() == 1 {
        parts[0]
    } else {
        parts[0] + seq![sep] + joined(parts.drop_first(), sep)
    }
}

/// The decimal digit for `d`.
pub open spec fn digit(d: nat) -> char {
    (48 + d) as char
}

/// `n` in decimal, without leading zeros.
pub open spec fn decimal_of(n: nat) -> Seq<char>
    decreases n,
{
    if n < 10 {
        seq![digit(n)]
    } else {
        decimal_of(n / 10).push(digit(n % 10))
    }
}

/// The characters of `s`.
pub fn chars_of(s: &str) -> (r: Vec<char>)
    ensures
        r@ == s@,
{
    let mut r: Vec<char> = Vec::new();
    for c in it: s.chars()
        invariant
            it.seq() == s@,
            r@ == s@.take(it.index() as int),
    {
        r.push(c);
    }
    r
}

/// The text made of `chars[from..to]`.
pub fn text_of(chars: &Vec<char>, from: usize, to: usize) -> (r: String)
    requires
        from <= to <= chars@.len(),
    ensures
        r@ == chars@.subrange(from as int, to as int),
{
    let mut r = String::new();
    let mut i = from;
    while i < to
        invariant
            from <= i <= to <= chars@.len(),
            r@ == chars@.subrange(from as int, i as int),
        decreases to - i,
    {
        r.push(chars[i]);
        i += 1;
    }
    r
}

/// `n` in decimal.
pub fn decimal(n: u64) -> (r: String)
    ensures
        r@ == decimal_of(n as nat),
    decreases n,
{
    let last: u8 = (n % 10) as u8;
    let mut r = if n < 10 {
        String::new()
    } else {
        decimal(n / 10)
    };
    r.push((48 + last) as char);
    r
}

/// Whether `c` has the Unicode `White_Space` property.
pub fn white_space(c: char) -> (r: bool)
    ensures
        r == is_white_space(c),
{
    ('\u{9}' <= c && c <= '\u{d}') || c == ' ' || c == '\u{85}' || c == '\u{a0}' || c == '\u{1680}'
        || ('\u{2000}' <= c && c <= '\u{200a}') || c == '\u{2028}' || c == '\u{2029}' || c
        == '\u{202f}' || c == '\u{205f}' || c == '\u{3000}'
}

/// `s` without white space at either end.
pub fn trim(s: &str) -> (r: String)
    ensures
        r@ == trimmed(s@),
{
    let chars = chars_of(s);
    let mut from: usize = 0;
    assert(chars@.skip(0) == chars@);
    while from < chars.len() && white_space(chars[from])
        invariant
            from <= chars@.len(),
            without_leading_space(chars@) == without_leading_space(chars@.skip(from as int)),
        decreases chars.len() - from,
    {
        assert(chars@.skip(from as int).drop_first() == chars@.skip(from + 1));
        from += 1;
    }
    let ghost rest = chars@.skip(from as int);
    assert(without_leading_space(chars@) == rest);
    let mut to: usize = chars.len();
    assert(rest == chars@.subrange(from as int, to as int));
    while from < to && white_space(chars[to - 1])
        invariant
            from <= to <= chars@.len(),
            without_trailing_space(rest) == without_trailing_space(
                chars@.subrange(from as int, to as int),
            ),
        decreases to,
    {
        assert(chars@.subrange(from as int, to as int).drop_last() == chars@.subrange(
            from as int,
            to - 1,
        ));
        to -= 1;
    }
    text_of(&chars, from, to)
}

/// `s` with every ASCII capital in lower case.
pub fn to_ascii_lowercase(s: &str) -> (r: String)
    ensures
        r@ == ascii_lowered(s@),
{
    let mut r = String::new();
    for c in it: s.chars()
        invariant
            it.seq() == s@,
            r@ == ascii_lowered(s@.take(it.index() as int)),
    {
        let lowered = if 'A' <= c && c <= 'Z' {
            ((c as u8) + 32) as char
        } else {
            c
        };
        r.push(lowered);
    }
    assert(s@.take(s@.len() as int) == s@);
    r
}

/// The index of the first `sep` at or after `from`, or the length of `chars`.
fn find_from(chars: &Vec<char>, from: usize, sep: char) -> (r: usize)
    requires
        from <= chars@.len(),
    ensures
        from <= r <= chars@.len(),
        forall|i: int| from <= i < r ==> chars@[i] != sep,
        r < chars@.len() ==> chars@[r as int] == sep,
{
    let mut i = from;
    while i < chars.len() && chars[i] != sep
        invariant
            from <= i <= chars@.len(),
            forall|j: int| from <= j < i ==> chars@[j] != sep,
        decreases chars.len() - i,
    {
        i += 1;
    }
    i
}

/// What stands before the first `sep`, or all of `s` where there is none.
pub fn before(s: &str, sep: char) -> (r: String)
    ensures
        r@ == text_before(s@, sep),
{
    let chars = chars_of(s);
    let end = find_from(&chars, 0, sep);
    proof {
        lemma_first_index(s@, sep, end as int);
    }
    text_of(&chars, 0, end)
}

/// The pieces of `s` between the occurrences of `sep`, in order.
pub fn split(s: &str, sep: char) -> (r: Vec<String>)
    ensures
        r.deep_view() == pieces(s@, sep),
{
    let chars = chars_of(s);
    let mut r: Vec<String> = Vec::new();
    let mut from: usize = 0;
    assert(chars@.skip(0) == chars@);
    assert(r.deep_view() + pieces(s@, sep) == pieces(s@, sep));
    loop
        invariant
            from <= chars@.len(),
            chars@ == s@,
            r.deep_view() + pieces(chars@.skip(from as int), sep) == pieces(s@, sep),
        decreases chars.len() - from,
    {
        let end = find_from(&chars, from, sep);
        let ghost rest = chars@.skip(from as int);
        let ghost done = r.deep_view();
        proof {
            assert forall|i: int| 0 <= i < end - from implies rest[i] != sep by {
                assert(rest[i] == chars@[from + i]);
            }
            lemma_first_index(rest, sep, end - from);
        }
        let piece = text_of(&chars, from, end);
        assert(piece@ == rest.take(end - from));
        r.push(piece);
        assert(r.deep_view() == done.push(piece@));
        if end == chars.len() {
            assert(!rest.contains(sep));
            assert(rest.take(end - from) == rest);
            assert(r.deep_view() == done + seq![rest]);
            return r;
        }
        proof {
            assert(rest[end - from] == sep);
            assert(rest.contains(sep));
            assert(rest.skip(end - from + 1) == chars@.skip(end + 1));
            assert(done + (seq![rest.take(end - from)] + pieces(chars@.skip(end + 1), sep))
                == r.deep_view() + pieces(chars@.skip(end + 1), sep));
        }
        from = end + 1;
    }
}

/// The first index of `sep`: the one that no earlier index shares.
proof fn lemma_first_index(s: Seq<char>, sep: char, at: int)
    requires
        0 <= at <= s.len(),
        forall|i: int| 0 <= i < at ==> s[i] != sep,
        at < s.len() ==> s[at] == sep,
    ensures
        at < s.len() ==> s.index_of_first(sep) == Some(at),
        at == s.len() ==> s.index_of_first(sep) == None::<int> && !s.contains(sep),
        text_before(s, sep) == s.take(at),
{
    s.index_of_first_ensures(sep);
    if at < s.len() {
        assert(s.contains(sep));
    } else {
        assert(s.take(at) == s);
    }
}

/// The pieces of what was joined are its parts, where no part holds the separator.
pub proof fn joined_parts_come_apart(parts: Seq<Seq<char>>, sep: char)
    requires
        parts.len() > 0,
        forall|i: int| 0 <= i < parts.len() ==> !(#[trigger] parts[i]).contains(sep),
    ensures
        pieces(joined(parts, sep), sep) == parts,
    decreases parts.len(),
{
    let s = joined(parts, sep);
    let first = parts[0];
    assert(!first.contains(sep));
    if parts.len() == 1 {
        assert(pieces(s, sep) == parts);
    } else {
        let rest = parts.drop_first();
        assert forall|i: int| 0 <= i < rest.len() implies !(#[trigger] rest[i]).contains(sep) by {
            assert(rest[i] == parts[i + 1]);
        }
        joined_parts_come_apart(rest, sep);
        let at = first.len() as int;
        assert forall|i: int| 0 <= i < at implies s[i] != sep by {
            assert(first.contains(first[i]));
            assert(s[i] == first[i]);
        }
        lemma_first_index(s, sep, at);
        assert(s[at] == sep);
        assert(s.contains(sep));
        assert(s.take(at) == first);
        assert(s.skip(at + 1) == joined(rest, sep));
        assert(pieces(s, sep) == seq![first] + rest);
        assert(seq![first] + rest == parts);
    }
}

/// Whether two texts are the same.
pub fn same_text(a: &str, b: &str) -> (r: bool)
    ensures
        r == (a@ == b@),
{
    proof {
        encode_utf8_decode_utf8(a@);
        encode_utf8_decode_utf8(b@);
    }
    let x = a.as_bytes();
    let y = b.as_bytes();
    if x.len() != y.len() {
        return false;
    }
    let mut i: usize = 0;
    while i < x.len()
        invariant
            x@.len() == y@.len(),
            i <= x@.len(),
            forall|j: int| 0 <= j < i ==> x@[j] == y@[j],
            x@ == encode_utf8(a@),
            y@ == encode_utf8(b@),
            a@ != b@ <==> x@ != y@,
        decreases x.len() - i,
    {
        if x[i] != y[i] {
            return false;
        }
        i += 1;
    }
    assert(x@ == y@);
    true
}

/// `s` without `prefix`, if it begins with it.
pub fn strip_prefix(s: &str, prefix: &str) -> (r: Option<String>)
    ensures
        r.deep_view() == (if prefix@.is_prefix_of(s@) {
            Some(s@.skip(prefix@.len() as int))
        } else {
            None
        }),
{
    let chars = chars_of(s);
    let head = chars_of(prefix);
    if chars.len() < head.len() {
        return None;
    }
    let mut i: usize = 0;
    while i < head.len()
        invariant
            i <= head@.len() <= chars@.len(),
            forall|j: int| 0 <= j < i ==> chars@[j] == head@[j],
            chars@ == s@,
            head@ == prefix@,
        decreases head.len() - i,
    {
        if chars[i] != head[i] {
            return None;
        }
        i += 1;
    }
    Some(text_of(&chars, i, chars.len()))
}

/// What is dropped from a text is the white space around it, all of it and nothing
/// else.
pub proof fn space_around_is_dropped(before: Seq<char>, text: Seq<char>, after: Seq<char>)
    requires
        forall|i: int| 0 <= i < before.len() ==> is_white_space(#[trigger] before[i]),
        forall|i: int| 0 <= i < after.len() ==> is_white_space(#[trigger] after[i]),
        text.len() > 0 ==> !is_white_space(text.first()) && !is_white_space(text.last()),
    ensures
        trimmed(before + text + after) == text,
{
    lemma_leading_space(before, text + after);
    assert(before + text + after =~= before + (text + after));
    if text.len() == 0 {
        lemma_leading_space(after, Seq::empty());
        assert(text + after =~= after + Seq::empty());
        assert(text =~= Seq::empty());
    } else {
        assert((text + after).first() == text.first());
        lemma_trailing_space(text, after);
    }
}

/// White space in front of a text goes first.
proof fn lemma_leading_space(space: Seq<char>, text: Seq<char>)
    requires
        forall|i: int| 0 <= i < space.len() ==> is_white_space(#[trigger] space[i]),
    ensures
        without_leading_space(space + text) == without_leading_space(text),
    decreases space.len(),
{
    if space.len() > 0 {
        assert((space + text).first() == space[0]);
        assert((space + text).drop_first() =~= space.drop_first() + text);
        assert forall|i: int| 0 <= i < space.drop_first().len() implies is_white_space(
            #[trigger] space.drop_first()[i],
        ) by {
            assert(space.drop_first()[i] == space[i + 1]);
        }
        lemma_leading_space(space.drop_first(), text);
    } else {
        assert(space + text =~= text);
    }
}

/// White space behind a text goes last.
proof fn lemma_trailing_space(text: Seq<char>, space: Seq<char>)
    requires
        forall|i: int| 0 <= i < space.len() ==> is_white_space(#[trigger] space[i]),
    ensures
        without_trailing_space(text + space) == without_trailing_space(text),
    decreases space.len(),
{
    if space.len() > 0 {
        assert((text + space).last() == space[space.len() - 1]);
        assert((text + space).drop_last() =~= text + space.drop_last());
        assert forall|i: int| 0 <= i < space.drop_last().len() implies is_white_space(
            #[trigger] space.drop_last()[i],
        ) by {
            assert(space.drop_last()[i] == space[i]);
        }
        lemma_trailing_space(text, space.drop_last());
    } else {
        assert(text + space =~= text);
    }
}

/// A trimmed text neither begins nor ends with white space, and so stays as it is
/// when it is trimmed once more.
pub proof fn trimmed_has_no_space_around(s: Seq<char>)
    ensures
        trimmed(s).len() > 0 ==> !is_white_space(trimmed(s).first()) && !is_white_space(
            trimmed(s).last(),
        ),
        trimmed(trimmed(s)) == trimmed(s),
        trimmed(s).len() <= s.len(),
{
    lemma_without_leading(s);
    lemma_without_trailing(without_leading_space(s));
    let none = Seq::<char>::empty();
    space_around_is_dropped(none, trimmed(s), none);
    assert(none + trimmed(s) + none =~= trimmed(s));
}

/// What is left begins with no white space.
proof fn lemma_without_leading(s: Seq<char>)
    ensures
        without_leading_space(s).len() > 0 ==> !is_white_space(without_leading_space(s).first()),
        without_leading_space(s).len() <= s.len(),
    decreases s.len(),
{
    if s.len() > 0 && is_white_space(s.first()) {
        lemma_without_leading(s.drop_first());
    }
}

/// What is left ends with no white space and begins as before.
proof fn lemma_without_trailing(s: Seq<char>)
    ensures
        without_trailing_space(s).len() > 0 ==> {
            &&& !is_white_space(without_trailing_space(s).last())
            &&& without_trailing_space(s).first() == s.first()
        },
        without_trailing_space(s).len() <= s.len(),
    decreases s.len(),
{
    if s.len() > 0 && is_white_space(s.last()) {
        lemma_without_trailing(s.drop_last());
    }
}

/// In ASCII, white space is the space and the five controls from tab to carriage
/// return; beyond, it is the nineteen code points that Unicode counts in.
pub proof fn what_white_space_is(c: char)
    ensures
        (c as u32) < 128 ==> (is_white_space(c) <==> c == ' ' || c == '\t' || c == '\n' || c
            == '\u{b}' || c == '\u{c}' || c == '\r'),
        (c as u32) >= 128 ==> (is_white_space(c) <==> seq![
            0x85u32,
            0xa0,
            0x1680,
            0x2000,
            0x2001,
            0x2002,
            0x2003,
            0x2004,
            0x2005,
            0x2006,
            0x2007,
            0x2008,
            0x2009,
            0x200a,
            0x2028,
            0x2029,
            0x202f,
            0x205f,
            0x3000,
        ].contains(c as u32)),
{
    let all = seq![
        0x85u32,
        0xa0,
        0x1680,
        0x2000,
        0x2001,
        0x2002,
        0x2003,
        0x2004,
        0x2005,
        0x2006,
        0x2007,
        0x2008,
        0x2009,
        0x200a,
        0x2028,
        0x2029,
        0x202f,
        0x205f,
        0x3000,
    ];
    let n = c as u32;
    assert(all[0] == 0x85 && all[1] == 0xa0 && all[2] == 0x1680);
    assert(all[14] == 0x2028 && all[15] == 0x2029 && all[16] == 0x202f);
    assert(all[17] == 0x205f && all[18] == 0x3000);
    if 0x2000 <= n <= 0x200a {
        assert(all[3 + (n - 0x2000)] == n);
    }
}

/// Lowering changes the capitals from A to Z, each to the letter 32 places on, and
/// no other character.
pub proof fn lowering_changes_capitals_only(s: Seq<char>, i: int)
    requires
        0 <= i < s.len(),
    ensures
        ascii_lowered(s).len() == s.len(),
        65 <= s[i] as u32 <= 90 ==> ascii_lowered(s)[i] as u32 == s[i] as u32 + 32,
        !(65 <= s[i] as u32 <= 90) ==> ascii_lowered(s)[i] == s[i],
{
}

/// What stands before the first separator does not depend on what follows it.
pub proof fn text_before_a_separator(text: Seq<char>, sep: char, rest: Seq<char>)
    requires
        !text.contains(sep),
    ensures
        text_before(text + seq![sep] + rest, sep) == text,
        text_before(text, sep) == text,
{
    let s = text + seq![sep] + rest;
    let at = text.len() as int;
    assert forall|i: int| 0 <= i < at implies s[i] != sep by {
        assert(text.contains(text[i]));
        assert(s[i] == text[i]);
    }
    assert(s[at] == sep);
    lemma_first_index(s, sep, at);
    assert(s.take(at) =~= text);
    assert forall|i: int| 0 <= i < at implies text[i] != sep by {
        assert(text.contains(text[i]));
    }
    lemma_first_index(text, sep, at);
    assert(text.take(at) =~= text);
}

/// A text without the separator is one piece, and a separator parts the pieces
/// before it from those behind it.
pub proof fn pieces_come_one_after_the_other(x: Seq<char>, y: Seq<char>, sep: char)
    ensures
        !x.contains(sep) ==> pieces(x, sep) == seq![x],
        pieces(x + seq![sep] + y, sep) == pieces(x, sep) + pieces(y, sep),
    decreases x.len(),
{
    let s = x + seq![sep] + y;
    if !x.contains(sep) {
        text_before_a_separator(x, sep, y);
        let at = x.len() as int;
        assert forall|i: int| 0 <= i < at implies s[i] != sep by {
            assert(x.contains(x[i]));
            assert(s[i] == x[i]);
        }
        assert(s[at] == sep);
        assert(s.contains(sep));
        lemma_first_index(s, sep, at);
        assert(s.take(at) =~= x);
        assert(s.skip(at + 1) =~= y);
    } else {
        x.index_of_first_ensures(sep);
        let at = x.index_of_first(sep)->0;
        assert forall|i: int| 0 <= i < at implies s[i] != sep by {
            assert(s[i] == x[i]);
        }
        assert(s[at] == x[at]);
        assert(s.contains(sep));
        lemma_first_index(s, sep, at);
        assert(s.take(at) =~= x.take(at));
        let rest = x.skip(at + 1);
        assert(s.skip(at + 1) =~= rest + seq![sep] + y);
        pieces_come_one_after_the_other(rest, y, sep);
        assert(pieces(s, sep) =~= pieces(x, sep) + pieces(y, sep));
    }
}

/// The number that decimal digits stand for.
pub open spec fn number_of(digits: Seq<char>) -> int
    decreases digits.len(),
{
    if digits.len() == 0 {
        0
    } else {
        10 * number_of(digits.drop_last()) + (digits.last() as u32 - 48)
    }
}

/// A number in decimal is made of digits, stands for the number, and has no zero in
/// front.
pub proof fn decimal_stands_for_the_number(n: nat)
    ensures
        number_of(decimal_of(n)) == n,
        forall|i: int|
            0 <= i < decimal_of(n).len() ==> '0' <= #[trigger] decimal_of(n)[i] <= '9',
        decimal_of(n).len() > 0,
        decimal_of(n).len() > 1 ==> decimal_of(n)[0] != '0',
    decreases n,
{
    if n < 10 {
        let digits = decimal_of(n);
        assert(digits.drop_last() =~= Seq::<char>::empty());
        assert(number_of(digits.drop_last()) == 0);
        assert(digits.last() as u32 == 48 + n);
    } else {
        decimal_stands_for_the_number(n / 10);
        let front = decimal_of(n / 10);
        let digits = decimal_of(n);
        assert(digits.drop_last() =~= front);
        assert(digits.last() as u32 == 48 + n % 10);
        assert(digits[0] == front[0]);
        if front.len() == 1 {
            assert(front.drop_last() =~= Seq::<char>::empty());
            assert(number_of(front.drop_last()) == 0);
            assert(n / 10 > 0);
        }
    }
}

/// What is left of a text without its prefix is what the prefix lacks to the text;
/// where nothing is left to say, the text does not begin with it.
pub proof fn prefix_and_rest_make_the_text(s: &str, prefix: &str, r: Option<String>)
    requires
        call_ensures(strip_prefix, (s, prefix), r),
    ensures
        r matches Some(rest) ==> s@ == prefix@ + rest@,
        r is None ==> forall|rest: Seq<char>| s@ != #[trigger] (prefix@ + rest),
{
    if let Some(rest) = r {
        assert(s@ =~= prefix@ + rest@);
    } else {
        assert forall|rest: Seq<char>| s@ != #[trigger] (prefix@ + rest) by {
            let whole = prefix@ + rest;
            assert(prefix@ =~= whole.subrange(0, prefix@.len() as int));
        }
    }
}

} // verus!
