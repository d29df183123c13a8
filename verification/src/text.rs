//! Working with text as sequences of characters: taking strings apart and
//! putting them together, separators, and decimal numbers.

use vstd::prelude::*;
use vstd::string::StringExecFns;

verus! {

/// `String::push` of the standard library appends the one character to the
/// end of the string and changes nothing else.
pub assume_specification[ String::push ](s: &mut String, ch: char)
    ensures
        final(s)@ == old(s)@.push(ch),
;

/// `s` without every occurrence of `c`.
pub open spec fn without(s: Seq<char>, c: char) -> Seq<char>
    decreases s.len(),
{
    if s.len() == 0 {
        Seq::empty()
    } else if s.last() == c {
        without(s.drop_last(), c)
    } else {
        without(s.drop_last(), c).push(s.last())
    }
}

/// The items in order with `sep` between each two of them.
pub open spec fn joined(items: Seq<Seq<char>>, sep: Seq<char>) -> Seq<char>
    decreases items.len(),
{
    if items.len() == 0 {
        Seq::empty()
    } else if items.len() == 1 {
        items[0]
    } else {
        joined(items.drop_last(), sep) + sep + items.last()
    }
}

/// The pieces of `s` that lie before, between and after the occurrences of
/// `sep`. There is always one piece more than there are separators, and a
/// piece is empty where two separators meet or one stands at either end.
pub open spec fn split(s: Seq<char>, sep: char) -> Seq<Seq<char>>
    decreases s.len(),
{
    if s.len() == 0 {
        seq![Seq::empty()]
    } else {
        let before = split(s.drop_last(), sep);
        if s.last() == sep {
            before.push(Seq::empty())
        } else {
            before.drop_last().push(before.last().push(s.last()))
        }
    }
}

/// The views of the strings, in order.
pub open spec fn views(items: Seq<String>) -> Seq<Seq<char>> {
    Seq::new(items.len(), |i: int| items[i]@)
}

/// The views of the pairs of strings, in order.
pub open spec fn pairs(items: Seq<(String, String)>) -> Seq<(Seq<char>, Seq<char>)> {
    Seq::new(items.len(), |i: int| (items[i].0@, items[i].1@))
}

/// The first halves of the pairs, in order.
pub open spec fn firsts(items: Seq<(Seq<char>, Seq<char>)>) -> Seq<Seq<char>> {
    Seq::new(items.len(), |i: int| items[i].0)
}

/// The second halves of the pairs, in order.
pub open spec fn seconds(items: Seq<(Seq<char>, Seq<char>)>) -> Seq<Seq<char>> {
    Seq::new(items.len(), |i: int| items[i].1)
}

/// Each item between two apostrophes.
pub open spec fn quoted(items: Seq<Seq<char>>) -> Seq<Seq<char>> {
    Seq::new(items.len(), |i: int| seq!['\''] + items[i] + seq!['\''])
}

/// The views of the vectors, in order.
pub open spec fn char_views(items: Seq<Vec<char>>) -> Seq<Seq<char>> {
    Seq::new(items.len(), |i: int| items[i]@)
}

/// The characters of `s`.
pub fn to_chars(s: &str) -> (v: Vec<char>)
    ensures
        v@ == s@,
{
    let mut v: Vec<char> = Vec::new();
    for c in it: s.chars()
        invariant
            it.seq() == s@,
            v@ == s@.take(it.index() as int),
    {
        v.push(c);
    }
    v
}

/// The string made of the characters of `v`.
pub fn from_chars(v: &Vec<char>) -> (s: String)
    ensures
        s@ == v@,
{
    let mut s = String::new();
    let mut i: usize = 0;
    while i < v.len()
        invariant
            i <= v.len(),
            s@ == v@.take(i as int),
        decreases v.len() - i,
    {
        s.push(v[i]);
        i = i + 1;
    }
    s
}

/// A copy of `s` that leaves out every occurrence of `c`.
pub fn strip_char(s: &str, c: char) -> (r: String)
    ensures
        r@ == without(s@, c),
{
    let mut r = String::new();
    for x in it: s.chars()
        invariant
            it.seq() == s@,
            r@ == without(s@.take(it.index() as int), c),
    {
        assert(s@.take(it.index() + 1).drop_last() == s@.take(it.index() as int));
        if x != c {
            r.push(x);
        }
    }
    assert(s@.take(s@.len() as int) == s@);
    r
}

/// Joins the items with `sep` between each two of them.
pub fn join(items: &Vec<String>, sep: &str) -> (r: String)
    ensures
        r@ == joined(views(items@), sep@),
{
    let mut r = String::new();
    let mut i: usize = 0;
    while i < items.len()
        invariant
            i <= items.len(),
            r@ == joined(views(items@).take(i as int), sep@),
        decreases items.len() - i,
    {
        assert(views(items@).take(i + 1).drop_last() == views(items@).take(i as int));
        if i > 0 {
            r.append(sep);
        }
        r.append(items[i].as_str());
        i = i + 1;
    }
    assert(views(items@).take(items@.len() as int) == views(items@));
    r
}

/// Splits `s` at every occurrence of `sep`.
pub fn split_chars(s: &str, sep: char) -> (pieces: Vec<Vec<char>>)
    ensures
        char_views(pieces@) == split(s@, sep),
{
    let mut pieces: Vec<Vec<char>> = Vec::new();
    let mut piece: Vec<char> = Vec::new();
    for c in it: s.chars()
        invariant
            it.seq() == s@,
            char_views(pieces@).push(piece@) == split(s@.take(it.index() as int), sep),
    {
        assert(s@.take(it.index() + 1).drop_last() == s@.take(it.index() as int));
        if c == sep {
            pieces.push(piece);
            piece = Vec::new();
        } else {
            piece.push(c);
        }
    }
    assert(s@.take(s@.len() as int) == s@);
    pieces.push(piece);
    pieces
}

/// Whether `c` is one of the ten ASCII digits.
pub open spec fn is_digit(c: char) -> bool {
    '0' <= c <= '9'
}

/// The value of the digit `c`.
pub open spec fn digit_value(c: char) -> nat {
    (c as nat - '0' as nat) as nat
}

/// The number that the digits write in base ten; zero for no digits.
pub open spec fn decimal_value(digits: Seq<char>) -> nat
    decreases digits.len(),
{
    if digits.len() == 0 {
        0
    } else {
        decimal_value(digits.drop_last()) * 10 + digit_value(digits.last())
    }
}

/// What is left of `s` when a single leading `+` is taken off.
pub open spec fn unsigned_digits(s: Seq<char>) -> Seq<char> {
    if s.len() > 0 && s[0] == '+' {
        s.drop_first()
    } else {
        s
    }
}

/// The number that `s` writes, if it writes one: an optional `+`, then one
/// or more ASCII digits and nothing else. Leading zeros are allowed.
pub open spec fn unsigned_value(s: Seq<char>) -> Option<nat> {
    let digits = unsigned_digits(s);
    if digits.len() > 0 && (forall|i: int| 0 <= i < digits.len() ==> is_digit(#[trigger] digits[i])) {
        Some(decimal_value(digits))
    } else {
        None
    }
}

/// The number that `s` writes, if it writes one that is no greater than `max`.
pub open spec fn bounded_value(s: Seq<char>, max: nat) -> Option<nat> {
    match unsigned_value(s) {
        Some(value) if value <= max => Some(value),
        _ => None,
    }
}

/// The digit that writes `value`, for a value below ten.
pub open spec fn digit_of(value: nat) -> char {
    ('0' as nat + value) as char
}

/// The digits that write `value` in base ten, without leading zeros.
pub open spec fn decimal_digits(value: nat) -> Seq<char>
    decreases value,
{
    if value < 10 {
        seq![digit_of(value)]
    } else {
        decimal_digits(value / 10).push(digit_of(value % 10))
    }
}

/// The text that writes `value` in base ten, with `-` in front of a negative one.
pub open spec fn decimal_text(value: int) -> Seq<char> {
    if value < 0 {
        seq!['-'] + decimal_digits((-value) as nat)
    } else {
        decimal_digits(value as nat)
    }
}

/// Reads `text` as an unsigned decimal number no greater than `max`.
///
/// The number may have a `+` in front and leading zeros. Anything else
/// (no digits, a sign alone, a `-`, a space, a digit that is not ASCII, a
/// value above `max`) gives `None`.
pub fn parse_unsigned(text: &Vec<char>, max: u32) -> (r: Option<u32>)
    ensures
        r matches Some(value) ==> bounded_value(text@, max as nat) == Some(value as nat),
        r is None ==> bounded_value(text@, max as nat) is None,
{
    let first: usize = if text.len() > 0 && text[0] == '+' {
        1
    } else {
        0
    };
    let ghost digits = unsigned_digits(text@);
    if first == text.len() {
        return None;
    }
    let mut value: u64 = 0;
    let mut over: bool = false;
    let mut i: usize = first;
    while i < text.len()
        invariant
            first <= i <= text.len(),
            digits == unsigned_digits(text@),
            digits == text@.subrange(first as int, text@.len() as int),
            forall|j: int| 0 <= j < i - first ==> is_digit(#[trigger] digits[j]),
            over ==> decimal_value(digits.take(i - first)) > max,
            !over ==> value == decimal_value(digits.take(i - first)) && value <= max,
        decreases text.len() - i,
    {
        let c: char = text[i];
        if !('0' <= c && c <= '9') {
            assert(!is_digit(digits[i - first]));
            return None;
        }
        assert(digits.take(i - first + 1).drop_last() == digits.take(i - first));
        if !over {
            let d: u64 = digit_to_u64(c);
            value = value * 10 + d;
            if value > max as u64 {
                over = true;
            }
        }
        i = i + 1;
    }
    assert(digits.take(digits.len() as int) == digits);
    if over {
        None
    } else {
        Some(value as u32)
    }
}

/// The value of an ASCII digit.
fn digit_to_u64(c: char) -> (d: u64)
    requires
        is_digit(c),
    ensures
        d == digit_value(c),
        d <= 9,
{
    (c as u32 - '0' as u32) as u64
}

/// The ASCII digit of a value below ten.
fn digit_from_u64(d: u64) -> (c: char)
    requires
        d < 10,
    ensures
        c == digit_of(d as nat),
        is_digit(c),
        digit_value(c) == d,
{
    match d {
        0 => '0',
        1 => '1',
        2 => '2',
        3 => '3',
        4 => '4',
        5 => '5',
        6 => '6',
        7 => '7',
        8 => '8',
        _ => '9',
    }
}

/// Writes `value` in base ten.
pub fn format_decimal(value: i32) -> (r: String)
    ensures
        r@ == decimal_text(value as int),
{
    let negative: bool = value < 0;
    let magnitude: u64 = if negative {
        (-(value as i64)) as u64
    } else {
        value as u64
    };
    let mut reversed: Vec<char> = Vec::new();
    let mut rest: u64 = magnitude;
    reversed.push(digit_from_u64(rest % 10));
    rest = rest / 10;
    // `tail` is what the digits pushed so far write, last digit first.
    let ghost mut tail: Seq<char> = seq![digit_of((magnitude % 10) as nat)];
    while rest > 0
        invariant
            reversed@.len() >= 1,
            reversed@.reverse() == tail,
            rest > 0 ==> decimal_digits(magnitude as nat) == decimal_digits(rest as nat) + tail,
            rest == 0 ==> decimal_digits(magnitude as nat) == tail,
            tail.len() >= 1,
        decreases rest,
    {
        let d: char = digit_from_u64(rest % 10);
        proof {
            tail = seq![d] + tail;
        }
        reversed.push(d);
        rest = rest / 10;
    }
    let mut r = String::new();
    if negative {
        r.push('-');
    }
    let mut i: usize = reversed.len();
    while i > 0
        invariant
            i <= reversed.len(),
            reversed@.reverse() == tail,
            r@ == (if negative {
                seq!['-']
            } else {
                Seq::<char>::empty()
            }) + tail.take(reversed.len() - i),
        decreases i,
    {
        i = i - 1;
        r.push(reversed[i]);
    }
    r
}

} // verus!
