//! Text that goes into and comes out of a command: decimal numbers and UTF-8.

use crate::render::{decimal, digit};
use vstd::prelude::*;
use vstd::string::StringExecFns;
use vstd::utf8::{decode_utf8, valid_utf8};

verus! {

/// `String::from_utf8` of the standard library: the text that the bytes encode, or
/// nothing where the bytes are not valid UTF-8. No byte is replaced or dropped.
#[verifier::external_body]
pub(crate) fn from_utf8(bytes: Vec<u8>) -> (r: Option<String>)
    ensures
        r is Some <==> valid_utf8(bytes@),
        r is Some ==> r->Some_0@ == decode_utf8(bytes@),
{
    String::from_utf8(bytes).ok()
}

/// The literal of one decimal digit.
fn digit_text(d: u64) -> (r: &'static str)
    requires
        d < 10,
    ensures
        r@ == seq![digit(d as nat)],
{
    proof {
        reveal_strlit("0");
        reveal_strlit("1");
        reveal_strlit("2");
        reveal_strlit("3");
        reveal_strlit("4");
        reveal_strlit("5");
        reveal_strlit("6");
        reveal_strlit("7");
        reveal_strlit("8");
        reveal_strlit("9");
    }
    let r = if d == 0 {
        "0"
    } else if d == 1 {
        "1"
    } else if d == 2 {
        "2"
    } else if d == 3 {
        "3"
    } else if d == 4 {
        "4"
    } else if d == 5 {
        "5"
    } else if d == 6 {
        "6"
    } else if d == 7 {
        "7"
    } else if d == 8 {
        "8"
    } else {
        "9"
    };
    assert(r@ =~= seq![digit(d as nat)]);
    r
}

/// A number as plain decimal text.
pub fn decimal_text(number: u64) -> (r: String)
    ensures
        r@ == decimal(number as nat),
    decreases number,
{
    if number < 10 {
        String::from_str(digit_text(number))
    } else {
        let mut r = decimal_text(number / 10);
        r.append(digit_text(number % 10));
        assert(r@ =~= decimal(number as nat));
        r
    }
}

/// Whether a character is white space: one of the characters that Unicode classes as
/// `White_Space`.
pub open spec fn whitespace(c: char) -> bool {
    let code = c as u32;
    ||| 0x09 <= code <= 0x0d
    ||| code == 0x20
    ||| code == 0x85
    ||| code == 0xa0
    ||| code == 0x1680
    ||| 0x2000 <= code <= 0x200a
    ||| code == 0x2028
    ||| code == 0x2029
    ||| code == 0x202f
    ||| code == 0x205f
    ||| code == 0x3000
}

/// Whether a character is white space.
pub fn is_whitespace(c: char) -> (r: bool)
    ensures
        r == whitespace(c),
{
    let code = c as u32;
    (0x09 <= code && code <= 0x0d) || code == 0x20 || code == 0x85 || code == 0xa0 || code
        == 0x1680 || (0x2000 <= code && code <= 0x200a) || code == 0x2028 || code == 0x2029
        || code == 0x202f || code == 0x205f || code == 0x3000
}

/// The characters of a text, one by one.
pub fn chars_of(text: &str) -> (r: Vec<char>)
    ensures
        r@ == text@,
{
    let mut r: Vec<char> = Vec::new();
    for c in it: text.chars()
        invariant
            it.seq() == text@,
            r@ == text@.take(it.index() as int),
    {
        r.push(c);
        assert(r@ =~= text@.take(it.index() + 1));
    }
    assert(r@ =~= text@);
    r
}

/// `String::push` of the standard library: the character is appended to the text.
#[verifier::external_body]
pub(crate) fn push_char(text: &mut String, c: char)
    ensures
        final(text)@ == old(text)@.push(c),
{
    text.push(c)
}

/// The text of the characters from `from` up to, and without, `to`.
pub fn text_of(chars: &Vec<char>, from: usize, to: usize) -> (r: String)
    requires
        from <= to <= chars@.len(),
    ensures
        r@ == chars@.subrange(from as int, to as int),
{
    let mut r = String::new();
    let mut i: usize = from;
    assert(r@ =~= chars@.subrange(from as int, from as int));
    while i < to
        invariant
            from <= i <= to <= chars@.len(),
            r@ == chars@.subrange(from as int, i as int),
        decreases to - i,
    {
        push_char(&mut r, chars[i]);
        assert(r@ =~= chars@.subrange(from as int, i + 1));
        i += 1;
    }
    r
}

/// A text without the white space at its start.
pub open spec fn trimmed_start(text: Seq<char>) -> Seq<char>
    decreases text.len(),
{
    if text.len() > 0 && whitespace(text[0]) {
        trimmed_start(text.skip(1))
    } else {
        text
    }
}

/// A text without the white space at its end.
pub open spec fn trimmed_end(text: Seq<char>) -> Seq<char>
    decreases text.len(),
{
    if text.len() > 0 && whitespace(text.last()) {
        trimmed_end(text.drop_last())
    } else {
        text
    }
}

/// A text without the white space at its start and at its end.
pub open spec fn trimmed(text: Seq<char>) -> Seq<char> {
    trimmed_end(trimmed_start(text))
}

/// A text without the white space at its start and at its end.
pub fn trim(text: &str) -> (r: String)
    ensures
        r@ == trimmed(text@),
{
    let chars = chars_of(text);
    let n = chars.len();
    let mut from: usize = 0;
    assert(chars@.skip(0) =~= chars@);
    while from < n && is_whitespace(chars[from])
        invariant
            from <= n == chars@.len(),
            trimmed_start(chars@) == trimmed_start(chars@.skip(from as int)),
        decreases n - from,
    {
        assert(chars@.skip(from as int).skip(1) =~= chars@.skip(from + 1));
        from += 1;
    }
    let ghost rest = chars@.skip(from as int);
    assert(trimmed_start(chars@) == rest);
    let mut to: usize = n;
    assert(rest =~= chars@.subrange(from as int, to as int));
    while from < to && is_whitespace(chars[to - 1])
        invariant
            from <= to <= n == chars@.len(),
            trimmed_end(rest) == trimmed_end(chars@.subrange(from as int, to as int)),
        decreases to - from,
    {
        assert(chars@.subrange(from as int, to as int).drop_last() =~= chars@.subrange(
            from as int,
            to - 1,
        ));
        to -= 1;
    }
    text_of(&chars, from, to)
}

/// The number of characters before the first white space of a text.
pub open spec fn word_length(text: Seq<char>) -> nat
    decreases text.len(),
{
    if text.len() == 0 || whitespace(text[0]) {
        0
    } else {
        1 + word_length(text.skip(1))
    }
}

/// The words of a text: its longest runs of characters that are not white space, in
/// order.
pub open spec fn words(text: Seq<char>) -> Seq<Seq<char>>
    decreases text.len(),
{
    if text.len() == 0 {
        Seq::empty()
    } else if whitespace(text[0]) {
        words(text.skip(1))
    } else {
        let n = word_length(text) as int;
        if 0 < n <= text.len() {
            seq![text.take(n)] + words(text.skip(n))
        } else {
            Seq::empty()
        }
    }
}

/// The words of a text: its longest runs of characters that are not white space, in
/// order.
pub fn split_whitespace(text: &str) -> (r: Vec<String>)
    ensures
        r.deep_view() == words(text@),
{
    let chars = chars_of(text);
    let n = chars.len();
    let mut r: Vec<String> = Vec::new();
    let mut i: usize = 0;
    assert(chars@.skip(0) =~= chars@);
    assert(r.deep_view() =~= Seq::<Seq<char>>::empty());
    assert(r.deep_view() + words(chars@) =~= words(chars@));
    while i < n
        invariant
            i <= n == chars@.len(),
            words(chars@) == r.deep_view() + words(chars@.skip(i as int)),
        decreases n - i,
    {
        let ghost here = chars@.skip(i as int);
        if is_whitespace(chars[i]) {
            assert(here.skip(1) =~= chars@.skip(i + 1));
            i += 1;
        } else {
            let mut j: usize = i + 1;
            assert(here.skip(1) =~= chars@.skip(i + 1));
            while j < n && !is_whitespace(chars[j])
                invariant
                    i < j <= n == chars@.len(),
                    word_length(here) == (j - i) + word_length(chars@.skip(j as int)),
                decreases n - j,
            {
                assert(chars@.skip(j as int).skip(1) =~= chars@.skip(j + 1));
                j += 1;
            }
            let ghost before = r.deep_view();
            let word = text_of(&chars, i, j);
            assert(word_length(here) == j - i);
            assert(here.take(j - i) =~= chars@.subrange(i as int, j as int));
            assert(here.skip(j - i) =~= chars@.skip(j as int));
            r.push(word);
            assert(r.deep_view() =~= before + seq![word@]);
            assert(before + (seq![word@] + words(chars@.skip(j as int))) =~= r.deep_view()
                + words(chars@.skip(j as int)));
            i = j;
        }
    }
    assert(r.deep_view() + words(chars@.skip(n as int)) =~= r.deep_view());
    r
}

/// Whether a character is one of the ten decimal digits.
pub open spec fn decimal_digit(c: char) -> bool {
    0x30 <= c as u32 <= 0x39
}

/// The number that decimal digits stand for.
pub open spec fn digits_value(digits: Seq<char>) -> nat
    decreases digits.len(),
{
    if digits.len() == 0 {
        0
    } else {
        digits_value(digits.drop_last()) * 10 + (digits.last() as u32 - 0x30) as nat
    }
}

/// The digits of a number text: what follows a plus sign at its start, or all of it.
pub open spec fn unsigned_part(text: Seq<char>) -> Seq<char> {
    if text.len() > 0 && text[0] == '+' {
        text.skip(1)
    } else {
        text
    }
}

/// The number that a text stands for: one or more decimal digits, after a plus sign or
/// after none, that together do not exceed the largest 32-bit number.
pub open spec fn parsed_u32(text: Seq<char>) -> Option<u32> {
    let digits = unsigned_part(text);
    if digits.len() > 0 && (forall|i: int| 0 <= i < digits.len() ==> decimal_digit(#[trigger] digits[i]))
        && digits_value(digits) <= u32::MAX {
        Some(digits_value(digits) as u32)
    } else {
        None
    }
}

/// The digits read so far stand for no more than all the digits do.
pub proof fn lemma_digits_value_grows(digits: Seq<char>, count: int)
    requires
        0 <= count <= digits.len(),
        forall|i: int| 0 <= i < digits.len() ==> decimal_digit(#[trigger] digits[i]),
    ensures
        digits_value(digits.take(count)) <= digits_value(digits),
    decreases digits.len(),
{
    if count == digits.len() {
        assert(digits.take(count) =~= digits);
    } else {
        let front = digits.drop_last();
        assert(front.take(count) =~= digits.take(count));
        assert forall|i: int| 0 <= i < front.len() implies decimal_digit(#[trigger] front[i]) by {
            assert(front[i] == digits[i]);
        }
        lemma_digits_value_grows(front, count);
        assert(decimal_digit(digits[digits.len() - 1]));
    }
}

/// Reads a 32-bit number from its decimal text.
pub fn parse_u32(text: &str) -> (r: Option<u32>)
    ensures
        r == parsed_u32(text@),
{
    let chars = chars_of(text);
    let n = chars.len();
    let start: usize = if n > 0 && chars[0] == '+' {
        1
    } else {
        0
    };
    let ghost digits = unsigned_part(chars@);
    assert(digits =~= chars@.skip(start as int));
    if start == n {
        return None;
    }
    let mut value: u64 = 0;
    let mut i: usize = start;
    assert(digits.take(0) =~= Seq::<char>::empty());
    while i < n
        invariant
            start <= i <= n == chars@.len(),
            chars@ == text@,
            digits == unsigned_part(chars@),
            digits == chars@.skip(start as int),
            forall|k: int| 0 <= k < i - start ==> decimal_digit(#[trigger] digits[k]),
            value == digits_value(digits.take(i - start)),
            value <= u32::MAX,
        decreases n - i,
    {
        let code = chars[i] as u32;
        assert(digits[i - start] == chars@[i as int]);
        if code < 0x30 || code > 0x39 {
            assert(!decimal_digit(digits[i - start]));
            return None;
        }
        assert(digits.take(i + 1 - start).drop_last() =~= digits.take(i - start));
        assert(digits.take(i + 1 - start).last() == digits[i - start]);
        let next: u64 = value * 10 + (code - 0x30) as u64;
        if next > 0xffff_ffff {
            proof {
                if forall|k: int| 0 <= k < digits.len() ==> decimal_digit(#[trigger] digits[k]) {
                    lemma_digits_value_grows(digits, i + 1 - start);
                }
            }
            return None;
        }
        value = next;
        i += 1;
    }
    assert(digits.take(n - start) =~= digits);
    Some(value as u32)
}

/// A text in which each occurrence of `from` is replaced by `to`. Occurrences are
/// looked for from the start, and one that begins inside an earlier one does not
/// count.
pub open spec fn replaced(text: Seq<char>, from: Seq<char>, to: Seq<char>) -> Seq<char>
    decreases text.len(),
{
    if from.len() == 0 || text.len() < from.len() {
        text
    } else if text.take(from.len() as int) == from {
        to + replaced(text.skip(from.len() as int), from, to)
    } else {
        seq![text[0]] + replaced(text.skip(1), from, to)
    }
}

/// Whether `pattern` stands in `chars` at `at`.
fn occurs_at(chars: &Vec<char>, pattern: &Vec<char>, at: usize) -> (r: bool)
    requires
        at <= chars@.len(),
    ensures
        r == (pattern@.len() <= chars@.len() - at && chars@.skip(at as int).take(
            pattern@.len() as int,
        ) == pattern@),
{
    let m = pattern.len();
    if chars.len() - at < m {
        return false;
    }
    let ghost window = chars@.skip(at as int).take(m as int);
    let mut k: usize = 0;
    while k < m
        invariant
            k <= m == pattern@.len(),
            at + m <= chars.len(),
            window == chars@.skip(at as int).take(m as int),
            forall|j: int| 0 <= j < k ==> window[j] == pattern@[j],
        decreases m - k,
    {
        assert(window[k as int] == chars@[at + k]);
        if chars[at + k] != pattern[k] {
            return false;
        }
        k += 1;
    }
    assert(window =~= pattern@);
    true
}

/// Replaces each occurrence of `from` in a text by `to`.
pub fn replace(text: &str, from: &str, to: &str) -> (r: String)
    requires
        from@.len() > 0,
    ensures
        r@ == replaced(text@, from@, to@),
{
    let chars = chars_of(text);
    let pattern = chars_of(from);
    let n = chars.len();
    let m = pattern.len();
    let mut r = String::new();
    let mut i: usize = 0;
    assert(chars@.skip(0) =~= chars@);
    assert(r@ + replaced(chars@, from@, to@) =~= replaced(chars@, from@, to@));
    while i < n
        invariant
            i <= n == chars@.len(),
            m == pattern@.len(),
            m > 0,
            pattern@ == from@,
            replaced(chars@, from@, to@) == r@ + replaced(chars@.skip(i as int), from@, to@),
        decreases n - i,
    {
        let ghost here = chars@.skip(i as int);
        let ghost before = r@;
        if occurs_at(&chars, &pattern, i) {
            r.append(to);
            assert(here.skip(m as int) =~= chars@.skip(i + m));
            assert(before + (to@ + replaced(here.skip(m as int), from@, to@)) =~= r@ + replaced(
                chars@.skip(i + m),
                from@,
                to@,
            ));
            i += m;
        } else {
            push_char(&mut r, chars[i]);
            assert(here.skip(1) =~= chars@.skip(i + 1));
            assert(here[0] == chars@[i as int]);
            proof {
                if here.len() < m as nat {
                    assert(replaced(here.skip(1), from@, to@) == here.skip(1));
                    assert(here =~= seq![here[0]] + here.skip(1));
                }
            }
            assert(before + (seq![here[0]] + replaced(here.skip(1), from@, to@)) =~= r@
                + replaced(chars@.skip(i + 1), from@, to@));
            i += 1;
        }
    }
    assert(r@ + replaced(chars@.skip(n as int), from@, to@) =~= r@);
    r
}

} // verus!
