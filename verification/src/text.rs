//! Operations on text, stated over the sequence of characters that a string holds.

use vstd::prelude::*;
use vstd::utf8::{decode_utf8, encode_utf8, encode_utf8_decode_utf8, valid_utf8};

verus! {

/// What is left of a log line's text is marked with this suffix when it was cut.
pub const TRUNCATION_MARK: &'static str = "…[truncated]";

/// `text` begins with `prefix`.
pub open spec fn has_prefix(text: Seq<char>, prefix: Seq<char>) -> bool {
    prefix.len() <= text.len() && text.take(prefix.len() as int) == prefix
}

/// `part` stands somewhere in `text`.
pub open spec fn has_part(text: Seq<char>, part: Seq<char>) -> bool {
    exists|start: int|
        0 <= start <= text.len() - part.len() && #[trigger] text.subrange(
            start,
            start + part.len(),
        ) == part
}

/// The first `max_chars` characters of `text`, or all of it where it is shorter.
pub open spec fn first_chars(text: Seq<char>, max_chars: nat) -> Seq<char> {
    if text.len() <= max_chars {
        text
    } else {
        text.take(max_chars as int)
    }
}

/// The text, or its first `max_chars` characters with a mark behind them where it is longer.
pub open spec fn truncated_text(text: Seq<char>, max_chars: nat) -> Seq<char> {
    if text.len() <= max_chars {
        text
    } else {
        text.take(max_chars as int) + TRUNCATION_MARK@
    }
}

/// A character with the Unicode property White_Space.
pub open spec fn is_white_space(c: char) -> bool {
    let code = c as u32;
    ||| 0x09 <= code <= 0x0d
    ||| code == 0x20
    ||| code == 0x85
    ||| code == 0xa0
    ||| code == 0x1680
    ||| 0x2000 <= code <= 0x200a
    ||| code == 0x2028
    ||| code == 0x2029
    ||| code == 0x202f
    ||| code == 0x205f
    ||| code == 0x3000
}

/// `text` without the white space that it starts with.
pub open spec fn trim_start_text(text: Seq<char>) -> Seq<char>
    decreases text.len(),
{
    if text.len() > 0 && is_white_space(text[0]) {
        trim_start_text(text.skip(1))
    } else {
        text
    }
}

/// `text` without the white space that it ends with.
pub open spec fn trim_end_text(text: Seq<char>) -> Seq<char>
    decreases text.len(),
{
    if text.len() > 0 && is_white_space(text.last()) {
        trim_end_text(text.drop_last())
    } else {
        text
    }
}

/// `text` without the white space at its two ends.
pub open spec fn trim_text(text: Seq<char>) -> Seq<char> {
    trim_end_text(trim_start_text(text))
}

/// The parts in their order, with `separator` between each two of them.
pub open spec fn join_texts(parts: Seq<Seq<char>>, separator: Seq<char>) -> Seq<char>
    decreases parts.len(),
{
    if parts.len() == 0 {
        Seq::empty()
    } else if parts.len() == 1 {
        parts[0]
    } else {
        join_texts(parts.drop_last(), separator) + separator + parts.last()
    }
}

/// The decimal digits of `n`, without leading zeros.
pub open spec fn decimal_text(n: nat) -> Seq<char>
    decreases n,
{
    if n < 10 {
        seq![digit_char(n)]
    } else {
        decimal_text(n / 10).push(digit_char(n % 10))
    }
}

/// The character of one decimal digit.
pub open spec fn digit_char(n: nat) -> char {
    (('0' as u32) + n) as char
}

pub open spec fn is_digit(c: char) -> bool {
    '0' as u32 <= c as u32 <= '9' as u32
}

/// What a sequence of decimal digits counts.
pub open spec fn decimal_value(digits: Seq<char>) -> nat
    decreases digits.len(),
{
    if digits.len() == 0 {
        0
    } else {
        decimal_value(digits.drop_last()) * 10 + (digits.last() as u32 - '0' as u32) as nat
    }
}

/// The number that `text` writes out: decimal digits, at least one, after an optional plus
/// sign, with a value that 64 bits can hold. `None` for any other text.
pub open spec fn u64_of_text(text: Seq<char>) -> Option<u64> {
    if text.len() > 0 && text[0] == '+' {
        u64_of_digits(text.skip(1))
    } else {
        u64_of_digits(text)
    }
}

/// The number that `digits` writes out, where they are decimal digits, at least one, with a
/// value that 64 bits can hold.
pub open spec fn u64_of_digits(digits: Seq<char>) -> Option<u64> {
    if digits.len() > 0 && (forall|i: int| 0 <= i < digits.len() ==> is_digit(#[trigger] digits[i]))
        && decimal_value(digits) <= u64::MAX {
        Some(decimal_value(digits) as u64)
    } else {
        None
    }
}

/// The views of a sequence of strings.
pub open spec fn views(strings: Seq<String>) -> Seq<Seq<char>> {
    Seq::new(strings.len(), |i: int| strings[i]@)
}

/// What is read of bytes that are taken for UTF-8, with replacement characters where they are
/// none.
pub uninterp spec fn lossy_text(bytes: Seq<u8>) -> Seq<char>;

/// `String::from_utf8_lossy`: the text of bytes that are UTF-8, and some text for any others. By
/// which rule it places replacement characters is left unsaid.
#[verifier::external_body]
pub(crate) fn text_from_bytes(bytes: &[u8]) -> (r: String)
    ensures
        r@ == lossy_text(bytes@),
        valid_utf8(bytes@) ==> r@ == decode_utf8(bytes@),
{
    String::from_utf8_lossy(bytes).into_owned()
}

/// Whether two strings hold the same characters.
pub fn str_eq(a: &str, b: &str) -> (r: bool)
    ensures
        r == (a@ == b@),
{
    let x = a.as_bytes();
    let y = b.as_bytes();
    proof {
        encode_utf8_decode_utf8(a@);
        encode_utf8_decode_utf8(b@);
    }
    if x.len() != y.len() {
        return false;
    }
    let mut i: usize = 0;
    while i < x.len()
        invariant
            x@ == encode_utf8(a@),
            y@ == encode_utf8(b@),
            x@.len() == y@.len(),
            i <= x@.len(),
            forall|j: int| 0 <= j < i ==> x@[j] == y@[j],
        decreases x@.len() - i,
    {
        if x[i] != y[i] {
            return false;
        }
        i = i + 1;
    }
    proof {
        assert(x@ =~= y@);
    }
    true
}

/// Whether `text` begins with `prefix`.
pub fn starts_with(text: &str, prefix: &str) -> (r: bool)
    ensures
        r == has_prefix(text@, prefix@),
{
    let n: usize = prefix.unicode_len();
    if text.unicode_len() < n {
        return false;
    }
    let head = text.substring_char(0, n);
    proof {
        assert(head@ =~= text@.take(n as int));
    }
    str_eq(head, prefix)
}

/// The first `max_chars` characters of `text`.
pub fn take_chars(text: &str, max_chars: usize) -> (r: String)
    ensures
        r@ == first_chars(text@, max_chars as nat),
{
    if text.unicode_len() <= max_chars {
        text.to_owned()
    } else {
        let head = text.substring_char(0, max_chars);
        proof {
            assert(head@ =~= text@.take(max_chars as int));
        }
        head.to_owned()
    }
}

/// Truncates a string to `max_chars` characters with an ellipsis suffix when truncated.
/// It counts characters, so a multibyte character is never split.
pub fn truncate_for_log(s: &str, max_chars: usize) -> (r: String)
    ensures
        r@ == truncated_text(s@, max_chars as nat),
{
    if s.unicode_len() <= max_chars {
        s.to_owned()
    } else {
        let mut out = take_chars(s, max_chars);
        out.append(TRUNCATION_MARK);
        out
    }
}

/// Whether a character has the Unicode property White_Space.
fn white_space(c: char) -> (r: bool)
    ensures
        r == is_white_space(c),
{
    let code: u32 = c as u32;
    (0x09 <= code && code <= 0x0d) || code == 0x20 || code == 0x85 || code == 0xa0 || code == 0x1680
        || (0x2000 <= code && code <= 0x200a) || code == 0x2028 || code == 0x2029 || code == 0x202f
        || code == 0x205f || code == 0x3000
}

/// The part of `text` between the white space at its two ends.
pub fn trim(text: &str) -> (r: &str)
    ensures
        r@ == trim_text(text@),
{
    let n: usize = text.unicode_len();
    let mut start: usize = 0;
    proof {
        assert(text@.skip(0) =~= text@);
    }
    while start < n && white_space(text.get_char(start))
        invariant
            n == text@.len(),
            start <= n,
            trim_start_text(text@) == trim_start_text(text@.skip(start as int)),
        decreases n - start,
    {
        proof {
            assert(text@.skip(start as int).skip(1) =~= text@.skip(start + 1));
        }
        start = start + 1;
    }
    let mut end: usize = n;
    proof {
        assert(trim_start_text(text@) == text@.skip(start as int));
        assert(text@.subrange(start as int, n as int) =~= text@.skip(start as int));
    }
    while end > start && white_space(text.get_char(end - 1))
        invariant
            n == text@.len(),
            start <= end <= n,
            trim_text(text@) == trim_end_text(text@.subrange(start as int, end as int)),
        decreases end,
    {
        proof {
            assert(text@.subrange(start as int, end as int).drop_last() =~= text@.subrange(
                start as int,
                end - 1,
            ));
        }
        end = end - 1;
    }
    text.substring_char(start, end)
}

/// The text of one decimal digit.
fn digit_str(n: u16) -> (r: &'static str)
    requires
        n < 10,
    ensures
        r@ == seq![digit_char(n as nat)],
{
    proof {
        reveal_strlit("0");
        reveal_strlit("1");
        reveal_strlit("2");
        reveal_strlit("3");
        reveal_strlit("4");
        reveal_strlit("5");
        reveal_strlit("6");
        reveal_strlit("7");
        reveal_strlit("8");
        reveal_strlit("9");
    }
    if n == 0 {
        "0"
    } else if n == 1 {
        "1"
    } else if n == 2 {
        "2"
    } else if n == 3 {
        "3"
    } else if n == 4 {
        "4"
    } else if n == 5 {
        "5"
    } else if n == 6 {
        "6"
    } else if n == 7 {
        "7"
    } else if n == 8 {
        "8"
    } else {
        "9"
    }
}

/// The decimal digits of `n`.
pub fn decimal(n: u16) -> (r: String)
    ensures
        r@ == decimal_text(n as nat),
    decreases n,
{
    if n < 10 {
        digit_str(n).to_owned()
    } else {
        let mut out = decimal(n / 10);
        out.append(digit_str(n % 10));
        proof {
            assert(out@ =~= decimal_text(n as nat));
        }
        out
    }
}

proof fn lemma_decimal_value_grows(digits: Seq<char>, upto: int)
    requires
        0 <= upto <= digits.len(),
        forall|i: int| 0 <= i < digits.len() ==> is_digit(#[trigger] digits[i]),
    ensures
        decimal_value(digits.take(upto)) <= decimal_value(digits),
    decreases digits.len() - upto,
{
    if upto == digits.len() {
        assert(digits.take(upto) =~= digits);
    } else {
        lemma_decimal_value_grows(digits, upto + 1);
        assert(digits.take(upto + 1).drop_last() =~= digits.take(upto));
        assert(digits.take(upto + 1).last() == digits[upto]);
    }
}

/// Reads an unsigned decimal number: digits after an optional plus sign.
pub fn parse_u64(text: &str) -> (r: Option<u64>)
    ensures
        r == u64_of_text(text@),
{
    let n: usize = text.unicode_len();
    if n == 0 {
        return None;
    }
    let first: usize = if text.get_char(0) == '+' {
        1
    } else {
        0
    };
    let ghost digits = text@.skip(first as int);
    proof {
        assert(text@.skip(0) =~= text@);
    }
    if first == n {
        return None;
    }
    let mut i: usize = first;
    let mut value: u64 = 0;
    while i < n
        invariant
            n == text@.len(),
            first <= i <= n,
            first < n,
            digits == text@.skip(first as int),
            u64_of_text(text@) == u64_of_digits(digits),
            forall|j: int| 0 <= j < i - first ==> is_digit(#[trigger] digits[j]),
            value == decimal_value(digits.take(i - first)),
        decreases n - i,
    {
        let c = text.get_char(i);
        proof {
            assert(digits[i - first] == c);
            assert(digits.take(i + 1 - first).drop_last() =~= digits.take(i - first));
            assert(digits.take(i + 1 - first).last() == c);
        }
        let code: u32 = c as u32;
        if code < 48 || code > 57 {
            return None;
        }
        let digit: u64 = (code - 48) as u64;
        if value > (u64::MAX - digit) / 10 {
            proof {
                if forall|j: int| 0 <= j < digits.len() ==> is_digit(#[trigger] digits[j]) {
                    lemma_decimal_value_grows(digits, i + 1 - first);
                    assert(decimal_value(digits.take(i + 1 - first)) == value * 10 + digit);
                }
            }
            return None;
        }
        value = value * 10 + digit;
        i = i + 1;
    }
    proof {
        assert(digits.take(n - first) =~= digits);
    }
    Some(value)
}

/// The parts in their order, with `separator` between each two of them.
pub fn join(parts: &Vec<String>, separator: &str) -> (r: String)
    ensures
        r@ == join_texts(views(parts@), separator@),
{
    let mut out = String::new();
    let mut i: usize = 0;
    while i < parts.len()
        invariant
            i <= parts@.len(),
            out@ == join_texts(views(parts@).take(i as int), separator@),
        decreases parts@.len() - i,
    {
        if i > 0 {
            out.append(separator);
        }
        out.append(parts[i].as_str());
        proof {
            let before = views(parts@).take(i as int);
            let after = views(parts@).take(i + 1);
            assert(after.drop_last() =~= before);
            assert(after.last() == parts@[i as int]@);
            assert(out@ =~= join_texts(after, separator@));
        }
        i = i + 1;
    }
    proof {
        assert(views(parts@).take(i as int) =~= views(parts@));
    }
    out
}

/// What stands between two texts stands in the whole.
pub proof fn lemma_has_part(before: Seq<char>, part: Seq<char>, after: Seq<char>)
    ensures
        has_part(before + part + after, part),
{
    let text = before + part + after;
    let start = before.len() as int;
    assert(text.subrange(start, start + part.len()) =~= part);
}

/// A part of a part is a part.
pub proof fn lemma_part_of_part(text: Seq<char>, outer: Seq<char>, inner: Seq<char>)
    requires
        has_part(text, outer),
        has_part(outer, inner),
    ensures
        has_part(text, inner),
{
    let i = choose|start: int|
        0 <= start <= text.len() - outer.len() && #[trigger] text.subrange(
            start,
            start + outer.len(),
        ) == outer;
    let j = choose|start: int|
        0 <= start <= outer.len() - inner.len() && #[trigger] outer.subrange(
            start,
            start + inner.len(),
        ) == inner;
    assert(text.subrange(i + j, i + j + inner.len()) =~= inner);
}

/// Each of the joined parts stands in the whole.
pub proof fn lemma_joined_part(parts: Seq<Seq<char>>, separator: Seq<char>, i: int)
    requires
        0 <= i < parts.len(),
    ensures
        has_part(join_texts(parts, separator), parts[i]),
    decreases parts.len(),
{
    let joined = join_texts(parts, separator);
    if parts.len() == 1 {
        lemma_has_part(Seq::empty(), joined, Seq::empty());
        assert(Seq::empty() + joined + Seq::empty() =~= joined);
    } else {
        let front = join_texts(parts.drop_last(), separator);
        if i == parts.len() - 1 {
            lemma_has_part(front + separator, parts[i], Seq::empty());
            assert((front + separator) + parts[i] + Seq::empty() =~= joined);
        } else {
            lemma_joined_part(parts.drop_last(), separator, i);
            lemma_has_part(Seq::empty(), front, separator + parts.last());
            assert(Seq::empty() + front + (separator + parts.last()) =~= joined);
            lemma_part_of_part(joined, front, parts[i]);
        }
    }
}

/// What is kept of a text that is cut is its beginning, as much of it as may be kept.
pub proof fn law_first_chars_are_the_beginning(text: Seq<char>, max_chars: nat)
    ensures
        first_chars(text, max_chars).is_prefix_of(text),
        first_chars(text, max_chars).len() == if text.len() <= max_chars {
            text.len()
        } else {
            max_chars
        },
{
}

/// A text that is short enough goes to the log as it is. Of any other one exactly the allowed
/// number of characters is kept, and the mark behind them tells that something is missing.
pub proof fn law_truncation_is_marked(text: Seq<char>, max_chars: nat)
    ensures
        ({
            let shown = truncated_text(text, max_chars);
            &&& text.len() <= max_chars ==> shown == text
            &&& text.len() > max_chars ==> {
                &&& shown.len() == max_chars + "…[truncated]"@.len()
                &&& shown.take(max_chars as int).is_prefix_of(text)
                &&& shown.skip(max_chars as int) == "…[truncated]"@
            }
        }),
{
    if text.len() > max_chars {
        let shown = truncated_text(text, max_chars);
        assert(shown.take(max_chars as int) =~= text.take(max_chars as int));
        assert(shown.skip(max_chars as int) =~= TRUNCATION_MARK@);
    }
}

proof fn lemma_trim_start(text: Seq<char>) -> (start: int)
    ensures
        0 <= start <= text.len(),
        trim_start_text(text) == text.skip(start),
        forall|i: int| 0 <= i < start ==> is_white_space(#[trigger] text[i]),
        start < text.len() ==> !is_white_space(text[start]),
    decreases text.len(),
{
    if text.len() > 0 && is_white_space(text[0]) {
        let rest = lemma_trim_start(text.skip(1));
        assert(text.skip(1).skip(rest) =~= text.skip(rest + 1));
        assert forall|i: int| 0 <= i < rest + 1 implies is_white_space(#[trigger] text[i]) by {
            if i > 0 {
                assert(text.skip(1)[i - 1] == text[i]);
            }
        }
        rest + 1
    } else {
        assert(text.skip(0) =~= text);
        0
    }
}

proof fn lemma_trim_end(text: Seq<char>) -> (end: int)
    ensures
        0 <= end <= text.len(),
        trim_end_text(text) == text.take(end),
        forall|i: int| end <= i < text.len() ==> is_white_space(#[trigger] text[i]),
        end > 0 ==> !is_white_space(text[end - 1]),
    decreases text.len(),
{
    if text.len() > 0 && is_white_space(text.last()) {
        let end = lemma_trim_end(text.drop_last());
        assert(text.drop_last().take(end) =~= text.take(end));
        assert forall|i: int| end <= i < text.len() implies is_white_space(#[trigger] text[i]) by {
            if i < text.len() - 1 {
                assert(text.drop_last()[i] == text[i]);
            }
        }
        end
    } else {
        assert(text.take(text.len() as int) =~= text);
        text.len() as int
    }
}

/// Trimming takes off white space at the two ends and nothing else, and leaves none there.
pub proof fn law_trimming_takes_white_space_off(text: Seq<char>) -> (ends: (Seq<char>, Seq<char>))
    ensures
        text == ends.0 + trim_text(text) + ends.1,
        forall|i: int| 0 <= i < ends.0.len() ==> is_white_space(#[trigger] ends.0[i]),
        forall|i: int| 0 <= i < ends.1.len() ==> is_white_space(#[trigger] ends.1[i]),
        trim_text(text).len() > 0 ==> !is_white_space(trim_text(text)[0]) && !is_white_space(
            trim_text(text).last(),
        ),
{
    let start = lemma_trim_start(text);
    let rest = text.skip(start);
    let end = lemma_trim_end(rest);
    let ends = (text.take(start), rest.skip(end));
    assert(text =~= ends.0 + trim_text(text) + ends.1);
    assert forall|i: int| 0 <= i < ends.1.len() implies is_white_space(#[trigger] ends.1[i]) by {
        assert(ends.1[i] == rest[end + i]);
    }
    ends
}

/// Joining two lists one behind the other puts the separator between what each joins to; a
/// single part is joined to itself, and no part to nothing.
pub proof fn law_joining_lists(a: Seq<Seq<char>>, b: Seq<Seq<char>>, separator: Seq<char>)
    ensures
        a.len() == 0 ==> join_texts(a, separator).len() == 0,
        a.len() == 1 ==> join_texts(a, separator) == a[0],
        a.len() > 0 && b.len() > 0 ==> join_texts(a + b, separator) == join_texts(a, separator)
            + separator + join_texts(b, separator),
    decreases b.len(),
{
    if a.len() > 0 && b.len() == 1 {
        assert((a + b).drop_last() =~= a);
    } else if a.len() > 0 && b.len() > 1 {
        law_joining_lists(a, b.drop_last(), separator);
        assert((a + b).drop_last() =~= a + b.drop_last());
        assert(join_texts(a + b, separator) =~= join_texts(a, separator) + separator + join_texts(
            b,
            separator,
        ));
    }
}

/// The digits that a number is written with count that number, and are all digits; the first
/// one is a zero only where the number is.
pub proof fn law_decimal_text_counts(n: nat)
    ensures
        decimal_text(n).len() > 0,
        forall|i: int| 0 <= i < decimal_text(n).len() ==> is_digit(#[trigger] decimal_text(n)[i]),
        decimal_value(decimal_text(n)) == n,
        decimal_text(n)[0] == '0' ==> n == 0,
    decreases n,
{
    reveal_with_fuel(decimal_value, 2);
    let text = decimal_text(n);
    if n < 10 {
        assert(text.drop_last() =~= Seq::empty());
        assert(is_digit(digit_char(n)));
    } else {
        law_decimal_text_counts(n / 10);
        let before = decimal_text(n / 10);
        assert(text.drop_last() =~= before);
        assert(is_digit(digit_char(n % 10)));
        assert(text[0] == before[0]);
        assert forall|i: int| 0 <= i < text.len() implies is_digit(#[trigger] text[i]) by {
            if i < before.len() {
                assert(text[i] == before[i]);
            }
        }
    }
}

/// A number of 64 bits reads back from the digits that it is written with, with or without a
/// plus sign before them; a greater one does not.
pub proof fn law_written_numbers_read_back(n: nat)
    ensures
        u64_of_text(decimal_text(n)) == if n <= u64::MAX {
            Some(n as u64)
        } else {
            None
        },
        u64_of_text(seq!['+'] + decimal_text(n)) == u64_of_text(decimal_text(n)),
{
    law_decimal_text_counts(n);
    let text = decimal_text(n);
    assert(is_digit(text[0]));
    assert((seq!['+'] + text).skip(1) =~= text);
}

/// A text in which something other than a digit stands, but for one plus sign before all digits,
/// writes out no number, and neither does one without digits.
pub proof fn law_other_texts_are_no_numbers(text: Seq<char>, i: int)
    requires
        text.len() == 0 || (0 <= i < text.len() && !is_digit(text[i]) && (i > 0 || text[0] != '+'
            || text.len() == 1)),
    ensures
        u64_of_text(text) is None,
{
    if text.len() > 0 && text[0] == '+' && text.len() > 1 {
        assert(text.skip(1)[i - 1] == text[i]);
    }
}

/// A zero before digits changes nothing of what they count, and each digit behind them makes ten
/// times as much of it, and its own share.
pub proof fn law_digits_count_by_place(digits: Seq<char>, more: char)
    ensures
        decimal_value(digits.push(more)) == decimal_value(digits) * 10 + (more as u32
            - '0' as u32) as nat,
        decimal_value(seq!['0'] + digits) == decimal_value(digits),
    decreases digits.len(),
{
    reveal_with_fuel(decimal_value, 2);
    assert(digits.push(more).drop_last() =~= digits);
    let padded = seq!['0'] + digits;
    if digits.len() == 0 {
        assert(padded.drop_last() =~= Seq::empty());
    } else {
        law_digits_count_by_place(digits.drop_last(), more);
        assert(padded.drop_last() =~= seq!['0'] + digits.drop_last());
    }
}

/// White space is the tabs and line breaks of ASCII, the space, and what Unicode adds to them:
/// the next line, the spaces of other widths, and the separators of lines and paragraphs.
pub proof fn law_what_is_white_space(c: char)
    ensures
        c == ' ' || c == '\t' || c == '\n' || c == '\r' || c == '\u{b}' || c == '\u{c}'
            ==> is_white_space(c),
        c == '\u{85}' || c == '\u{a0}' || c == '\u{1680}' || c == '\u{202f}' || c == '\u{205f}'
            || c == '\u{3000}' ==> is_white_space(c),
        c == '\u{2028}' || c == '\u{2029}' || 0x2000 <= c as u32 <= 0x200a
            ==> is_white_space(c),
        is_white_space(c) && (c as u32) < 0x80 ==> c == ' ' || 9 <= c as u32 <= 13,
        is_white_space(c) && 0x80 <= (c as u32) && (c as u32) < 0x2000 ==> c == '\u{85}' || c
            == '\u{a0}' || c == '\u{1680}',
        is_white_space(c) && 0x2000 <= c as u32 ==> c as u32 <= 0x200a || c == '\u{2028}' || c
            == '\u{2029}' || c == '\u{202f}' || c == '\u{205f}' || c == '\u{3000}',
{
}

/// The views of texts stand where the texts do.
pub proof fn law_views_stand_where_the_texts_do(strings: Seq<String>, i: int)
    ensures
        views(strings).len() == strings.len(),
        0 <= i < strings.len() ==> views(strings)[i] == strings[i]@,
{
}

}
