//! Small verified helpers on text.

use vstd::prelude::*;
use vstd::string::*;

verus! {

/// The decimal digits.
pub open spec fn decimal_digits() -> Seq<char> {
    seq!['0', '1', '2', '3', '4', '5', '6', '7', '8', '9']
}

/// The decimal numeral of `n`, without sign or leading zeros.
pub open spec fn decimal(n: nat) -> Seq<char>
    decreases n,
{
    if n < 10 {
        seq![decimal_digits()[n as int]]
    } else {
        decimal(n / 10) + seq![decimal_digits()[(n % 10) as int]]
    }
}

/// The parts of `parts` written one after another, with nothing between
/// them.
pub open spec fn concat_all(parts: Seq<Seq<char>>) -> Seq<char>
    decreases parts.len(),
{
    if parts.len() == 0 {
        Seq::empty()
    } else {
        concat_all(parts.drop_last()) + parts.last()
    }
}

/// Writing out two lists of parts in a row is writing out the first and
/// then the second.
pub proof fn lemma_concat_all_append(first: Seq<Seq<char>>, second: Seq<Seq<char>>)
    ensures
        concat_all(first + second) == concat_all(first) + concat_all(second),
    decreases second.len(),
{
    if second.len() == 0 {
        assert(first + second =~= first);
    } else {
        lemma_concat_all_append(first, second.drop_last());
        assert((first + second).drop_last() =~= first + second.drop_last());
        assert((first + second).last() == second.last());
        assert(concat_all(first + second) =~= concat_all(first) + concat_all(second));
    }
}

/// The decimal numeral of `n`.
pub fn decimal_text(n: usize) -> (text: String)
    ensures
        text@ == decimal(n as nat),
{
    let digits = "0123456789";
    proof {
        reveal_strlit("0123456789");
    }
    assert(digits@ =~= decimal_digits());
    let last: usize = n % 10;
    let mut text = String::from_str(digits.substring_char(last, last + 1));
    let mut rest: usize = n / 10;
    assert(text@ =~= seq![decimal_digits()[(n % 10) as int]]);
    while rest > 0
        invariant
            digits@ == decimal_digits(),
            decimal(n as nat) == if rest == 0 {
                text@
            } else {
                decimal(rest as nat) + text@
            },
        decreases rest,
    {
        let digit: usize = rest % 10;
        let mut longer = String::from_str(digits.substring_char(digit, digit + 1));
        longer.append(text.as_str());
        proof {
            assert(longer@ =~= seq![decimal_digits()[digit as int]] + text@);
            if rest >= 10 {
                assert(decimal(rest as nat) + text@ =~= decimal((rest / 10) as nat) + longer@);
            }
        }
        text = longer;
        rest = rest / 10;
    }
    text
}

/// `String::push`: appends `c` to the end of `text`.
pub assume_specification[ String::push ](text: &mut String, c: char)
    ensures
        final(text)@ == old(text)@.push(c),
;

/// The characters of `text`.
pub fn chars_of(text: &str) -> (chars: Vec<char>)
    ensures
        chars@ == text@,
{
    let mut chars: Vec<char> = Vec::new();
    let source = text.chars();
    for c in it: source
        invariant
            it.seq() == text@,
            chars@ == text@.take(it.index() as int),
    {
        chars.push(c);
        assert(text@.take(it.index() + 1) =~= text@.take(it.index() as int).push(c));
    }
    assert(text@.take(text@.len() as int) =~= text@);
    chars
}

/// Whether `needle` stands in `haystack` at position `at`.
pub open spec fn occurs_at(needle: Seq<char>, haystack: Seq<char>, at: int) -> bool {
    0 <= at && at + needle.len() <= haystack.len() && haystack.subrange(
        at,
        at + needle.len(),
    ) == needle
}

/// Whether `needle` stands somewhere in `haystack`.
pub open spec fn occurs_in(needle: Seq<char>, haystack: Seq<char>) -> bool {
    exists|at: int| occurs_at(needle, haystack, at)
}

/// Whether `haystack` contains `needle`.
pub fn contains(haystack: &str, needle: &str) -> (found: bool)
    ensures
        found == occurs_in(needle@, haystack@),
{
    let hay = chars_of(haystack);
    let pin = chars_of(needle);
    if pin.len() > hay.len() {
        return false;
    }
    let last: usize = hay.len() - pin.len();
    let mut at: usize = 0;
    while at <= last
        invariant
            hay@ == haystack@,
            pin@ == needle@,
            pin.len() <= hay.len(),
            last == hay.len() - pin.len(),
            at <= last + 1,
            forall|before: int| 0 <= before < at ==> !occurs_at(needle@, haystack@, before),
        decreases last + 1 - at,
    {
        let mut matched: usize = 0;
        while matched < pin.len() && hay[at + matched] == pin[matched]
            invariant
                hay@ == haystack@,
                pin@ == needle@,
                at + pin.len() <= hay.len(),
                matched <= pin.len(),
                forall|k: int| 0 <= k < matched ==> hay@[at + k] == pin@[k],
            decreases pin.len() - matched,
        {
            matched = matched + 1;
        }
        if matched == pin.len() {
            assert(haystack@.subrange(at as int, at + needle@.len()) =~= needle@);
            assert(occurs_at(needle@, haystack@, at as int));
            return true;
        }
        assert(!occurs_at(needle@, haystack@, at as int)) by {
            if occurs_at(needle@, haystack@, at as int) {
                assert(haystack@.subrange(at as int, at + needle@.len())[matched as int]
                    == needle@[matched as int]);
            }
        }
        at = at + 1;
    }
    false
}

/// Whether `first` and `second` are the same text.
pub fn same_text(first: &str, second: &str) -> (same: bool)
    ensures
        same == (first@ == second@),
{
    let left = chars_of(first);
    let right = chars_of(second);
    if left.len() != right.len() {
        return false;
    }
    let mut i: usize = 0;
    while i < left.len()
        invariant
            left@ == first@,
            right@ == second@,
            left.len() == right.len(),
            i <= left.len(),
            forall|k: int| 0 <= k < i ==> left@[k] == right@[k],
        decreases left.len() - i,
    {
        if left[i] != right[i] {
            return false;
        }
        i = i + 1;
    }
    assert(first@ =~= second@);
    true
}

/// The text of the characters of `chars` from `from` up to `to`.
pub fn text_between(chars: &Vec<char>, from: usize, to: usize) -> (text: String)
    requires
        from <= to <= chars.len(),
    ensures
        text@ == chars@.subrange(from as int, to as int),
{
    let mut text = String::new();
    let mut i: usize = from;
    while i < to
        invariant
            from <= i <= to <= chars.len(),
            text@ == chars@.subrange(from as int, i as int),
        decreases to - i,
    {
        text.push(chars[i]);
        assert(chars@.subrange(from as int, i + 1) =~= chars@.subrange(from as int, i as int).push(
            chars@[i as int],
        ));
        i = i + 1;
    }
    text
}

/// Whether `c` is one of the decimal digits.
pub open spec fn is_digit(c: char) -> bool {
    '0' <= c <= '9'
}

/// The number that a run of decimal digits stands for.
pub open spec fn number_of(digits: Seq<char>) -> nat
    decreases digits.len(),
{
    if digits.len() == 0 {
        0
    } else {
        number_of(digits.drop_last()) * 10 + (digits.last() as u32 - '0' as u32) as nat
    }
}

/// The digits of a numeral: the numeral without the plus sign that may
/// stand before them.
pub open spec fn digits_of(numeral: Seq<char>) -> Seq<char> {
    if numeral.len() > 0 && numeral[0] == '+' {
        numeral.drop_first()
    } else {
        numeral
    }
}

/// The number that `numeral` stands for, where it is a numeral of a number
/// up to `max`: one or more decimal digits, with or without a plus sign
/// before them and nothing else.
pub open spec fn unsigned(numeral: Seq<char>, max: u64) -> Option<u64> {
    if digits_of(numeral).len() > 0 && (forall|i: int|
        0 <= i < digits_of(numeral).len() ==> is_digit(#[trigger] digits_of(numeral)[i]))
        && number_of(digits_of(numeral)) <= max {
        Some(number_of(digits_of(numeral)) as u64)
    } else {
        None
    }
}

/// A longer run of digits stands for no smaller number.
proof fn lemma_number_of_grows(digits: Seq<char>, upto: int)
    requires
        0 <= upto <= digits.len(),
        forall|i: int| 0 <= i < digits.len() ==> is_digit(#[trigger] digits[i]),
    ensures
        number_of(digits.take(upto)) <= number_of(digits),
    decreases digits.len() - upto,
{
    if upto < digits.len() {
        lemma_number_of_grows(digits, upto + 1);
        assert(digits.take(upto + 1).drop_last() =~= digits.take(upto));
        assert(is_digit(digits[upto]));
    } else {
        assert(digits.take(upto) =~= digits);
    }
}

/// Reads `numeral` as a number up to `max`.
pub fn parse_unsigned(numeral: &str, max: u64) -> (number: Option<u64>)
    ensures
        number == unsigned(numeral@, max),
{
    let chars = chars_of(numeral);
    let start: usize = if chars.len() > 0 && chars[0] == '+' {
        1
    } else {
        0
    };
    let ghost digits = digits_of(numeral@);
    assert(digits =~= chars@.subrange(start as int, chars.len() as int));
    if start == chars.len() {
        return None;
    }
    let mut value: u64 = 0;
    let mut i: usize = start;
    assert(digits.take(0) =~= Seq::<char>::empty());
    while i < chars.len()
        invariant
            chars@ == numeral@,
            start <= i <= chars.len(),
            digits == chars@.subrange(start as int, chars.len() as int),
            digits == digits_of(numeral@),
            forall|k: int| 0 <= k < i - start ==> is_digit(#[trigger] digits[k]),
            value == number_of(digits.take(i - start)),
            value <= max,
        decreases chars.len() - i,
    {
        let c = chars[i];
        assert(digits[i - start] == c);
        if c < '0' || c > '9' {
            return None;
        }
        let digit: u64 = (c as u32 - '0' as u32) as u64;
        proof {
            assert(digits.take(i - start + 1).drop_last() =~= digits.take(i - start));
            assert(digits.take(i - start + 1).last() == c);
        }
        let grown = match value.checked_mul(10) {
            Some(tenfold) => tenfold.checked_add(digit),
            None => None,
        };
        match grown {
            Some(next) => {
                if next > max {
                    proof {
                        lemma_rest_are_digits_or_not(digits, i - start + 1, max);
                    }
                    return None;
                }
                value = next;
            },
            None => {
                proof {
                    lemma_rest_are_digits_or_not(digits, i - start + 1, max);
                }
                return None;
            },
        }
        i = i + 1;
    }
    assert(digits.take(digits.len() as int) =~= digits);
    Some(value)
}

/// Where a beginning of a run of characters stands for more than `max`,
/// the run is no numeral of a number up to `max`.
proof fn lemma_rest_are_digits_or_not(digits: Seq<char>, upto: int, max: u64)
    requires
        0 <= upto <= digits.len(),
        number_of(digits.take(upto)) > max,
    ensures
        !((forall|i: int| 0 <= i < digits.len() ==> is_digit(#[trigger] digits[i])) && number_of(
            digits,
        ) <= max),
{
    if forall|i: int| 0 <= i < digits.len() ==> is_digit(#[trigger] digits[i]) {
        lemma_number_of_grows(digits, upto);
    }
}

/// The truth value that `word` names: `true` or `false`, spelled so.
pub open spec fn truth_value(word: Seq<char>) -> Option<bool> {
    if word == "true"@ {
        Some(true)
    } else if word == "false"@ {
        Some(false)
    } else {
        None
    }
}

/// Reads `word` as a truth value.
pub fn parse_bool(word: &str) -> (value: Option<bool>)
    ensures
        value == truth_value(word@),
{
    if same_text(word, "true") {
        Some(true)
    } else if same_text(word, "false") {
        Some(false)
    } else {
        None
    }
}

/// `text` without the white space at its beginning.
pub open spec fn trimmed_start(text: Seq<char>) -> Seq<char>
    decreases text.len(),
{
    if text.len() > 0 && white_space(text[0]) {
        trimmed_start(text.drop_first())
    } else {
        text
    }
}

/// `text` without the white space at its end.
pub open spec fn trimmed_end(text: Seq<char>) -> Seq<char>
    decreases text.len(),
{
    if text.len() > 0 && white_space(text.last()) {
        trimmed_end(text.drop_last())
    } else {
        text
    }
}

/// `text` without the white space at its beginning and at its end.
pub open spec fn trimmed(text: Seq<char>) -> Seq<char> {
    trimmed_end(trimmed_start(text))
}

/// `text` without the white space at its beginning and at its end.
pub fn trim(text: &str) -> (inner: String)
    ensures
        inner@ == trimmed(text@),
{
    let chars = chars_of(text);
    let mut from: usize = 0;
    assert(chars@.subrange(0, chars.len() as int) =~= chars@);
    while from < chars.len() && is_whitespace(chars[from])
        invariant
            chars@ == text@,
            from <= chars.len(),
            trimmed_start(text@) == trimmed_start(chars@.subrange(from as int, chars.len() as int)),
        decreases chars.len() - from,
    {
        assert(chars@.subrange(from as int, chars.len() as int).drop_first() =~= chars@.subrange(
            from + 1,
            chars.len() as int,
        ));
        from = from + 1;
    }
    let mut to: usize = chars.len();
    while to > from && is_whitespace(chars[to - 1])
        invariant
            chars@ == text@,
            from <= to <= chars.len(),
            trimmed_start(text@) == chars@.subrange(from as int, chars.len() as int),
            trimmed(text@) == trimmed_end(chars@.subrange(from as int, to as int)),
        decreases to - from,
    {
        assert(chars@.subrange(from as int, to as int).drop_last() =~= chars@.subrange(
            from as int,
            to - 1,
        ));
        to = to - 1;
    }
    text_between(&chars, from, to)
}

/// The fields of `text` that have been read to their end, and the
/// characters of the field in which `text` ends.
pub open spec fn split_scan(text: Seq<char>, separator: char) -> (Seq<Seq<char>>, Seq<char>)
    decreases text.len(),
{
    if text.len() == 0 {
        (Seq::empty(), Seq::empty())
    } else {
        let before = split_scan(text.drop_last(), separator);
        if text.last() == separator {
            (before.0.push(before.1), Seq::empty())
        } else {
            (before.0, before.1.push(text.last()))
        }
    }
}

/// The fields of `text`, which `separator` separates. There is one field
/// more than there are separators; a field may be empty.
pub open spec fn fields(text: Seq<char>, separator: char) -> Seq<Seq<char>> {
    split_scan(text, separator).0.push(split_scan(text, separator).1)
}

/// The text of a string that may be absent.
pub open spec fn text_of(given: Option<String>) -> Option<Seq<char>> {
    match given {
        Some(text) => Some(text@),
        None => None,
    }
}

/// The texts of a list of strings.
pub open spec fn views(list: Seq<String>) -> Seq<Seq<char>> {
    list.map_values(|item: String| item@)
}

/// The fields of `text`, which `separator` separates.
pub fn split_on(text: &str, separator: char) -> (list: Vec<String>)
    ensures
        views(list@) == fields(text@, separator),
{
    let mut done: Vec<String> = Vec::new();
    let mut current = String::new();
    let source = text.chars();
    assert(text@.take(0) =~= Seq::<char>::empty());
    assert(views(done@) =~= Seq::<Seq<char>>::empty());
    for c in it: source
        invariant
            it.seq() == text@,
            views(done@) == split_scan(text@.take(it.index() as int), separator).0,
            current@ == split_scan(text@.take(it.index() as int), separator).1,
    {
        proof {
            let upto = text@.take(it.index() + 1);
            assert(upto.drop_last() =~= text@.take(it.index() as int));
            assert(upto.last() == c);
        }
        if c == separator {
            let ghost before = done@;
            done.push(current);
            assert(views(done@) =~= views(before).push(current@));
            current = String::new();
        } else {
            current.push(c);
        }
    }
    assert(text@.take(text@.len() as int) =~= text@);
    let ghost before = done@;
    done.push(current);
    assert(views(done@) =~= views(before).push(current@));
    done
}

/// Whether `c` is white space: one of the characters that Unicode gives
/// the property `White_Space`. These are the tab, the line feed, the
/// vertical tab, the form feed and the carriage return; the space; the
/// next-line control; the no-break space; the Ogham space mark; the spaces
/// from the en quad to the hair space; the line and the paragraph
/// separator; the narrow no-break space; the medium mathematical space;
/// and the ideographic space.
pub open spec fn white_space(c: char) -> bool {
    ||| '\u{9}' <= c <= '\u{d}'
    ||| c == ' '
    ||| c == '\u{85}'
    ||| c == '\u{a0}'
    ||| c == '\u{1680}'
    ||| '\u{2000}' <= c <= '\u{200a}'
    ||| c == '\u{2028}'
    ||| c == '\u{2029}'
    ||| c == '\u{202f}'
    ||| c == '\u{205f}'
    ||| c == '\u{3000}'
}

/// Whether `c` is white space.
pub fn is_whitespace(c: char) -> (answer: bool)
    ensures
        answer == white_space(c),
{
    (c >= '\u{9}' && c <= '\u{d}') || c == ' ' || c == '\u{85}' || c == '\u{a0}' || c
        == '\u{1680}' || (c >= '\u{2000}' && c <= '\u{200a}') || c == '\u{2028}' || c
        == '\u{2029}' || c == '\u{202f}' || c == '\u{205f}' || c == '\u{3000}'
}

/// Text that holds nothing but white space.
pub open spec fn blank(text: Seq<char>) -> bool {
    forall|i: int| 0 <= i < text.len() ==> white_space(#[trigger] text[i])
}

/// Whether `text` holds nothing but white space, as when trimming it leaves
/// nothing.
pub fn is_blank(text: &str) -> (answer: bool)
    ensures
        answer == blank(text@),
{
    let chars = text.chars();
    for c in it: chars
        invariant
            it.seq() == text@,
            forall|j: int| 0 <= j < it.index() ==> white_space(#[trigger] text@[j]),
    {
        if !is_whitespace(c) {
            return false;
        }
    }
    true
}

} // verus!
