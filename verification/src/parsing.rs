//! The grammars of option values: unsigned integers, booleans, float literals and
//! pairs of unsigned integers.

use vstd::prelude::*;
use crate::text::{ascii_lowercase, ascii_lowercase_from, chars_of, same_text, trim_bounds, trimmed};

verus! {

/// Why a text is no unsigned integer.
#[derive(Clone, Copy, Debug, PartialEq, Eq, Structural)]
pub enum NumberFault {
    /// The text is empty.
    Empty,
    /// A character is no decimal digit, or there is no digit at all.
    InvalidDigit,
    /// The number does not fit the target type.
    TooLarge,
}

impl NumberFault {
    /// The description of the fault.
    pub open spec fn text(self) -> Seq<char> {
        match self {
            NumberFault::Empty => "cannot parse integer from empty string"@,
            NumberFault::InvalidDigit => "invalid digit found in string"@,
            NumberFault::TooLarge => "number too large to fit in target type"@,
        }
    }

    /// The description of the fault.
    pub fn message(self) -> (message: String)
        ensures
            message@ == self.text(),
    {
        match self {
            NumberFault::Empty => "cannot parse integer from empty string".to_owned(),
            NumberFault::InvalidDigit => "invalid digit found in string".to_owned(),
            NumberFault::TooLarge => "number too large to fit in target type".to_owned(),
        }
    }
}

/// The value of a decimal digit, `None` for any other character.
pub open spec fn digit_of(c: char) -> Option<nat> {
    if 48 <= c as u32 <= 57 {
        Some((c as u32 - 48) as nat)
    } else {
        None
    }
}

/// Reads decimal digits from left to right. The first character that is no digit,
/// or the first digit with which the number exceeds `max`, decides the fault.
pub open spec fn accumulated(digits: Seq<char>, max: nat) -> Result<nat, NumberFault>
    decreases digits.len(),
{
    if digits.len() == 0 {
        Ok(0nat)
    } else {
        match accumulated(digits.drop_last(), max) {
            Err(fault) => Err(fault),
            Ok(value) => match digit_of(digits.last()) {
                None => Err(NumberFault::InvalidDigit),
                Some(digit) => if value * 10 + digit > max {
                    Err(NumberFault::TooLarge)
                } else {
                    Ok(value * 10 + digit)
                },
            },
        }
    }
}

/// An unsigned integer up to `max` in decimal notation: an optional `+`, then at
/// least one digit, and nothing else.
pub open spec fn parsed_unsigned(text: Seq<char>, max: nat) -> Result<nat, NumberFault> {
    if text.len() == 0 {
        Err(NumberFault::Empty)
    } else {
        let digits = if text[0] == '+' {
            text.drop_first()
        } else {
            text
        };
        if digits.len() == 0 {
            Err(NumberFault::InvalidDigit)
        } else {
            accumulated(digits, max)
        }
    }
}

/// Whether every character of the text is a decimal digit.
pub open spec fn all_digits(text: Seq<char>) -> bool {
    forall|i: int| 0 <= i < text.len() ==> digit_of(#[trigger] text[i]) is Some
}

/// The number that a text of decimal digits names.
pub open spec fn decimal_value(digits: Seq<char>) -> nat
    decreases digits.len(),
{
    if digits.len() == 0 {
        0
    } else {
        decimal_value(digits.drop_last()) * 10 + match digit_of(digits.last()) {
            Some(digit) => digit,
            None => 0,
        }
    }
}

/// The digits of a text that may begin with `+`.
pub open spec fn unsigned_digits(text: Seq<char>) -> Seq<char> {
    if text.len() > 0 && text[0] == '+' {
        text.drop_first()
    } else {
        text
    }
}

/// Reading digits from left to right gives the number that they name: the
/// reading succeeds if and only if every character is a digit and the number
/// is within the bound.
pub proof fn lemma_accumulated_is_decimal(digits: Seq<char>, max: nat)
    ensures
        accumulated(digits, max) is Ok <==> all_digits(digits) && decimal_value(digits) <= max,
        accumulated(digits, max) matches Ok(value) ==> value == decimal_value(digits),
    decreases digits.len(),
{
    if digits.len() > 0 {
        let head = digits.drop_last();
        lemma_accumulated_is_decimal(head, max);
        if all_digits(head) && digit_of(digits.last()) is Some {
            assert forall|i: int| 0 <= i < digits.len() implies digit_of(#[trigger] digits[i])
                is Some by {
                if i < head.len() {
                    assert(head[i] == digits[i]);
                }
            }
        }
    }
}

/// An unsigned integer is read from a text if and only if the text is an
/// optional `+` and then at least one decimal digit and nothing else, and the
/// number that the digits name is within the bound; that number is what is
/// read.
pub proof fn law_unsigned_is_decimal(text: Seq<char>, max: nat)
    ensures
        parsed_unsigned(text, max) is Ok <==> unsigned_digits(text).len() > 0 && all_digits(
            unsigned_digits(text),
        ) && decimal_value(unsigned_digits(text)) <= max,
        parsed_unsigned(text, max) matches Ok(value) ==> value == decimal_value(
            unsigned_digits(text),
        ),
{
    lemma_accumulated_is_decimal(unsigned_digits(text), max);
}

/// The result of an executable parse as a mathematical value.
pub open spec fn as_natural(result: Result<u128, NumberFault>) -> Result<nat, NumberFault> {
    match result {
        Ok(value) => Ok(value as nat),
        Err(fault) => Err(fault),
    }
}

/// Parses `chars[from..to]` as an unsigned integer up to `max`.
pub fn parse_unsigned_in(chars: &Vec<char>, from: usize, to: usize, max: u128) -> (result: Result<
    u128,
    NumberFault,
>)
    requires
        from <= to <= chars.len(),
    ensures
        as_natural(result) == parsed_unsigned(chars@.subrange(from as int, to as int), max as nat),
        result matches Ok(value) ==> value <= max,
{
    let ghost text = chars@.subrange(from as int, to as int);
    if from == to {
        return Err(NumberFault::Empty);
    }
    let start: usize = if chars[from] == '+' {
        from + 1
    } else {
        from
    };
    let ghost digits = chars@.subrange(start as int, to as int);
    assert(digits == if text[0] == '+' {
        text.drop_first()
    } else {
        text
    });
    if start == to {
        return Err(NumberFault::InvalidDigit);
    }
    let mut value: u128 = 0;
    let mut i: usize = start;
    while i < to
        invariant
            from <= start <= i <= to <= chars.len(),
            digits == chars@.subrange(start as int, to as int),
            parsed_unsigned(chars@.subrange(from as int, to as int), max as nat) == accumulated(
                digits,
                max as nat,
            ),
            accumulated(digits.take(i - start), max as nat) == Ok::<nat, NumberFault>(value as nat),
            value <= max,
        decreases to - i,
    {
        let ghost prefix = digits.take(i - start + 1);
        assert(prefix.drop_last() == digits.take(i - start));
        let code: u32 = chars[i] as u32;
        if code < 48 || code > 57 {
            proof {
                lemma_accumulated_fault(digits, (i - start + 1) as int, max as nat);
            }
            return Err(NumberFault::InvalidDigit);
        }
        let digit: u128 = (code - 48) as u128;
        if digit > max || value > (max - digit) / 10 {
            proof {
                lemma_accumulated_fault(digits, (i - start + 1) as int, max as nat);
            }
            return Err(NumberFault::TooLarge);
        }
        value = value * 10 + digit;
        i = i + 1;
    }
    assert(digits.take(to - start) == digits);
    Ok(value)
}

/// A fault met while reading a prefix of the digits is the fault of the whole.
pub proof fn lemma_accumulated_fault(digits: Seq<char>, n: int, max: nat)
    requires
        0 <= n <= digits.len(),
        accumulated(digits.take(n), max) is Err,
    ensures
        accumulated(digits, max) == accumulated(digits.take(n), max),
    decreases digits.len() - n,
{
    if n < digits.len() {
        assert(digits.take(n + 1).drop_last() == digits.take(n));
        lemma_accumulated_fault(digits, n + 1, max);
    } else {
        assert(digits.take(n) == digits);
    }
}

/// Parses the text as an unsigned integer up to `max`.
pub fn parse_unsigned(chars: &Vec<char>, max: u128) -> (result: Result<u128, NumberFault>)
    ensures
        as_natural(result) == parsed_unsigned(chars@, max as nat),
        result matches Ok(value) ==> value <= max,
{
    assert(chars@.subrange(0, chars.len() as int) == chars@);
    parse_unsigned_in(chars, 0, chars.len(), max)
}

/// Parses the text as a `u128`.
pub fn parse_u128(chars: &Vec<char>) -> (result: Result<u128, NumberFault>)
    ensures
        as_natural(result) == parsed_unsigned(chars@, u128::MAX as nat),
{
    parse_unsigned(chars, u128::MAX)
}

/// The position, counted from 0, that a text names, if it is an unsigned integer
/// that fits `usize`.
pub fn parse_position(chars: &Vec<char>) -> (result: Result<usize, NumberFault>)
    ensures
        match result {
            Ok(position) => parsed_unsigned(chars@, usize::MAX as nat) == Ok::<nat, NumberFault>(
                position as nat,
            ),
            Err(fault) => parsed_unsigned(chars@, usize::MAX as nat) == Err::<nat, NumberFault>(
                fault,
            ),
        },
{
    match parse_unsigned(chars, usize::MAX as u128) {
        Ok(value) => Ok(value as usize),
        Err(fault) => Err(fault),
    }
}

/// `true` for the text `true`, `false` for the text `false`, nothing for any other.
pub open spec fn parsed_boolean(text: Seq<char>) -> Option<bool> {
    if text == "true"@ {
        Some(true)
    } else if text == "false"@ {
        Some(false)
    } else {
        None
    }
}

/// Parses the text as a boolean.
pub fn parse_boolean(chars: &Vec<char>) -> (result: Option<bool>)
    ensures
        result == parsed_boolean(chars@),
{
    let yes = chars_of("true");
    let no = chars_of("false");
    if same_text(chars, &yes) {
        Some(true)
    } else if same_text(chars, &no) {
        Some(false)
    } else {
        None
    }
}

/// Whether the character is a decimal digit.
pub open spec fn is_digit(c: char) -> bool {
    digit_of(c) is Some
}

/// Whether the character is `+` or `-`.
pub open spec fn is_sign(c: char) -> bool {
    c == '+' || c == '-'
}

/// The end of the run of decimal digits that starts at `from`.
pub open spec fn digits_end(text: Seq<char>, from: int) -> int
    decreases text.len() - from,
{
    if 0 <= from < text.len() && is_digit(text[from]) {
        digits_end(text, from + 1)
    } else {
        from
    }
}

/// Whether the text from `from` on is an exponent: `e` or `E`, an optional sign,
/// and at least one digit up to the end of the text.
pub open spec fn is_exponent_from(text: Seq<char>, from: int) -> bool {
    &&& 0 <= from < text.len()
    &&& (text[from] == 'e' || text[from] == 'E')
    &&& {
        let digits_start = if from + 1 < text.len() && is_sign(text[from + 1]) {
            from + 2
        } else {
            from + 1
        };
        digits_start < text.len() && digits_end(text, digits_start) == text.len()
    }
}

/// Whether the text from `from` on is a decimal number: digits, optionally a point
/// and more digits, with at least one digit before or after the point, and
/// optionally an exponent.
pub open spec fn is_number_from(text: Seq<char>, from: int) -> bool {
    let integer_end = digits_end(text, from);
    let pointed = integer_end < text.len() && text[integer_end] == '.';
    let fraction_end = if pointed {
        digits_end(text, integer_end + 1)
    } else {
        integer_end
    };
    let digits = if pointed {
        fraction_end - from - 1
    } else {
        fraction_end - from
    };
    digits >= 1 && (fraction_end == text.len() || is_exponent_from(text, fraction_end))
}

/// Whether the text is `inf`, `infinity` or `nan` in any ASCII letter case.
pub open spec fn is_special_float(text: Seq<char>) -> bool {
    let lowered = ascii_lowercase(text);
    lowered == "inf"@ || lowered == "infinity"@ || lowered == "nan"@
}

/// Whether the text is a float literal: an optional sign, then a decimal number or
/// one of the special values.
pub open spec fn is_float_literal(text: Seq<char>) -> bool {
    let from: int = if text.len() > 0 && is_sign(text[0]) {
        1
    } else {
        0
    };
    is_special_float(text.skip(from)) || is_number_from(text, from)
}

/// Finds the end of the run of decimal digits that starts at `from`.
pub fn scan_digits(chars: &Vec<char>, from: usize) -> (end: usize)
    requires
        from <= chars.len(),
    ensures
        from <= end <= chars.len(),
        end == digits_end(chars@, from as int),
{
    let mut end: usize = from;
    while end < chars.len() && 48 <= (chars[end] as u32) && (chars[end] as u32) <= 57
        invariant
            from <= end <= chars.len(),
            digits_end(chars@, from as int) == digits_end(chars@, end as int),
        decreases chars.len() - end,
    {
        end = end + 1;
    }
    end
}

/// Decides [`is_exponent_from`].
pub fn exponent_from(chars: &Vec<char>, from: usize) -> (exponent: bool)
    requires
        from <= chars.len(),
    ensures
        exponent == is_exponent_from(chars@, from as int),
{
    if from >= chars.len() {
        return false;
    }
    if chars[from] != 'e' && chars[from] != 'E' {
        return false;
    }
    let digits_start: usize = if from + 1 < chars.len() && (chars[from + 1] == '+' || chars[from
        + 1] == '-') {
        from + 2
    } else {
        from + 1
    };
    if digits_start >= chars.len() {
        return false;
    }
    scan_digits(chars, digits_start) == chars.len()
}

/// Decides [`is_number_from`].
pub fn number_from(chars: &Vec<char>, from: usize) -> (number: bool)
    requires
        from <= chars.len(),
    ensures
        number == is_number_from(chars@, from as int),
{
    let integer_end = scan_digits(chars, from);
    let pointed = integer_end < chars.len() && chars[integer_end] == '.';
    let fraction_end = if pointed {
        scan_digits(chars, integer_end + 1)
    } else {
        integer_end
    };
    let digits: usize = if pointed {
        fraction_end - from - 1
    } else {
        fraction_end - from
    };
    digits >= 1 && (fraction_end == chars.len() || exponent_from(chars, fraction_end))
}

/// Decides [`is_float_literal`].
pub fn float_literal(chars: &Vec<char>) -> (float: bool)
    ensures
        float == is_float_literal(chars@),
{
    let from: usize = if chars.len() > 0 && (chars[0] == '+' || chars[0] == '-') {
        1
    } else {
        0
    };
    let lowered = ascii_lowercase_from(chars, from);
    let inf = chars_of("inf");
    let infinity = chars_of("infinity");
    let nan = chars_of("nan");
    if same_text(&lowered, &inf) || same_text(&lowered, &infinity) || same_text(&lowered, &nan) {
        return true;
    }
    number_from(chars, from)
}

/// Why a text is no float literal.
#[derive(Clone, Copy, Debug, PartialEq, Eq, Structural)]
pub enum FloatFault {
    /// The text is empty.
    Empty,
    /// The text does not follow the grammar of float literals.
    Invalid,
}

impl FloatFault {
    /// The description of the fault.
    pub open spec fn text(self) -> Seq<char> {
        match self {
            FloatFault::Empty => "cannot parse float from empty string"@,
            FloatFault::Invalid => "invalid float literal"@,
        }
    }

    /// The description of the fault.
    pub fn message(self) -> (message: String)
        ensures
            message@ == self.text(),
    {
        match self {
            FloatFault::Empty => "cannot parse float from empty string".to_owned(),
            FloatFault::Invalid => "invalid float literal".to_owned(),
        }
    }
}

/// The fault of a text as a float literal, if it has one.
pub open spec fn float_fault(text: Seq<char>) -> Option<FloatFault> {
    if text.len() == 0 {
        Some(FloatFault::Empty)
    } else if is_float_literal(text) {
        None
    } else {
        Some(FloatFault::Invalid)
    }
}

/// Checks that the text is a float literal.
pub fn check_float(chars: &Vec<char>) -> (fault: Option<FloatFault>)
    ensures
        fault == float_fault(chars@),
{
    if chars.len() == 0 {
        Some(FloatFault::Empty)
    } else if float_literal(chars) {
        None
    } else {
        Some(FloatFault::Invalid)
    }
}

/// The pieces of a text between the occurrences of a separator. A text without
/// the separator is one piece; an empty text is one empty piece.
pub open spec fn split_on(text: Seq<char>, separator: char) -> Seq<Seq<char>>
    decreases text.len(),
{
    if text.len() == 0 {
        seq![Seq::<char>::empty()]
    } else {
        let before = split_on(text.drop_last(), separator);
        if text.last() == separator {
            before.push(Seq::<char>::empty())
        } else {
            before.drop_last().push(before.last().push(text.last()))
        }
    }
}

/// The texts put together, with the separator between them.
pub open spec fn joined(pieces: Seq<Seq<char>>, separator: char) -> Seq<char>
    decreases pieces.len(),
{
    if pieces.len() == 0 {
        Seq::empty()
    } else if pieces.len() == 1 {
        pieces[0]
    } else {
        joined(pieces.drop_last(), separator).push(separator) + pieces.last()
    }
}

/// Splitting cuts a text at its separators and nowhere else: there is at least
/// one piece, no piece holds the separator, and the pieces put together with
/// the separator between them are the text.
pub proof fn law_split(text: Seq<char>, separator: char)
    ensures
        split_on(text, separator).len() >= 1,
        joined(split_on(text, separator), separator) == text,
        forall|k: int, i: int|
            #![trigger split_on(text, separator)[k][i]]
            0 <= k < split_on(text, separator).len() && 0 <= i < split_on(
                text,
                separator,
            )[k].len() ==> split_on(text, separator)[k][i] != separator,
    decreases text.len(),
{
    let pieces = split_on(text, separator);
    if text.len() > 0 {
        let head = text.drop_last();
        let before = split_on(head, separator);
        law_split(head, separator);
        assert(head.push(text.last()) == text);
        if text.last() == separator {
            assert(pieces.drop_last() == before);
        } else {
            assert(pieces.drop_last() == before.drop_last());
        }
    }
}

/// The texts that the given ranges cut out of `text`.
pub open spec fn pieces_of(text: Seq<char>, ranges: Seq<(usize, usize)>) -> Seq<Seq<char>> {
    Seq::new(ranges.len(), |k: int| text.subrange(ranges[k].0 as int, ranges[k].1 as int))
}

/// Whether each range lies in `from..to`.
pub open spec fn ranges_within(ranges: Seq<(usize, usize)>, from: int, to: int) -> bool {
    forall|k: int| 0 <= k < ranges.len() ==> from <= (#[trigger] ranges[k]).0 <= ranges[k].1 <= to
}

/// Splits `chars[from..to]` at each occurrence of the separator and gives the
/// bounds of the pieces.
pub fn split_ranges(chars: &Vec<char>, from: usize, to: usize, separator: char) -> (ranges: Vec<
    (usize, usize),
>)
    requires
        from <= to <= chars.len(),
    ensures
        ranges_within(ranges@, from as int, to as int),
        pieces_of(chars@, ranges@) == split_on(chars@.subrange(from as int, to as int), separator),
{
    let mut ranges: Vec<(usize, usize)> = Vec::new();
    let mut piece_start: usize = from;
    let mut i: usize = from;
    assert(chars@.subrange(from as int, from as int) =~= Seq::<char>::empty());
    while i < to
        invariant
            from <= piece_start <= i <= to <= chars.len(),
            ranges_within(ranges@, from as int, to as int),
            pieces_of(chars@, ranges@).push(chars@.subrange(piece_start as int, i as int))
                == split_on(chars@.subrange(from as int, i as int), separator),
        decreases to - i,
    {
        let ghost before = chars@.subrange(from as int, i as int);
        let ghost now = chars@.subrange(from as int, i + 1);
        let ghost current = chars@.subrange(piece_start as int, i as int);
        assert(now.drop_last() == before);
        if chars[i] == separator {
            ranges.push((piece_start, i));
            piece_start = i + 1;
            assert(chars@.subrange(piece_start as int, i + 1) =~= Seq::<char>::empty());
        } else {
            assert(chars@.subrange(piece_start as int, i + 1) =~= current.push(chars@[i as int]));
        }
        i = i + 1;
    }
    ranges.push((piece_start, to));
    ranges
}

/// Why a text is no pair of unsigned integers.
#[derive(Clone, Copy, Debug, PartialEq, Eq, Structural)]
pub enum PairFault {
    /// One of the numbers is no unsigned integer.
    Number(NumberFault),
    /// The text holds fewer or more than two numbers.
    Arity,
}

impl PairFault {
    /// The description of the fault.
    pub open spec fn text(self) -> Seq<char> {
        match self {
            PairFault::Number(fault) => fault.text(),
            PairFault::Arity => "expected exactly two numbers"@,
        }
    }

    /// The description of the fault.
    pub fn message(self) -> (message: String)
        ensures
            message@ == self.text(),
    {
        match self {
            PairFault::Number(fault) => fault.message(),
            PairFault::Arity => "expected exactly two numbers".to_owned(),
        }
    }
}

/// The text between a leading `(` and a trailing `)`, or the whole text where it
/// does not have both.
pub open spec fn pair_body(text: Seq<char>) -> Seq<char> {
    if text.len() >= 2 && text[0] == '(' && text.last() == ')' {
        text.subrange(1, text.len() - 1)
    } else {
        text
    }
}

/// The numbers that the pieces hold once trimmed, each up to `max`, or the fault
/// of the first piece that is no such number.
pub open spec fn parsed_numbers(pieces: Seq<Seq<char>>, max: nat) -> Result<Seq<nat>, NumberFault>
    decreases pieces.len(),
{
    if pieces.len() == 0 {
        Ok(Seq::<nat>::empty())
    } else {
        match parsed_numbers(pieces.drop_last(), max) {
            Err(fault) => Err(fault),
            Ok(numbers) => match parsed_unsigned(trimmed(pieces.last()), max) {
                Err(fault) => Err(fault),
                Ok(number) => Ok(numbers.push(number)),
            },
        }
    }
}

/// A pair of `u32` numbers: optionally in parentheses, separated by a comma, with
/// any whitespace around each number. Exactly two numbers make a pair.
pub open spec fn parsed_pair(text: Seq<char>) -> Result<(u32, u32), PairFault> {
    match parsed_numbers(split_on(pair_body(text), ','), u32::MAX as nat) {
        Err(fault) => Err(PairFault::Number(fault)),
        Ok(numbers) => if numbers.len() == 2 {
            Ok((numbers[0] as u32, numbers[1] as u32))
        } else {
            Err(PairFault::Arity)
        },
    }
}

/// A fault met among the first `n` pieces is the fault of them all.
pub proof fn lemma_parsed_numbers_fault(pieces: Seq<Seq<char>>, n: int, max: nat)
    requires
        0 <= n <= pieces.len(),
        parsed_numbers(pieces.take(n), max) is Err,
    ensures
        parsed_numbers(pieces, max) == parsed_numbers(pieces.take(n), max),
    decreases pieces.len() - n,
{
    if n < pieces.len() {
        assert(pieces.take(n + 1).drop_last() == pieces.take(n));
        lemma_parsed_numbers_fault(pieces, n + 1, max);
    } else {
        assert(pieces.take(n) == pieces);
    }
}

/// Parses the text as a pair of `u32` numbers.
pub fn parse_pair(chars: &Vec<char>) -> (result: Result<(u32, u32), PairFault>)
    ensures
        result == parsed_pair(chars@),
{
    let size = chars.len();
    let parenthesised = size >= 2 && chars[0] == '(' && chars[size - 1] == ')';
    let (from, to): (usize, usize) = if parenthesised {
        (1, size - 1)
    } else {
        (0, size)
    };
    assert(chars@.subrange(from as int, to as int) == pair_body(chars@));
    let ranges = split_ranges(chars, from, to, ',');
    let ghost pieces = split_on(pair_body(chars@), ',');
    let mut numbers: Vec<u32> = Vec::new();
    let mut k: usize = 0;
    assert(numbers@.map_values(|n: u32| n as nat) =~= Seq::<nat>::empty());
    while k < ranges.len()
        invariant
            k <= ranges.len(),
            pieces == split_on(pair_body(chars@), ','),
            to <= chars.len(),
            ranges_within(ranges@, from as int, to as int),
            pieces_of(chars@, ranges@) == pieces,
            numbers@.len() == k,
            parsed_numbers(pieces.take(k as int), u32::MAX as nat) == Ok::<Seq<nat>, NumberFault>(
                numbers@.map_values(|n: u32| n as nat),
            ),
        decreases ranges.len() - k,
    {
        let (start, end) = ranges[k];
        assert(pieces.take(k + 1).drop_last() == pieces.take(k as int));
        let (trim_start, trim_end) = trim_bounds(chars, start, end);
        match parse_unsigned_in(chars, trim_start, trim_end, u32::MAX as u128) {
            Err(fault) => {
                proof {
                    lemma_parsed_numbers_fault(pieces, k + 1, u32::MAX as nat);
                }
                return Err(PairFault::Number(fault));
            },
            Ok(number) => {
                let ghost before = numbers@;
                numbers.push(number as u32);
                assert(numbers@.map_values(|n: u32| n as nat) =~= before.map_values(
                    |n: u32| n as nat,
                ).push(number as nat));
            },
        }
        k = k + 1;
    }
    assert(pieces.take(pieces.len() as int) == pieces);
    if numbers.len() == 2 {
        Ok((numbers[0], numbers[1]))
    } else {
        Err(PairFault::Arity)
    }
}

/// A text without the separator is one piece.
pub proof fn lemma_split_without_separator(text: Seq<char>, separator: char)
    requires
        forall|i: int| 0 <= i < text.len() ==> text[i] != separator,
    ensures
        split_on(text, separator) == seq![text],
    decreases text.len(),
{
    if text.len() == 0 {
        assert(text =~= Seq::<char>::empty());
    } else {
        lemma_split_without_separator(text.drop_last(), separator);
        let before = seq![text.drop_last()];
        assert(before.drop_last().push(before.last().push(text.last())) =~= seq![text]) by {
            assert(text.drop_last().push(text.last()) =~= text);
        }
    }
}

/// What stands behind the last separator of a text is its last piece, and the
/// pieces before it are those of what stands before that separator.
pub proof fn lemma_split_at_last_separator(text: Seq<char>, at: int, separator: char)
    requires
        0 <= at < text.len(),
        text[at] == separator,
        forall|i: int| at < i < text.len() ==> text[i] != separator,
    ensures
        split_on(text, separator) == split_on(text.take(at), separator).push(text.skip(at + 1)),
    decreases text.len() - at,
{
    if at == text.len() - 1 {
        assert(text.skip(at + 1) =~= Seq::<char>::empty());
    } else {
        let shorter = text.drop_last();
        lemma_split_at_last_separator(shorter, at, separator);
        assert(shorter.take(at) == text.take(at));
        let before = split_on(shorter, separator);
        assert(before.last().push(text.last()) =~= text.skip(at + 1));
    }
}

} // verus!
