//! From the text of a number literal to its value.
//!
//! The text of a literal is its digits and, behind them, an optional type
//! suffix. The suffix chooses the type of the value, and the digits are
//! read, in the base they are written in, as a number of that type.

use crate::ast::{Value, ValueView};
use crate::lexer::model::{is_digit_char, is_digit_text};
use crate::span::Position;
use crate::token::{
    IntegerLiteralToken, LiteralTokenKind, NumberBase, Token, TokenKind, TokenView,
};
use vstd::prelude::*;
use vstd::string::*;
use vstd::utf8::is_ascii_chars;

verus! {

/// Whether a character is one of `0` to `9`.
pub open spec fn is_decimal_digit(c: char) -> bool {
    '0' <= c <= '9'
}

/// The number in which the digits of a base count: 2, 8, 10 or 16.
pub open spec fn radix(base: NumberBase) -> nat {
    match base {
        NumberBase::Binary => 2,
        NumberBase::Octal => 8,
        NumberBase::Decimal => 10,
        NumberBase::Hexadecimal => 16,
    }
}

/// The number that a digit stands for: `0` to `9` for themselves, `a` to
/// `f` in either case for ten to fifteen.
pub open spec fn digit_value(c: char) -> nat {
    if '0' <= c <= '9' {
        ((c as u32) - ('0' as u32)) as nat
    } else if 'a' <= c <= 'f' {
        ((c as u32) - ('a' as u32) + 10) as nat
    } else {
        ((c as u32) - ('A' as u32) + 10) as nat
    }
}

/// The number that digits of a base stand for: each digit counts
/// `radix(base)` times as much as the digit behind it.
pub open spec fn digits_value(text: Seq<char>, base: NumberBase) -> nat
    decreases text.len(),
{
    if text.len() == 0 {
        0
    } else {
        digits_value(text.drop_last(), base) * radix(base) + digit_value(text.last())
    }
}

/// The number that a text stands for in a base, if the text is one
/// digit of the base or more and the number is at most `max`.
pub open spec fn number_in_base(text: Seq<char>, base: NumberBase, max: nat) -> Option<nat> {
    if text.len() > 0 && is_digit_text(text, base) && digits_value(text, base) <= max {
        Some(digits_value(text, base))
    } else {
        None
    }
}

/// The number that a text stands for, if the text is one decimal digit
/// or more and the number is at most `max`.
pub open spec fn decimal_number(text: Seq<char>, max: nat) -> Option<nat> {
    number_in_base(text, NumberBase::Decimal, max)
}

/// The digits before a position stand for no more than all the digits.
pub proof fn lemma_digits_prefix(text: Seq<char>, base: NumberBase, length: int)
    requires
        0 <= length <= text.len(),
    ensures
        digits_value(text.take(length), base) <= digits_value(text, base),
    decreases text.len() - length,
{
    if length < text.len() {
        lemma_digits_prefix(text, base, length + 1);
        let longer = text.take(length + 1);
        assert(longer.drop_last() =~= text.take(length));
        let shorter = digits_value(text.take(length), base);
        let factor = radix(base);
        assert(shorter <= shorter * factor) by (nonlinear_arith)
            requires
                factor >= 1,
                shorter >= 0,
        ;
    } else {
        assert(text.take(length) =~= text);
    }
}

/// The number in which the digits of a base count.
fn radix_of(base: NumberBase) -> (factor: u64)
    ensures
        factor == radix(base),
{
    match base {
        NumberBase::Binary => 2,
        NumberBase::Octal => 8,
        NumberBase::Decimal => 10,
        NumberBase::Hexadecimal => 16,
    }
}

/// Tells whether a character is a digit of a base.
fn is_digit_in(c: char, base: NumberBase) -> (result: bool)
    ensures
        result == is_digit_char(c, base),
{
    match base {
        NumberBase::Binary => '0' <= c && c <= '1',
        NumberBase::Octal => '0' <= c && c <= '7',
        NumberBase::Decimal => '0' <= c && c <= '9',
        NumberBase::Hexadecimal => ('0' <= c && c <= '9') || ('a' <= c && c <= 'f') || ('A' <= c
            && c <= 'F'),
    }
}

/// The number that a digit of base 16 or less stands for.
fn value_of_digit(c: char) -> (value: u64)
    requires
        is_digit_char(c, NumberBase::Hexadecimal),
    ensures
        value == digit_value(c),
        value < 16,
{
    if '0' <= c && c <= '9' {
        ((c as u32) - ('0' as u32)) as u64
    } else if 'a' <= c && c <= 'f' {
        ((c as u32) - ('a' as u32) + 10) as u64
    } else {
        ((c as u32) - ('A' as u32) + 10) as u64
    }
}

/// Reads a text as a number that is written in a base and is at most
/// `max`.
pub fn parse_number(text: &str, base: NumberBase, max: u64) -> (result: Option<u64>)
    ensures
        match number_in_base(text@, base, max as nat) {
            Some(value) => result == Some(value as u64),
            None => result is None,
        },
{
    let n = text.unicode_len();
    if n == 0 {
        return None;
    }
    let factor = radix_of(base);
    let mut value: u64 = 0;
    let mut i: usize = 0;
    while i < n
        invariant
            n == text@.len(),
            i <= n,
            factor == radix(base),
            is_digit_text(text@.take(i as int), base),
            value == digits_value(text@.take(i as int), base),
            value <= max,
        decreases n - i,
    {
        let c = text.get_char(i);
        if !is_digit_in(c, base) {
            return None;
        }
        let digit = value_of_digit(c);
        proof {
            assert(text@.take(i as int + 1).drop_last() =~= text@.take(i as int));
            assert(text@.take(i as int + 1).last() == c);
            assert(value * factor <= 0xffff_ffff_ffff_ffff * 16) by (nonlinear_arith)
                requires
                    value <= 0xffff_ffff_ffff_ffff,
                    factor <= 16,
            ;
        }
        let next: u128 = (value as u128) * (factor as u128) + (digit as u128);
        if next > max as u128 {
            proof {
                lemma_digits_prefix(text@, base, i as int + 1);
            }
            return None;
        }
        value = next as u64;
        i += 1;
    }
    proof {
        assert(text@.take(n as int) =~= text@);
    }
    Some(value)
}

/// Reads a text as a decimal number that is at most `max`.
pub fn parse_decimal(text: &str, max: u64) -> (result: Option<u64>)
    ensures
        match decimal_number(text@, max as nat) {
            Some(value) => result == Some(value as u64),
            None => result is None,
        },
{
    parse_number(text, NumberBase::Decimal, max)
}

/// One decimal digit as text.
pub open spec fn digit_text(digit: nat) -> Seq<char> {
    if digit == 0 {
        "0"@
    } else if digit == 1 {
        "1"@
    } else if digit == 2 {
        "2"@
    } else if digit == 3 {
        "3"@
    } else if digit == 4 {
        "4"@
    } else if digit == 5 {
        "5"@
    } else if digit == 6 {
        "6"@
    } else if digit == 7 {
        "7"@
    } else if digit == 8 {
        "8"@
    } else {
        "9"@
    }
}

/// A number written in decimal, without leading zeros.
pub open spec fn decimal_text(number: nat) -> Seq<char>
    decreases number,
{
    if number < 10 {
        digit_text(number)
    } else {
        decimal_text(number / 10) + digit_text(number % 10)
    }
}

/// All of a text is its run of digits if it holds nothing but decimal
/// digits.
pub proof fn lemma_digits_end(text: Seq<char>, from: int)
    requires
        is_digit_text(text, NumberBase::Decimal),
        0 <= from <= text.len(),
    ensures
        digits_end(text, from) == text.len(),
    decreases text.len() - from,
{
    if from < text.len() {
        assert(is_digit_char(text[from], NumberBase::Decimal));
        lemma_digits_end(text, from + 1);
    }
}

/// A number written in decimal is read back as itself, and is the digits
/// of a float.
pub proof fn lemma_decimal_text(number: nat)
    ensures
        decimal_text(number).len() > 0,
        is_digit_text(decimal_text(number), NumberBase::Decimal),
        digits_value(decimal_text(number), NumberBase::Decimal) == number,
        is_float_digits(decimal_text(number)),
    decreases number,
{
    reveal_strlit("0");
    reveal_strlit("1");
    reveal_strlit("2");
    reveal_strlit("3");
    reveal_strlit("4");
    reveal_strlit("5");
    reveal_strlit("6");
    reveal_strlit("7");
    reveal_strlit("8");
    reveal_strlit("9");
    let text = decimal_text(number);
    let last = digit_text(number % 10);
    assert(last.len() == 1 && is_decimal_digit(last[0]) && digit_value(last[0]) == number % 10);
    if number < 10 {
        assert(text.drop_last() =~= Seq::<char>::empty());
        assert(digits_value(text.drop_last(), NumberBase::Decimal) == 0);
    } else {
        lemma_decimal_text(number / 10);
        assert(text.drop_last() =~= decimal_text(number / 10));
        assert(text.last() == last[0]);
    }
    assert(is_digit_text(text, NumberBase::Decimal));
    lemma_digits_end(text, 0);
}

/// One decimal digit as text.
fn digit_str(digit: u64) -> (text: &'static str)
    requires
        digit < 10,
    ensures
        text@ == digit_text(digit as nat),
{
    if digit == 0 {
        "0"
    } else if digit == 1 {
        "1"
    } else if digit == 2 {
        "2"
    } else if digit == 3 {
        "3"
    } else if digit == 4 {
        "4"
    } else if digit == 5 {
        "5"
    } else if digit == 6 {
        "6"
    } else if digit == 7 {
        "7"
    } else if digit == 8 {
        "8"
    } else {
        "9"
    }
}

/// Writes a number in decimal, without leading zeros.
pub fn to_decimal(number: u64) -> (text: String)
    ensures
        text@ == decimal_text(number as nat),
    decreases number,
{
    if number < 10 {
        digit_str(number).to_string()
    } else {
        let mut text = to_decimal(number / 10);
        text.append(digit_str(number % 10));
        text
    }
}

/// Where the run of decimal digits ends that begins at `from`.
pub open spec fn digits_end(text: Seq<char>, from: int) -> int
    decreases text.len() - from,
{
    if 0 <= from < text.len() && is_decimal_digit(text[from]) {
        digits_end(text, from + 1)
    } else {
        from
    }
}

/// Whether the character at `index` exists and is `c`.
pub open spec fn char_at_is(text: Seq<char>, index: int, c: char) -> bool {
    0 <= index < text.len() && text[index] == c
}

/// Where the exponent's digits begin if an exponent begins at `index`:
/// behind the `e` and an optional sign.
pub open spec fn exponent_digits(text: Seq<char>, index: int) -> int {
    if char_at_is(text, index + 1, '+') || char_at_is(text, index + 1, '-') {
        index + 2
    } else {
        index + 1
    }
}

/// Whether a text is the digits of a float: one digit or more; then
/// optionally a dot and one digit or more; then optionally `e` or `E`,
/// an optional sign and one digit or more; and nothing else.
pub open spec fn is_float_digits(text: Seq<char>) -> bool {
    let int_end = digits_end(text, 0);
    let has_dot = char_at_is(text, int_end, '.');
    let fraction_end = if has_dot {
        digits_end(text, int_end + 1)
    } else {
        int_end
    };
    let has_exponent = char_at_is(text, fraction_end, 'e') || char_at_is(text, fraction_end, 'E');
    let end = if has_exponent {
        digits_end(text, exponent_digits(text, fraction_end))
    } else {
        fraction_end
    };
    &&& int_end > 0
    &&& has_dot ==> fraction_end > int_end + 1
    &&& has_exponent ==> end > exponent_digits(text, fraction_end)
    &&& end == text.len()
}

/// Finds where the run of decimal digits ends that begins at `from`.
fn skip_digits(text: &str, from: usize) -> (end: usize)
    requires
        from <= text@.len(),
    ensures
        end == digits_end(text@, from as int),
        from <= end <= text@.len(),
{
    let n = text.unicode_len();
    let mut i = from;
    while i < n && is_digit(text.get_char(i))
        invariant
            n == text@.len(),
            from <= i <= n,
            digits_end(text@, i as int) == digits_end(text@, from as int),
        decreases n - i,
    {
        i += 1;
    }
    i
}

/// Tells whether a character is one of `0` to `9`.
fn is_digit(c: char) -> (result: bool)
    ensures
        result == is_decimal_digit(c),
{
    '0' <= c && c <= '9'
}

/// Tells whether the character at `index` exists and is `c`.
fn char_is(text: &str, index: usize, c: char) -> (result: bool)
    ensures
        result == char_at_is(text@, index as int, c),
{
    index < text.unicode_len() && text.get_char(index) == c
}

/// Tells whether a text is the digits of a float.
pub fn is_float_text(text: &str) -> (result: bool)
    ensures
        result == is_float_digits(text@),
{
    let n = text.unicode_len();
    let int_end = skip_digits(text, 0);
    if int_end == 0 {
        return false;
    }
    let mut end = int_end;
    if char_is(text, int_end, '.') {
        end = skip_digits(text, int_end + 1);
        if end == int_end + 1 {
            return false;
        }
    }
    if char_is(text, end, 'e') || char_is(text, end, 'E') {
        let digits = if char_is(text, end + 1, '+') || char_is(text, end + 1, '-') {
            end + 2
        } else {
            end + 1
        };
        end = skip_digits(text, digits);
        if end == digits {
            return false;
        }
    }
    end == n
}

/// The type that a suffix stands for, as its letter and its width: `i`
/// and `u` with no width stand for the width of the platform, written
/// 0, and else for the width that follows; `f` with no width stands for
/// 32, and else for the width that follows; `d` stands for 64.
pub open spec fn suffix_type(suffix: Seq<char>) -> Option<(char, nat)> {
    if suffix.len() == 0 {
        None
    } else if suffix[0] == 'u' || suffix[0] == 'i' {
        if suffix.len() == 1 {
            Some((suffix[0], 0nat))
        } else {
            match decimal_number(suffix.skip(1), 255) {
                Some(width) => Some((suffix[0], width)),
                None => None,
            }
        }
    } else if suffix[0] == 'f' {
        if suffix.len() == 1 {
            Some(('f', 32nat))
        } else {
            match decimal_number(suffix.skip(1), 255) {
                Some(width) => Some(('f', width)),
                None => None,
            }
        }
    } else if suffix[0] == 'd' {
        Some(('d', 64nat))
    } else {
        None
    }
}

/// Reads a suffix as the type it stands for.
pub fn parse_suffix(suffix: &str) -> (result: Option<(char, u8)>)
    ensures
        match suffix_type(suffix@) {
            Some((letter, width)) => result == Some((letter, width as u8)),
            None => result is None,
        },
{
    let n = suffix.unicode_len();
    if n == 0 {
        return None;
    }
    let first_char = suffix.get_char(0);
    let rest = suffix.substring_char(1, n);
    proof {
        assert(rest@ =~= suffix@.skip(1));
    }
    if first_char == 'u' || first_char == 'i' {
        if n == 1 {
            return Some((first_char, 0));
        }
        match parse_decimal(rest, 255) {
            Some(width) => Some((first_char, width as u8)),
            None => None,
        }
    } else if first_char == 'f' {
        if n == 1 {
            return Some(('f', 32));
        }
        match parse_decimal(rest, 255) {
            Some(width) => Some(('f', width as u8)),
            None => None,
        }
    } else if first_char == 'd' {
        Some(('d', 64))
    } else {
        None
    }
}

/// How many characters of a token's text stand before its suffix: all
/// of them where it has none, else as many as there are bytes from the
/// token's start to the start of the suffix, which must lie within the
/// text.
pub open spec fn suffix_offset(token: TokenView, suffix_start: Option<Position>) -> Option<int> {
    match suffix_start {
        None => Some(token.lexeme.len() as int),
        Some(position) => if token.span.start.offset <= position.offset && position.offset
            - token.span.start.offset <= token.lexeme.len() {
            Some(position.offset - token.span.start.offset)
        } else {
            None
        },
    }
}

/// The integer of a type with a value, if the type is one of the
/// integer types and holds the value.
pub open spec fn integer_value(letter: char, width: nat, value: nat) -> Option<ValueView> {
    if letter == 'i' && width == 0 && value <= i64::MAX {
        Some(ValueView::Int(value as i64))
    } else if letter == 'i' && width == 8 && value <= i8::MAX {
        Some(ValueView::Int8(value as i8))
    } else if letter == 'i' && width == 16 && value <= i16::MAX {
        Some(ValueView::Int16(value as i16))
    } else if letter == 'i' && width == 32 && value <= i32::MAX {
        Some(ValueView::Int32(value as i32))
    } else if letter == 'i' && width == 64 && value <= i64::MAX {
        Some(ValueView::Int64(value as i64))
    } else if letter == 'u' && width == 0 && value <= u64::MAX {
        Some(ValueView::UInt(value as u64))
    } else if letter == 'u' && width == 8 && value <= u8::MAX {
        Some(ValueView::UInt8(value as u8))
    } else if letter == 'u' && width == 16 && value <= u16::MAX {
        Some(ValueView::UInt16(value as u16))
    } else if letter == 'u' && width == 32 && value <= u32::MAX {
        Some(ValueView::UInt32(value as u32))
    } else if letter == 'u' && width == 64 && value <= u64::MAX {
        Some(ValueView::UInt64(value as u64))
    } else {
        None
    }
}

/// Whether a suffix names one of the integer types.
pub open spec fn is_integer_type(letter: char, width: nat) -> bool {
    (letter == 'i' || letter == 'u') && (width == 0 || width == 8 || width == 16 || width == 32
        || width == 64)
}

/// The value of the digits of an integer literal, read in the base they
/// are written in as the type of a suffix. For an integer type the digits
/// must be digits of the base and stand for a number that the type holds.
/// For a float type, decimal digits are kept as they are written, and
/// digits of another base as the number they stand for, written in
/// decimal, which must be at most the largest `u64`.
pub open spec fn typed_value(letter: char, width: nat, digits: Seq<char>, base: NumberBase) -> Option<
    ValueView,
> {
    if is_integer_type(letter, width) {
        if digits.len() > 0 && is_digit_text(digits, base) {
            integer_value(letter, width, digits_value(digits, base))
        } else {
            None
        }
    } else if base == NumberBase::Decimal {
        float_value(letter, width, digits)
    } else {
        match number_in_base(digits, base, u64::MAX as nat) {
            Some(value) => float_value(letter, width, decimal_text(value)),
            None => None,
        }
    }
}

/// The value of digits read as the float type of a suffix: `f` with 32
/// bits, or `f` or `d` with 64. The digits must be the digits of a
/// float.
pub open spec fn float_value(letter: char, width: nat, digits: Seq<char>) -> Option<ValueView> {
    if !is_float_digits(digits) {
        None
    } else if letter == 'f' && width == 32 {
        Some(ValueView::Float32(digits))
    } else if (letter == 'f' || letter == 'd') && width == 64 {
        Some(ValueView::Double(digits))
    } else {
        None
    }
}

/// The digits of an integer literal without the prefix of their base.
pub open spec fn without_base_prefix(digits: Seq<char>, base: NumberBase) -> Option<Seq<char>> {
    if base == NumberBase::Decimal {
        Some(digits)
    } else if digits.len() >= 2 {
        Some(digits.skip(2))
    } else {
        None
    }
}

/// The digits and the suffix of a literal token: its text, which must
/// be in ASCII, split where its suffix begins.
pub open spec fn split_literal(token: TokenView, suffix_start: Option<Position>) -> Option<
    (Seq<char>, Seq<char>),
> {
    if !is_ascii_chars(token.lexeme) {
        None
    } else {
        match suffix_offset(token, suffix_start) {
            Some(offset) => Some((token.lexeme.take(offset), token.lexeme.skip(offset))),
            None => None,
        }
    }
}

/// The type of a literal: what its suffix stands for where it has one,
/// else the given default.
pub open spec fn literal_type(
    suffix_start: Option<Position>,
    suffix: Seq<char>,
    default: (char, nat),
) -> Option<(char, nat)> {
    if suffix_start is Some {
        suffix_type(suffix)
    } else {
        Some(default)
    }
}

/// The value of an integer literal, if it has one. Without a suffix it
/// is an integer of platform width; else the suffix says what it is. Its
/// digits, without the prefix of their base, are read in that base.
pub open spec fn integer_literal_value(
    token: TokenView,
    integer: IntegerLiteralToken,
    suffix_start: Option<Position>,
) -> Option<ValueView> {
    match split_literal(token, suffix_start) {
        Some((digits, suffix)) => match (
            literal_type(suffix_start, suffix, ('i', 0nat)),
            without_base_prefix(digits, integer.base),
        ) {
            (Some((letter, width)), Some(digits)) => typed_value(
                letter,
                width,
                digits,
                integer.base,
            ),
            _ => None,
        },
        None => None,
    }
}

/// The value of a float literal, if it has one. Without a suffix it is
/// a float of 64 bits; else the suffix says what it is, and only `f` and
/// `d` are suffixes of a float.
pub open spec fn float_literal_value(token: TokenView, suffix_start: Option<Position>) -> Option<
    ValueView,
> {
    match split_literal(token, suffix_start) {
        Some((digits, suffix)) => match literal_type(suffix_start, suffix, ('f', 64nat)) {
            Some((letter, width)) => float_value(letter, width, digits),
            None => None,
        },
        None => None,
    }
}

/// The value of a literal token, if it has one.
pub open spec fn literal_value(token: TokenView) -> Option<ValueView> {
    match token.kind {
        TokenKind::Literal { kind: LiteralTokenKind::Integer(integer), suffix_start } => {
            integer_literal_value(token, integer, suffix_start)
        },
        TokenKind::Literal { kind: LiteralTokenKind::Float(_), suffix_start } => {
            float_literal_value(token, suffix_start)
        },
        _ => None,
    }
}

/// The largest number that an integer type holds.
fn largest_of(letter: char, width: u8) -> (max: u64)
    requires
        is_integer_type(letter, width as nat),
    ensures
        forall|value: nat| value <= max <==> integer_value(letter, width as nat, value) is Some,
{
    if letter == 'i' {
        if width == 8 {
            0x7f
        } else if width == 16 {
            0x7fff
        } else if width == 32 {
            0x7fff_ffff
        } else {
            0x7fff_ffff_ffff_ffff
        }
    } else {
        if width == 8 {
            0xff
        } else if width == 16 {
            0xffff
        } else if width == 32 {
            0xffff_ffff
        } else {
            0xffff_ffff_ffff_ffff
        }
    }
}

/// The integer of a type with a value that the type holds.
fn integer_of(letter: char, width: u8, value: u64) -> (result: Value)
    requires
        integer_value(letter, width as nat, value as nat) is Some,
    ensures
        Some(result.deep_view()) == integer_value(letter, width as nat, value as nat),
{
    if letter == 'i' {
        if width == 0 {
            Value::Int(value as i64)
        } else if width == 8 {
            Value::Int8(value as i8)
        } else if width == 16 {
            Value::Int16(value as i16)
        } else if width == 32 {
            Value::Int32(value as i32)
        } else {
            Value::Int64(value as i64)
        }
    } else {
        if width == 0 {
            Value::UInt(value)
        } else if width == 8 {
            Value::UInt8(value as u8)
        } else if width == 16 {
            Value::UInt16(value as u16)
        } else if width == 32 {
            Value::UInt32(value as u32)
        } else {
            Value::UInt64(value)
        }
    }
}

/// Reads the digits of an integer literal, in the base they are written
/// in, as the type of a suffix.
pub fn read_typed(letter: char, width: u8, digits: &str, base: NumberBase) -> (result: Option<
    Value,
>)
    ensures
        result.deep_view() == typed_value(letter, width as nat, digits@, base),
{
    let integer = (letter == 'i' || letter == 'u') && (width == 0 || width == 8 || width == 16
        || width == 32 || width == 64);
    if integer {
        let max = largest_of(letter, width);
        match parse_number(digits, base, max) {
            Some(value) => Some(integer_of(letter, width, value)),
            None => {
                proof {
                    if digits@.len() > 0 && is_digit_text(digits@, base) {
                        assert(!(digits_value(digits@, base) <= max));
                    }
                }
                None
            },
        }
    } else {
        let decimal = match base {
            NumberBase::Decimal => true,
            _ => false,
        };
        if decimal {
            read_float(letter, width, digits)
        } else {
            match parse_number(digits, base, 0xffff_ffff_ffff_ffff) {
                Some(value) => {
                    let text = to_decimal(value);
                    read_float(letter, width, text.as_str())
                },
                None => None,
            }
        }
    }
}

/// Reads digits as the float type of a suffix.
pub fn read_float(letter: char, width: u8, digits: &str) -> (result: Option<Value>)
    ensures
        result.deep_view() == float_value(letter, width as nat, digits@),
{
    if !is_float_text(digits) {
        None
    } else if letter == 'f' && width == 32 {
        Some(Value::Float32(digits.to_string()))
    } else if (letter == 'f' || letter == 'd') && width == 64 {
        Some(Value::Double(digits.to_string()))
    } else {
        None
    }
}

/// Splits the text of a literal token where its suffix begins.
fn split_text<'a>(token: &'a Token, suffix_start: Option<Position>) -> (parts: Option<
    (&'a str, &'a str),
>)
    ensures
        match split_literal(token.deep_view(), suffix_start) {
            Some((digits, suffix)) => parts matches Some(texts) && texts.0@ == digits && texts.1@
                == suffix && texts.0.is_ascii() && texts.1.is_ascii(),
            None => parts is None,
        },
{
    let lexeme = token.lexeme.as_str();
    if !lexeme.is_ascii() {
        return None;
    }
    let n = lexeme.unicode_len();
    let offset = match suffix_start {
        None => n,
        Some(position) => {
            if token.span.start.offset <= position.offset && position.offset
                - token.span.start.offset <= n {
                position.offset - token.span.start.offset
            } else {
                return None;
            }
        },
    };
    let digits = lexeme.substring_ascii(0, offset);
    let suffix = lexeme.substring_ascii(offset, n);
    proof {
        assert(digits@ =~= token.lexeme@.take(offset as int));
        assert(suffix@ =~= token.lexeme@.skip(offset as int));
    }
    Some((digits, suffix))
}

/// The type of a literal: what its suffix stands for where it has one,
/// else the given default.
fn read_type(suffix_start: Option<Position>, suffix: &str, default: (char, u8)) -> (result: Option<
    (char, u8),
>)
    ensures
        match literal_type(suffix_start, suffix@, (default.0, default.1 as nat)) {
            Some((letter, width)) => result == Some((letter, width as u8)),
            None => result is None,
        },
{
    if suffix_start.is_some() {
        parse_suffix(suffix)
    } else {
        Some(default)
    }
}

/// The value of an integer literal, if it has one.
pub fn read_integer_literal(
    token: &Token,
    integer: IntegerLiteralToken,
    suffix_start: Option<Position>,
) -> (result: Option<Value>)
    ensures
        result.deep_view() == integer_literal_value(token.deep_view(), integer, suffix_start),
{
    let (number_lexeme, suffix) = match split_text(token, suffix_start) {
        Some(parts) => parts,
        None => {
            return None;
        },
    };
    let (letter, width) = match read_type(suffix_start, suffix, ('i', 0)) {
        Some(parsed_suffix) => parsed_suffix,
        None => {
            return None;
        },
    };
    let decimal = match integer.base {
        NumberBase::Decimal => true,
        _ => false,
    };
    if decimal {
        read_typed(letter, width, number_lexeme, integer.base)
    } else {
        let n = number_lexeme.unicode_len();
        if n >= 2 {
            let number_lexeme_without_prefix = number_lexeme.substring_ascii(2, n);
            proof {
                assert(number_lexeme_without_prefix@ =~= number_lexeme@.skip(2));
            }
            read_typed(letter, width, number_lexeme_without_prefix, integer.base)
        } else {
            None
        }
    }
}

/// The value of a float literal, if it has one.
pub fn read_float_literal(token: &Token, suffix_start: Option<Position>) -> (result: Option<Value>)
    ensures
        result.deep_view() == float_literal_value(token.deep_view(), suffix_start),
{
    let (number_lexeme, suffix) = match split_text(token, suffix_start) {
        Some(parts) => parts,
        None => {
            return None;
        },
    };
    match read_type(suffix_start, suffix, ('f', 64)) {
        Some((letter, width)) => read_float(letter, width, number_lexeme),
        None => None,
    }
}

/// The value of a literal token, if it has one.
pub fn read_literal(token: &Token) -> (result: Option<Value>)
    ensures
        result.deep_view() == literal_value(token.deep_view()),
{
    match token.kind {
        TokenKind::Literal { kind: LiteralTokenKind::Integer(integer), suffix_start } => {
            read_integer_literal(token, integer, suffix_start)
        },
        TokenKind::Literal { kind: LiteralTokenKind::Float(_), suffix_start } => {
            read_float_literal(token, suffix_start)
        },
        _ => None,
    }
}

} // verus!
