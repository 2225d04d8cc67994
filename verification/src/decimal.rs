//! Decimal numerals: what a byte string denotes, how a number is written, and
//! the proof that writing and reading agree.

use vstd::prelude::*;
use vstd::string::*;
use vstd::utf8::*;

verus! {

/// Whether `b` is one of the ASCII digits `0` to `9`.
pub open spec fn is_digit(b: u8) -> bool {
    0x30 <= b <= 0x39
}

/// Whether every byte of `s` is an ASCII digit.
pub open spec fn all_digits(s: Seq<u8>) -> bool {
    forall|i: int| 0 <= i < s.len() ==> is_digit(#[trigger] s[i])
}

/// The number that a string of ASCII digits denotes in base ten.
pub open spec fn digits_value(s: Seq<u8>) -> nat
    decreases s.len(),
{
    if s.len() == 0 {
        0
    } else {
        10 * digits_value(s.drop_last()) + (s.last() - 0x30) as nat
    }
}

/// Whether `s` begins with a plus or a minus sign.
pub open spec fn has_sign(s: Seq<u8>) -> bool {
    s.len() > 0 && (s[0] == 0x2b || s[0] == 0x2d)
}

/// The part of a numeral behind its optional sign.
pub open spec fn numeral_digits(s: Seq<u8>) -> Seq<u8> {
    if has_sign(s) {
        s.subrange(1, s.len() as int)
    } else {
        s
    }
}

/// Whether `s` is a numeral: an optional sign followed by at least one digit
/// and nothing else.
pub open spec fn is_numeral(s: Seq<u8>) -> bool {
    numeral_digits(s).len() > 0 && all_digits(numeral_digits(s))
}

/// The integer that a numeral denotes.
pub open spec fn numeral_value(s: Seq<u8>) -> int {
    if s.len() > 0 && s[0] == 0x2d {
        -(digits_value(numeral_digits(s)) as int)
    } else {
        digits_value(numeral_digits(s)) as int
    }
}

/// The byte that `s` denotes, if it is a numeral whose value fits in a byte.
pub open spec fn parsed_u8(s: Seq<u8>) -> Option<u8> {
    if is_numeral(s) && 0 <= numeral_value(s) <= 255 {
        Some(numeral_value(s) as u8)
    } else {
        None
    }
}

/// The character for a single decimal digit `d`.
pub open spec fn digit_char(d: int) -> char {
    (0x30 + d) as u8 as char
}

/// The shortest decimal text of `n`: no sign and no leading zero.
pub open spec fn decimal_text(n: nat) -> Seq<char>
    decreases n,
{
    if n < 10 {
        seq![digit_char(n as int)]
    } else {
        decimal_text(n / 10).push(digit_char((n % 10) as int))
    }
}

/// The error of `btoi`'s parsing functions. Nothing is read from it.
#[verifier::external_type_specification]
#[verifier::external_body]
pub struct ExParseIntegerError(btoi::ParseIntegerError);

/// `btoi::btoi` at type `u8`.
///
/// The contract restates the function's documentation: the call succeeds
/// exactly on an optional sign followed by one or more decimal digits whose
/// value lies in `0..=255`, and then returns that value. Which error comes
/// back otherwise is left open.
#[verifier::external_body]
fn btoi_u8(bytes: &[u8]) -> (r: Result<u8, btoi::ParseIntegerError>)
    ensures
        r is Ok <==> parsed_u8(bytes@) is Some,
        r matches Ok(v) ==> parsed_u8(bytes@) == Some(v),
{
    btoi::btoi::<u8>(bytes)
}

/// Reads a numeral that fits in a byte.
pub fn parse_u8(bytes: &[u8]) -> (r: Option<u8>)
    ensures
        r == parsed_u8(bytes@),
{
    match btoi_u8(bytes) {
        Ok(v) => Some(v),
        Err(_) => None,
    }
}

/// The one-character text of the decimal digit `d`.
fn digit_str(d: u8) -> (s: &'static str)
    requires
        d < 10,
    ensures
        s@ == seq![digit_char(d as int)],
{
    proof {
        reveal_strlit("0");
        reveal_strlit("1");
        reveal_strlit("2");
        reveal_strlit("3");
        reveal_strlit("4");
        reveal_strlit("5");
        reveal_strlit("6");
        reveal_strlit("7");
        reveal_strlit("8");
        reveal_strlit("9");
    }
    let s = match d {
        0 => "0",
        1 => "1",
        2 => "2",
        3 => "3",
        4 => "4",
        5 => "5",
        6 => "6",
        7 => "7",
        8 => "8",
        _ => "9",
    };
    assert(s@ =~= seq![digit_char(d as int)]);
    s
}

/// Appends the shortest decimal text of `n` to `out`.
pub fn push_decimal(out: &mut String, n: u8)
    ensures
        final(out)@ == old(out)@ + decimal_text(n as nat),
{
    let ghost before = out@;
    if n >= 100 {
        out.append(digit_str(n / 100));
    }
    if n >= 10 {
        out.append(digit_str((n / 10) % 10));
    }
    out.append(digit_str(n % 10));
    proof {
        reveal_with_fuel(decimal_text, 3);
        assert(out@ =~= before + decimal_text(n as nat));
    }
}

/// The bytes of a text of ASCII characters.
pub open spec fn ascii_bytes(chars: Seq<char>) -> Seq<u8> {
    Seq::new(chars.len(), |i: int| chars[i] as u8)
}

/// A text of ASCII characters is encoded one byte per character.
pub proof fn lemma_ascii_encoding(chars: Seq<char>)
    requires
        is_ascii_chars(chars),
    ensures
        encode_utf8(chars) == ascii_bytes(chars),
{
    is_ascii_chars_encode_utf8(chars);
    assert(encode_utf8(chars) =~= ascii_bytes(chars));
}

/// Decimal text is written in digits only, and reading those digits gives
/// the number back.
pub proof fn lemma_decimal_text_digits(n: nat)
    ensures
        decimal_text(n).len() >= 1,
        is_ascii_chars(decimal_text(n)),
        all_digits(ascii_bytes(decimal_text(n))),
        digits_value(ascii_bytes(decimal_text(n))) == n,
    decreases n,
{
    let text = decimal_text(n);
    let bytes = ascii_bytes(text);
    if n < 10 {
        assert(bytes.drop_last() =~= Seq::<u8>::empty());
        assert(digits_value(bytes.drop_last()) == 0);
    } else {
        lemma_decimal_text_digits(n / 10);
        let front = ascii_bytes(decimal_text(n / 10));
        assert(bytes.drop_last() =~= front);
        assert(bytes.last() == 0x30 + n % 10);
        assert forall|i: int| 0 <= i < bytes.len() implies is_digit(#[trigger] bytes[i]) by {
            if i < front.len() {
                assert(bytes[i] == front[i]);
            }
        }
    }
}

/// Reading the decimal text of a byte gives the byte back.
pub proof fn lemma_decimal_round_trip(n: nat)
    requires
        n <= 255,
    ensures
        parsed_u8(encode_utf8(decimal_text(n))) == Some(n as u8),
{
    lemma_decimal_text_digits(n);
    lemma_ascii_encoding(decimal_text(n));
    let bytes = ascii_bytes(decimal_text(n));
    assert(is_digit(bytes[0]));
    assert(!has_sign(bytes));
}

} // verus!
