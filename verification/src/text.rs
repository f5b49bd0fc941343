//! Text building blocks: appending to strings, lossy decoding of process
//! output, and the decimal rendering of optional exit codes and signals.

use vstd::prelude::*;

verus! {

/// Trusted: `String::push_str` of the standard library. It appends the
/// characters of `tail` to the string and leaves what was there in place.
pub assume_specification[ String::push_str ](s: &mut String, tail: &str)
    ensures
        final(s)@ == old(s)@ + tail@,
;

/// Trusted: `String::push` of the standard library. It appends the one
/// character `c` to the string.
pub assume_specification[ String::push ](s: &mut String, c: char)
    ensures
        final(s)@ == old(s)@.push(c),
;

/// The text that lossy UTF-8 decoding gives for a sequence of bytes: the
/// decoded characters, with each malformed sequence replaced by U+FFFD.
pub uninterp spec fn lossy_text(bytes: Seq<u8>) -> Seq<char>;

/// Trusted: `String::from_utf8_lossy` of the standard library, with the
/// result turned into an owned string. The result depends on the bytes
/// alone; on well-formed UTF-8 it is the text that the bytes encode.
#[verifier::external_body]
pub(crate) fn decode_lossy(bytes: &Vec<u8>) -> (text: String)
    ensures
        text@ == lossy_text(bytes@),
        vstd::utf8::valid_utf8(bytes@) ==> text@ == vstd::utf8::decode_utf8(bytes@),
{
    String::from_utf8_lossy(bytes).into_owned()
}

/// The character that stands for a decimal digit.
pub open spec fn digit_char(d: int) -> char {
    if d == 0 {
        '0'
    } else if d == 1 {
        '1'
    } else if d == 2 {
        '2'
    } else if d == 3 {
        '3'
    } else if d == 4 {
        '4'
    } else if d == 5 {
        '5'
    } else if d == 6 {
        '6'
    } else if d == 7 {
        '7'
    } else if d == 8 {
        '8'
    } else {
        '9'
    }
}

/// The decimal digits of a natural number, most significant first, without
/// leading zeros.
pub open spec fn decimal_text(n: nat) -> Seq<char>
    decreases n,
{
    if n < 10 {
        seq![digit_char(n as int)]
    } else {
        decimal_text(n / 10).push(digit_char((n % 10) as int))
    }
}

/// The decimal form of an integer: a minus sign for a negative one, then
/// the digits of its magnitude.
pub open spec fn integer_text(i: int) -> Seq<char> {
    if i < 0 {
        seq!['-'] + decimal_text((-i) as nat)
    } else {
        decimal_text(i as nat)
    }
}

/// How an optional number is shown in a log line: `None`, or the number
/// inside `Some(..)`.
pub open spec fn optional_text(value: Option<i32>) -> Seq<char> {
    match value {
        Some(i) => "Some("@ + integer_text(i as int) + ")"@,
        None => "None"@,
    }
}

fn digit(d: u64) -> (c: char)
    requires
        d < 10,
    ensures
        c == digit_char(d as int),
{
    if d == 0 {
        '0'
    } else if d == 1 {
        '1'
    } else if d == 2 {
        '2'
    } else if d == 3 {
        '3'
    } else if d == 4 {
        '4'
    } else if d == 5 {
        '5'
    } else if d == 6 {
        '6'
    } else if d == 7 {
        '7'
    } else if d == 8 {
        '8'
    } else {
        '9'
    }
}

fn push_decimal(s: &mut String, n: u64)
    ensures
        final(s)@ == old(s)@ + decimal_text(n as nat),
    decreases n,
{
    if n >= 10 {
        push_decimal(s, n / 10);
    }
    s.push(digit(n % 10));
    proof {
        if n >= 10 {
            assert(old(s)@ + decimal_text((n / 10) as nat).push(digit_char((n % 10) as int))
                =~= (old(s)@ + decimal_text((n / 10) as nat)).push(digit_char((n % 10) as int)));
        } else {
            assert(old(s)@ + seq![digit_char(n as int)] =~= old(s)@.push(digit_char(n as int)));
        }
    }
}

/// Appends the decimal form of `i` to `s`.
pub fn push_integer(s: &mut String, i: i32)
    ensures
        final(s)@ == old(s)@ + integer_text(i as int),
{
    if i < 0 {
        let magnitude: u64 = (-(i as i64)) as u64;
        s.push('-');
        push_decimal(s, magnitude);
        proof {
            assert((old(s)@.push('-')) + decimal_text(magnitude as nat) =~= old(s)@ + (seq!['-']
                + decimal_text((-(i as int)) as nat)));
        }
    } else {
        push_decimal(s, i as u64);
    }
}

/// Renders an optional exit code or signal number the way it is shown in
/// a termination log line.
pub fn render_optional(value: Option<i32>) -> (text: String)
    ensures
        text@ == optional_text(value),
{
    match value {
        Some(i) => {
            let mut text = String::new();
            text.push_str("Some(");
            push_integer(&mut text, i);
            text.push_str(")");
            proof {
                assert(text@ =~= "Some("@ + integer_text(i as int) + ")"@);
            }
            text
        },
        None => {
            let mut text = String::new();
            text.push_str("None");
            proof {
                assert(text@ =~= "None"@);
            }
            text
        },
    }
}

/// Joins two texts into a new string.
pub fn join_text(head: &str, tail: &str) -> (text: String)
    ensures
        text@ == head@ + tail@,
{
    let mut text = String::new();
    text.push_str(head);
    text.push_str(tail);
    proof {
        assert(text@ =~= head@ + tail@);
    }
    text
}

} // verus!
