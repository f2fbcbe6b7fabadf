//! Ports as text: reading a port from decimal digits, and writing the
//! address of a server.

use vstd::prelude::*;
use vstd::string::StringExecFns;

verus! {

/// Whether `c` is one of the ten decimal digits.
pub open spec fn is_digit(c: char) -> bool {
    '0' <= c <= '9'
}

/// The number that the digit `c` stands for.
pub open spec fn digit_value(c: char) -> nat {
    (c as u32 - '0' as u32) as nat
}

/// The digit that stands for `d`, a number below ten.
pub open spec fn digit_char(d: nat) -> char {
    if d == 0 {
        '0'
    } else if d == 1 {
        '1'
    } else if d == 2 {
        '2'
    } else if d == 3 {
        '3'
    } else if d == 4 {
        '4'
    } else if d == 5 {
        '5'
    } else if d == 6 {
        '6'
    } else if d == 7 {
        '7'
    } else if d == 8 {
        '8'
    } else {
        '9'
    }
}

/// Whether `text` is made of decimal digits only.
pub open spec fn all_digits(text: Seq<char>) -> bool {
    forall|i: int| 0 <= i < text.len() ==> is_digit(#[trigger] text[i])
}

/// The number that the decimal digits `digits` write.
pub open spec fn decimal_value(digits: Seq<char>) -> nat
    decreases digits.len(),
{
    if digits.len() == 0 {
        0
    } else {
        10 * decimal_value(digits.drop_last()) + digit_value(digits.last())
    }
}

/// The decimal digits that write `n`, without leading zeros.
pub open spec fn decimal_text(n: nat) -> Seq<char>
    decreases n,
{
    if n < 10 {
        seq![digit_char(n)]
    } else {
        decimal_text(n / 10).push(digit_char(n % 10))
    }
}

/// The digits of a port written as text: the text itself, or what follows
/// a single leading `+`.
pub open spec fn port_digits(text: Seq<char>) -> Seq<char> {
    if text.len() > 0 && text[0] == '+' {
        text.drop_first()
    } else {
        text
    }
}

/// The port that `text` writes, if it writes one: at least one decimal
/// digit, after an optional `+`, with a value of at most 65535.
pub open spec fn port_of(text: Seq<char>) -> Option<u16> {
    let digits = port_digits(text);
    if digits.len() > 0 && all_digits(digits) && decimal_value(digits) <= u16::MAX {
        Some(decimal_value(digits) as u16)
    } else {
        None
    }
}

/// The address of the server on `port`, followed by `path`.
pub open spec fn uri_text(port: u16, path: Seq<char>) -> Seq<char> {
    "http://localhost:"@ + decimal_text(port as nat) + path
}

/// More digits never write a smaller number.
proof fn lemma_decimal_value_grows(digits: Seq<char>, shorter: int)
    requires
        0 <= shorter <= digits.len(),
    ensures
        decimal_value(digits.take(shorter)) <= decimal_value(digits),
    decreases digits.len(),
{
    if shorter == digits.len() {
        assert(digits.take(shorter) =~= digits);
    } else {
        lemma_decimal_value_grows(digits.drop_last(), shorter);
        assert(digits.drop_last().take(shorter) =~= digits.take(shorter));
    }
}

/// The digits written for a number are digits, and they write that number.
proof fn lemma_decimal_text_value(n: nat)
    ensures
        decimal_text(n).len() > 0,
        all_digits(decimal_text(n)),
        decimal_value(decimal_text(n)) == n,
    decreases n,
{
    let text = decimal_text(n);
    if n < 10 {
        assert(decimal_value(text.drop_last()) == 0);
    } else {
        lemma_decimal_text_value(n / 10);
        assert(text.drop_last() =~= decimal_text(n / 10));
    }
}

/// A port written in decimal digits reads back as the same port.
pub proof fn lemma_port_text_reads_back(port: u16)
    ensures
        port_of(decimal_text(port as nat)) == Some(port),
{
    lemma_decimal_text_value(port as nat);
}

/// Reads a port from `text`.
pub fn parse_port(text: &str) -> (port: Option<u16>)
    ensures
        port == port_of(text@),
{
    let ghost digits = port_digits(text@);
    let ghost skipped: int = text@.len() - digits.len();
    let mut value: u32 = 0;
    let ghost mut seen: int = 0;
    let mut any = false;
    let mut first = true;
    for c in it: text.chars()
        invariant
            it.seq() == text@,
            digits == port_digits(text@),
            skipped == text@.len() - digits.len(),
            first <==> it.index() == 0,
            0 <= seen <= it.index(),
            !first ==> seen == it.index() - skipped,
            first ==> seen == 0,
            any <==> seen > 0,
            all_digits(digits.take(seen)),
            value == decimal_value(digits.take(seen)),
            value <= u16::MAX,
    {
        if first && c == '+' {
            first = false;
        } else {
            first = false;
            assert(digits[seen] == c);
            if c < '0' || c > '9' {
                return None;
            }
            let digit: u32 = c as u32 - '0' as u32;
            let ghost before = digits.take(seen);
            let ghost now = digits.take(seen + 1);
            proof {
                assert(now.drop_last() =~= before);
            }
            value = value * 10 + digit;
            any = true;
            proof {
                seen = seen + 1;
            }
            if value > 65535 {
                proof {
                    lemma_decimal_value_grows(digits, seen);
                }
                return None;
            }
        }
    }
    proof {
        assert(digits.take(seen) =~= digits);
    }
    if any {
        Some(value as u16)
    } else {
        None
    }
}

/// The text of the digit that stands for `d`.
fn digit_text(d: u16) -> (text: &'static str)
    requires
        d < 10,
    ensures
        text@ == seq![digit_char(d as nat)],
{
    proof {
        reveal_strlit("0");
        reveal_strlit("1");
        reveal_strlit("2");
        reveal_strlit("3");
        reveal_strlit("4");
        reveal_strlit("5");
        reveal_strlit("6");
        reveal_strlit("7");
        reveal_strlit("8");
        reveal_strlit("9");
    }
    let text = if d == 0 {
        "0"
    } else if d == 1 {
        "1"
    } else if d == 2 {
        "2"
    } else if d == 3 {
        "3"
    } else if d == 4 {
        "4"
    } else if d == 5 {
        "5"
    } else if d == 6 {
        "6"
    } else if d == 7 {
        "7"
    } else if d == 8 {
        "8"
    } else {
        "9"
    };
    text
}

/// Appends the decimal digits of `n` to `out`.
pub fn push_decimal(out: &mut String, n: u16)
    ensures
        final(out)@ == old(out)@ + decimal_text(n as nat),
    decreases n,
{
    if n >= 10 {
        push_decimal(out, n / 10);
    }
    out.append(digit_text(n % 10));
}

/// Writes the address of the server on `port`, followed by `path`.
pub fn format_uri(port: u16, path: &str) -> (text: String)
    ensures
        text@ == uri_text(port, path@),
{
    let mut text = String::from_str("http://localhost:");
    push_decimal(&mut text, port);
    text.append(path);
    text
}

} // verus!
