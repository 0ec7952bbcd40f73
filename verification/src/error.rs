//! Driver error taxonomy, and the rendering of its messages.

use vstd::prelude::*;
use vstd::string::StringExecFns;

verus! {

/// Errors a driver operation can surface.
#[derive(Debug, Clone, PartialEq, Eq)]
pub enum RtlsdrError {
    /// A driver-level invariant violation, with a description.
    RtlsdrErr(String),
    /// An error surfaced by the USB transport, as text.
    Usb(String),
    /// Initialization cannot complete (tuner detection exhausted its table
    /// or found no recognizable chip); the session must not be handed out.
    FatalInit(String),
}

/// The character of a single decimal digit.
pub open spec fn decimal_digit(d: int) -> char
    recommends
        0 <= d <= 9,
{
    if d == 0 {
        '0'
    } else if d == 1 {
        '1'
    } else if d == 2 {
        '2'
    } else if d == 3 {
        '3'
    } else if d == 4 {
        '4'
    } else if d == 5 {
        '5'
    } else if d == 6 {
        '6'
    } else if d == 7 {
        '7'
    } else if d == 8 {
        '8'
    } else {
        '9'
    }
}

/// The decimal rendering of a nonnegative number, most significant digit
/// first, without leading zeros (`0` renders as "0").
pub open spec fn decimal_digits(n: int) -> Seq<char>
    recommends
        n >= 0,
    decreases n,
{
    if n <= 9 {
        seq![decimal_digit(n)]
    } else {
        decimal_digits(n / 10) + seq![decimal_digit(n % 10)]
    }
}

/// The message of the error a rejected sample rate carries.
pub open spec fn invalid_rate_message(rate: u32) -> Seq<char> {
    "Invalid sample rate: "@ + decimal_digits(rate as int) + " Hz"@
}

/// The message of the error a rejected crystal frequency carries.
pub open spec fn invalid_xtal_message(rtl_freq: u32) -> Seq<char> {
    "set_xtal_freq error: rtl_freq "@ + decimal_digits(rtl_freq as int) + " out of bounds"@
}

/// One decimal digit as a string slice.
fn digit_str(d: u32) -> (r: &'static str)
    requires
        d <= 9,
    ensures
        r@ == seq![decimal_digit(d as int)],
{
    if d == 0 {
        proof {
            reveal_strlit("0");
        }
        assert("0"@ =~= seq!['0']);
        "0"
    } else if d == 1 {
        proof {
            reveal_strlit("1");
        }
        assert("1"@ =~= seq!['1']);
        "1"
    } else if d == 2 {
        proof {
            reveal_strlit("2");
        }
        assert("2"@ =~= seq!['2']);
        "2"
    } else if d == 3 {
        proof {
            reveal_strlit("3");
        }
        assert("3"@ =~= seq!['3']);
        "3"
    } else if d == 4 {
        proof {
            reveal_strlit("4");
        }
        assert("4"@ =~= seq!['4']);
        "4"
    } else if d == 5 {
        proof {
            reveal_strlit("5");
        }
        assert("5"@ =~= seq!['5']);
        "5"
    } else if d == 6 {
        proof {
            reveal_strlit("6");
        }
        assert("6"@ =~= seq!['6']);
        "6"
    } else if d == 7 {
        proof {
            reveal_strlit("7");
        }
        assert("7"@ =~= seq!['7']);
        "7"
    } else if d == 8 {
        proof {
            reveal_strlit("8");
        }
        assert("8"@ =~= seq!['8']);
        "8"
    } else {
        proof {
            reveal_strlit("9");
        }
        assert("9"@ =~= seq!['9']);
        "9"
    }
}

/// Appends the decimal rendering of a number to a string.
fn append_decimal(s: &mut String, n: u32)
    ensures
        final(s)@ == old(s)@ + decimal_digits(n as int),
    decreases n,
{
    if n <= 9 {
        s.append(digit_str(n));
    } else {
        append_decimal(s, n / 10);
        s.append(digit_str(n % 10));
        assert(final(s)@ =~= old(s)@ + decimal_digits(n as int));
    }
}

/// Renders the rejected-sample-rate message.
pub fn render_invalid_rate(rate: u32) -> (s: String)
    ensures
        s@ == invalid_rate_message(rate),
{
    let mut s: String = "Invalid sample rate: ".to_owned();
    append_decimal(&mut s, rate);
    s.append(" Hz");
    assert(s@ =~= invalid_rate_message(rate));
    s
}

/// Renders the rejected-crystal message.
pub fn render_invalid_xtal(rtl_freq: u32) -> (s: String)
    ensures
        s@ == invalid_xtal_message(rtl_freq),
{
    let mut s: String = "set_xtal_freq error: rtl_freq ".to_owned();
    append_decimal(&mut s, rtl_freq);
    s.append(" out of bounds");
    assert(s@ =~= invalid_xtal_message(rtl_freq));
    s
}

} // verus!
