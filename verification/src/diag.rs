//! The diagnostic line a guard emits before aborting: the selected
//! message followed by the guard's own source position, rendered as
//! `message at file:line`.

use vstd::prelude::*;
use vstd::string::StringExecFns;

verus! {

/// The text used when a guard was built without a custom message.
pub open spec fn default_message_spec() -> Seq<char> {
    "cannot unwind past stack frame"@
}

/// The default diagnostic text, as the executable sees it.
pub fn default_message() -> (text: &'static str)
    ensures
        text@ == default_message_spec(),
{
    "cannot unwind past stack frame"
}

/// The decimal digit character for a value below ten.
pub open spec fn digit_char(d: nat) -> char
    recommends
        d < 10,
{
    if d == 0 {
        '0'
    } else if d == 1 {
        '1'
    } else if d == 2 {
        '2'
    } else if d == 3 {
        '3'
    } else if d == 4 {
        '4'
    } else if d == 5 {
        '5'
    } else if d == 6 {
        '6'
    } else if d == 7 {
        '7'
    } else if d == 8 {
        '8'
    } else {
        '9'
    }
}

/// The usual decimal rendering of a natural number: most significant
/// digit first, no leading zeros except for zero itself.
pub open spec fn decimal_digits(n: nat) -> Seq<char>
    decreases n,
{
    if n < 10 {
        seq![digit_char(n)]
    } else {
        decimal_digits(n / 10) + seq![digit_char(n % 10)]
    }
}

fn digit_str(d: u64) -> (s: &'static str)
    requires
        d < 10,
    ensures
        s@ == seq![digit_char(d as nat)],
{
    if d == 0 {
        let s = "0";
        proof {
            reveal_strlit("0");
            assert(s@ =~= seq![digit_char(0)]);
        }
        s
    } else if d == 1 {
        let s = "1";
        proof {
            reveal_strlit("1");
            assert(s@ =~= seq![digit_char(1)]);
        }
        s
    } else if d == 2 {
        let s = "2";
        proof {
            reveal_strlit("2");
            assert(s@ =~= seq![digit_char(2)]);
        }
        s
    } else if d == 3 {
        let s = "3";
        proof {
            reveal_strlit("3");
            assert(s@ =~= seq![digit_char(3)]);
        }
        s
    } else if d == 4 {
        let s = "4";
        proof {
            reveal_strlit("4");
            assert(s@ =~= seq![digit_char(4)]);
        }
        s
    } else if d == 5 {
        let s = "5";
        proof {
            reveal_strlit("5");
            assert(s@ =~= seq![digit_char(5)]);
        }
        s
    } else if d == 6 {
        let s = "6";
        proof {
            reveal_strlit("6");
            assert(s@ =~= seq![digit_char(6)]);
        }
        s
    } else if d == 7 {
        let s = "7";
        proof {
            reveal_strlit("7");
            assert(s@ =~= seq![digit_char(7)]);
        }
        s
    } else if d == 8 {
        let s = "8";
        proof {
            reveal_strlit("8");
            assert(s@ =~= seq![digit_char(8)]);
        }
        s
    } else {
        let s = "9";
        proof {
            reveal_strlit("9");
            assert(s@ =~= seq![digit_char(9)]);
        }
        s
    }
}

/// Render a number in decimal, matching `decimal_digits`.
pub fn decimal_string(n: u64) -> (rendered: String)
    ensures
        rendered@ == decimal_digits(n as nat),
    decreases n,
{
    let last = digit_str(n % 10);
    if n < 10 {
        String::from_str(last)
    } else {
        let prefix = decimal_string(n / 10);
        let rendered = prefix.concat(last);
        proof {
            assert(rendered@ =~= decimal_digits(n as nat));
        }
        rendered
    }
}

/// The full diagnostic line: the chosen message, then the guard's own
/// source position.
pub open spec fn diagnostic_line_spec(message: Seq<char>, file: Seq<char>, line: u32) -> Seq<char> {
    message + " at "@ + file + ":"@ + decimal_digits(line as nat)
}

/// Build the diagnostic line exactly as specified by
/// `diagnostic_line_spec`.
pub fn render_diagnostic(message: &str, file: &str, line: u32) -> (rendered: String)
    ensures
        rendered@ == diagnostic_line_spec(message@, file@, line),
{
    let mut rendered = String::from_str(message);
    rendered.append(" at ");
    rendered.append(file);
    rendered.append(":");
    let digits = decimal_string(line as u64);
    rendered.append(digits.as_str());
    proof {
        assert(rendered@ =~= diagnostic_line_spec(message@, file@, line));
    }
    rendered
}

} // verus!
