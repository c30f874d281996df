//! Rendering of the package-level failure summary: a verified decimal
//! rendering of the failing count and the correctly pluralized message.

use vstd::prelude::*;

verus! {

/// The decimal digit character for a value below ten.
pub open spec fn digit_char(d: nat) -> char {
    if d == 0 {
        '0'
    } else if d == 1 {
        '1'
    } else if d == 2 {
        '2'
    } else if d == 3 {
        '3'
    } else if d == 4 {
        '4'
    } else if d == 5 {
        '5'
    } else if d == 6 {
        '6'
    } else if d == 7 {
        '7'
    } else if d == 8 {
        '8'
    } else {
        '9'
    }
}

/// The usual decimal rendering of a number: most significant digit
/// first, no leading zeros except for zero itself.
pub open spec fn decimal_model(n: nat) -> Seq<char>
    decreases n,
{
    if n < 10 {
        seq![digit_char(n)]
    } else {
        decimal_model(n / 10).push(digit_char(n % 10))
    }
}

/// The package-level failure summary: the package name in brackets, the
/// failing count in decimal, and "test failed", pluralized exactly when
/// the count is not one.
pub open spec fn failure_message_model(package: Seq<char>, failing: nat) -> Seq<char> {
    "["@ + package + "] "@ + decimal_model(failing) + (if failing == 1 {
        " test failed"@
    } else {
        " tests failed"@
    })
}

fn digit_str(d: u64) -> (r: &'static str)
    requires
        d < 10,
    ensures
        r@ == seq![digit_char(d as nat)],
{
    let r: &'static str = if d == 0 {
        "0"
    } else if d == 1 {
        "1"
    } else if d == 2 {
        "2"
    } else if d == 3 {
        "3"
    } else if d == 4 {
        "4"
    } else if d == 5 {
        "5"
    } else if d == 6 {
        "6"
    } else if d == 7 {
        "7"
    } else if d == 8 {
        "8"
    } else {
        "9"
    };
    proof {
        reveal_strlit("0");
        reveal_strlit("1");
        reveal_strlit("2");
        reveal_strlit("3");
        reveal_strlit("4");
        reveal_strlit("5");
        reveal_strlit("6");
        reveal_strlit("7");
        reveal_strlit("8");
        reveal_strlit("9");
        assert(r@ =~= seq![digit_char(d as nat)]);
    }
    r
}

/// Render a number in decimal.
pub fn decimal_string(n: u64) -> (r: String)
    ensures
        r@ == decimal_model(n as nat),
    decreases n,
{
    if n < 10 {
        String::from_str(digit_str(n))
    } else {
        let head = decimal_string(n / 10);
        let r = head.concat(digit_str(n % 10));
        proof {
            assert(r@ =~= decimal_model(n as nat));
        }
        r
    }
}

/// Render the package-level failure summary.
pub fn failure_message(package: &str, failing: u64) -> (r: String)
    ensures
        r@ == failure_message_model(package@, failing as nat),
{
    let mut message = String::from_str("[");
    message.append(package);
    message.append("] ");
    let count = decimal_string(failing);
    message.append(count.as_str());
    if failing == 1 {
        message.append(" test failed");
    } else {
        message.append(" tests failed");
    }
    proof {
        assert(message@ =~= failure_message_model(package@, failing as nat));
    }
    message
}

} // verus!
