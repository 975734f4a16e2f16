use vstd::prelude::*;
use vstd::string::StringExecFns;

verus! {

pub open spec fn digit_char(d: nat) -> char {
    if d == 0 {
        '0'
    } else if d == 1 {
        '1'
    } else if d == 2 {
        '2'
    } else if d == 3 {
        '3'
    } else if d == 4 {
        '4'
    } else if d == 5 {
        '5'
    } else if d == 6 {
        '6'
    } else if d == 7 {
        '7'
    } else if d == 8 {
        '8'
    } else {
        '9'
    }
}

/// The decimal digits of `n`, most significant first, without leading zeros.
pub open spec fn decimal_digits(n: nat) -> Seq<char>
    decreases n,
{
    if n < 10 {
        seq![digit_char(n)]
    } else {
        decimal_digits(n / 10).push(digit_char(n % 10))
    }
}

/// `n` in decimal, with a leading `-` when negative.
pub open spec fn decimal(n: int) -> Seq<char> {
    if n < 0 {
        seq!['-'] + decimal_digits((-n) as nat)
    } else {
        decimal_digits(n as nat)
    }
}

/// The display line of a log event: its timestamp in brackets, a space, the message.
pub open spec fn log_line_text(timestamp: int, message: Seq<char>) -> Seq<char> {
    seq!['['] + decimal(timestamp) + seq![']', ' '] + message
}

fn digit_str(d: u64) -> (r: &'static str)
    requires
        d < 10,
    ensures
        r@ == seq![digit_char(d as nat)],
{
    proof {
        reveal_strlit("0");
        reveal_strlit("1");
        reveal_strlit("2");
        reveal_strlit("3");
        reveal_strlit("4");
        reveal_strlit("5");
        reveal_strlit("6");
        reveal_strlit("7");
        reveal_strlit("8");
        reveal_strlit("9");
    }
    if d == 0 {
        "0"
    } else if d == 1 {
        "1"
    } else if d == 2 {
        "2"
    } else if d == 3 {
        "3"
    } else if d == 4 {
        "4"
    } else if d == 5 {
        "5"
    } else if d == 6 {
        "6"
    } else if d == 7 {
        "7"
    } else if d == 8 {
        "8"
    } else {
        "9"
    }
}

/// The decimal digits of `n`.
pub fn decimal_digits_exec(n: u64) -> (r: String)
    ensures
        r@ == decimal_digits(n as nat),
{
    let mut m = n;
    let mut acc = String::new();
    assert(decimal_digits(n as nat) =~= decimal_digits(m as nat) + acc@);
    while m >= 10
        invariant
            decimal_digits(n as nat) == decimal_digits(m as nat) + acc@,
        decreases m,
    {
        let d = String::from_str(digit_str(m % 10));
        let tail = acc;
        acc = d.concat(tail.as_str());
        proof {
            assert(decimal_digits(m as nat) == decimal_digits((m / 10) as nat).push(
                digit_char((m % 10) as nat),
            ));
            assert(decimal_digits(m as nat) + tail@ =~= decimal_digits((m / 10) as nat) + acc@);
        }
        m = m / 10;
    }
    let d = String::from_str(digit_str(m));
    let r = d.concat(acc.as_str());
    r
}

/// `n` in decimal.
pub fn decimal_exec(n: i64) -> (r: String)
    ensures
        r@ == decimal(n as int),
{
    if n < 0 {
        let magnitude = (0 - (n as i128)) as u64;
        let digits = decimal_digits_exec(magnitude);
        proof {
            reveal_strlit("-");
        }
        String::from_str("-").concat(digits.as_str())
    } else {
        decimal_digits_exec(n as u64)
    }
}

/// The display line of a log event: `[timestamp] message`.
pub fn format_log_line(timestamp: i64, message: &str) -> (r: String)
    ensures
        r@ == log_line_text(timestamp as int, message@),
{
    proof {
        reveal_strlit("[");
        reveal_strlit("] ");
    }
    let line = String::from_str("[").concat(decimal_exec(timestamp).as_str());
    let line = line.concat("] ");
    let line = line.concat(message);
    assert(line@ =~= log_line_text(timestamp as int, message@));
    line
}

} // verus!
