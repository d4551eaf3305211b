//! Failure kinds that deployment work can report.

use vstd::prelude::*;
use vstd::string::StringExecFns;

verus! {

/// The character of one decimal digit.
pub open spec fn spec_digit_char(d: int) -> char {
    if d == 0 {
        '0'
    } else if d == 1 {
        '1'
    } else if d == 2 {
        '2'
    } else if d == 3 {
        '3'
    } else if d == 4 {
        '4'
    } else if d == 5 {
        '5'
    } else if d == 6 {
        '6'
    } else if d == 7 {
        '7'
    } else if d == 8 {
        '8'
    } else {
        '9'
    }
}

/// The decimal digits of a non-negative number, most significant first.
pub open spec fn spec_dec_digits(n: int) -> Seq<char>
    decreases n,
{
    if n < 10 {
        seq![spec_digit_char(n)]
    } else {
        spec_dec_digits(n / 10).push(spec_digit_char(n % 10))
    }
}

/// The decimal rendering of a signed number: a minus sign before the digits
/// when it is negative.
pub open spec fn spec_int_string(n: int) -> Seq<char> {
    if n < 0 {
        seq!['-'] + spec_dec_digits(-n)
    } else {
        spec_dec_digits(n)
    }
}

/// One decimal digit as text.
fn digit_str(d: u64) -> (r: &'static str)
    requires
        d < 10,
    ensures
        r@ == seq![spec_digit_char(d as int)],
{
    proof {
        reveal_strlit("0");
        reveal_strlit("1");
        reveal_strlit("2");
        reveal_strlit("3");
        reveal_strlit("4");
        reveal_strlit("5");
        reveal_strlit("6");
        reveal_strlit("7");
        reveal_strlit("8");
        reveal_strlit("9");
    }
    if d == 0 {
        proof {
            assert("0"@ =~= seq!['0']);
        }
        "0"
    } else if d == 1 {
        proof {
            assert("1"@ =~= seq!['1']);
        }
        "1"
    } else if d == 2 {
        proof {
            assert("2"@ =~= seq!['2']);
        }
        "2"
    } else if d == 3 {
        proof {
            assert("3"@ =~= seq!['3']);
        }
        "3"
    } else if d == 4 {
        proof {
            assert("4"@ =~= seq!['4']);
        }
        "4"
    } else if d == 5 {
        proof {
            assert("5"@ =~= seq!['5']);
        }
        "5"
    } else if d == 6 {
        proof {
            assert("6"@ =~= seq!['6']);
        }
        "6"
    } else if d == 7 {
        proof {
            assert("7"@ =~= seq!['7']);
        }
        "7"
    } else if d == 8 {
        proof {
            assert("8"@ =~= seq!['8']);
        }
        "8"
    } else {
        proof {
            assert("9"@ =~= seq!['9']);
        }
        "9"
    }
}

/// Render a non-negative number in decimal.
pub fn dec_string(n: u64) -> (r: String)
    ensures
        r@ == spec_dec_digits(n as int),
    decreases n,
{
    if n < 10 {
        String::from_str(digit_str(n))
    } else {
        let mut s = dec_string(n / 10);
        s.append(digit_str(n % 10));
        proof {
            assert(s@ =~= spec_dec_digits(n as int / 10).push(spec_digit_char(n as int % 10)));
        }
        s
    }
}

/// Render a signed number in decimal.
pub fn int_string(n: i64) -> (r: String)
    ensures
        r@ == spec_int_string(n as int),
{
    if n < 0 {
        let magnitude: u64 = if n == i64::MIN {
            9223372036854775808u64
        } else {
            (-n) as u64
        };
        proof {
            reveal_strlit("-");
            assert("-"@ =~= seq!['-']);
        }
        let mut s = String::from_str("-");
        s.append(dec_string(magnitude).as_str());
        s
    } else {
        dec_string(n as u64)
    }
}

/// Every way a deployment can fail. A stage failure is wrapped with the
/// command line and exit code so the aggregate report stays actionable.
#[derive(Debug, PartialEq, Eq)]
pub enum ReignError {
    /// The external process could not be started at all.
    ProcessSpawnFailed { command: String },
    /// The external process ran and exited non-zero (a signal is reported
    /// as code -1, as the exit classifier states).
    ProcessExitedNonZero { command: String, code: i32 },
    /// A log or artifact filesystem operation failed.
    IOError { detail: String },
    /// A required environment variable was absent.
    MissingEnvironmentVariable { name: String },
    /// The caller supplied too few arguments (here: an empty host list).
    InsufficientArguments { given: usize },
}

/// The one human-readable line each failure reports.
pub open spec fn spec_error_message(e: ReignError) -> Seq<char> {
    match e {
        ReignError::ProcessSpawnFailed { command } => "Failed to spawn command: \""@ + command@
            + "\""@,
        ReignError::ProcessExitedNonZero { command, code } => "Command: \""@ + command@
            + "\". Exit code: "@ + spec_int_string(code as int),
        ReignError::IOError { detail } => "I/O error: "@ + detail@,
        ReignError::MissingEnvironmentVariable { name } => "Missing environment variable: "@
            + name@,
        ReignError::InsufficientArguments { given } => "Insufficient arguments: "@
            + spec_dec_digits(given as int),
    }
}

impl ReignError {
    /// The one human-readable line this failure reports, naming the failed
    /// command and exit code where there is one.
    pub fn message(&self) -> (r: String)
        ensures
            r@ == spec_error_message(*self),
    {
        match self {
            ReignError::ProcessSpawnFailed { command } => {
                let mut s = String::from_str("Failed to spawn command: \"");
                s.append(command.as_str());
                s.append("\"");
                s
            },
            ReignError::ProcessExitedNonZero { command, code } => {
                let mut s = String::from_str("Command: \"");
                s.append(command.as_str());
                s.append("\". Exit code: ");
                s.append(int_string(*code as i64).as_str());
                s
            },
            ReignError::IOError { detail } => {
                let mut s = String::from_str("I/O error: ");
                s.append(detail.as_str());
                s
            },
            ReignError::MissingEnvironmentVariable { name } => {
                let mut s = String::from_str("Missing environment variable: ");
                s.append(name.as_str());
                s
            },
            ReignError::InsufficientArguments { given } => {
                let mut s = String::from_str("Insufficient arguments: ");
                s.append(dec_string(*given as u64).as_str());
                s
            },
        }
    }
}

impl Clone for ReignError {
    /// A clone reports exactly the same failure.
    fn clone(&self) -> (r: Self)
        ensures
            r == *self,
    {
        match self {
            ReignError::ProcessSpawnFailed { command } => ReignError::ProcessSpawnFailed {
                command: command.clone(),
            },
            ReignError::ProcessExitedNonZero { command, code } => {
                ReignError::ProcessExitedNonZero { command: command.clone(), code: *code }
            },
            ReignError::IOError { detail } => ReignError::IOError { detail: detail.clone() },
            ReignError::MissingEnvironmentVariable { name } => {
                ReignError::MissingEnvironmentVariable { name: name.clone() }
            },
            ReignError::InsufficientArguments { given } => ReignError::InsufficientArguments {
                given: *given,
            },
        }
    }
}

} // verus!
