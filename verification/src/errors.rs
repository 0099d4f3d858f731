//! The error taxonomy for fetch routines, and the fixed fallback link that
//! stands in for real data whenever a fetch cannot produce any.

use vstd::prelude::*;

verus! {

/// Why a fetch routine could not produce a display string.
///
/// A successful-but-empty listing from a provider that documents empty
/// results as normal is not an error: those fetchers substitute the fallback
/// link themselves and return it as a success.
#[derive(Clone, Copy, Debug, PartialEq, Eq, Structural)]
pub enum FetchError {
    /// A required credential was absent when the fetch was attempted.
    Configuration,
    /// The upstream service could not be reached at all.
    Transport,
    /// The upstream service answered with a non-success HTTP status.
    UpstreamStatus(u16),
    /// The response did not have the expected shape, or a required entry
    /// was missing from it.
    MalformedResponse,
}

/// The fallback reference link, as a sequence of characters.
pub open spec fn fallback_text() -> Seq<char> {
    "https://bit.ly/2Yzl1GH"@
}

/// The fixed fallback reference link shown whenever no real data is available.
pub fn fallback_link() -> (r: String)
    ensures
        r@ == fallback_text(),
{
    String::from_str("https://bit.ly/2Yzl1GH")
}

/// The fallback link is never the empty message.
pub proof fn lemma_fallback_nonempty()
    ensures
        fallback_text().len() > 0,
{
    reveal_strlit("https://bit.ly/2Yzl1GH");
}

/// Classify an upstream HTTP status: a success status passes, anything
/// else becomes the status error carrying that status.
pub fn classify_status(status: u16) -> (r: Result<(), FetchError>)
    ensures
        200 <= status < 300 ==> r is Ok,
        !(200 <= status < 300) ==> r == Err::<(), FetchError>(FetchError::UpstreamStatus(status)),
{
    if 200 <= status && status < 300 {
        Ok(())
    } else {
        Err(FetchError::UpstreamStatus(status))
    }
}

/// The character for one decimal digit.
pub open spec fn decimal_digit(d: nat) -> char {
    if d == 0 {
        '0'
    } else if d == 1 {
        '1'
    } else if d == 2 {
        '2'
    } else if d == 3 {
        '3'
    } else if d == 4 {
        '4'
    } else if d == 5 {
        '5'
    } else if d == 6 {
        '6'
    } else if d == 7 {
        '7'
    } else if d == 8 {
        '8'
    } else {
        '9'
    }
}

/// The decimal text of a number: its digits, most significant first, with
/// no sign and no leading zero except for zero itself.
pub open spec fn decimal_text(n: nat) -> Seq<char>
    decreases n,
{
    if n < 10 {
        seq![decimal_digit(n)]
    } else {
        decimal_text(n / 10) + seq![decimal_digit(n % 10)]
    }
}

/// One decimal digit as a string slice.
fn digit_str(d: u16) -> (r: &'static str)
    requires
        d < 10,
    ensures
        r@ == seq![decimal_digit(d as nat)],
{
    if d == 0 {
        proof {
            reveal_strlit("0");
            assert("0"@ =~= seq![decimal_digit(0)]);
        }
        "0"
    } else if d == 1 {
        proof {
            reveal_strlit("1");
            assert("1"@ =~= seq![decimal_digit(1)]);
        }
        "1"
    } else if d == 2 {
        proof {
            reveal_strlit("2");
            assert("2"@ =~= seq![decimal_digit(2)]);
        }
        "2"
    } else if d == 3 {
        proof {
            reveal_strlit("3");
            assert("3"@ =~= seq![decimal_digit(3)]);
        }
        "3"
    } else if d == 4 {
        proof {
            reveal_strlit("4");
            assert("4"@ =~= seq![decimal_digit(4)]);
        }
        "4"
    } else if d == 5 {
        proof {
            reveal_strlit("5");
            assert("5"@ =~= seq![decimal_digit(5)]);
        }
        "5"
    } else if d == 6 {
        proof {
            reveal_strlit("6");
            assert("6"@ =~= seq![decimal_digit(6)]);
        }
        "6"
    } else if d == 7 {
        proof {
            reveal_strlit("7");
            assert("7"@ =~= seq![decimal_digit(7)]);
        }
        "7"
    } else if d == 8 {
        proof {
            reveal_strlit("8");
            assert("8"@ =~= seq![decimal_digit(8)]);
        }
        "8"
    } else {
        proof {
            reveal_strlit("9");
            assert("9"@ =~= seq![decimal_digit(9)]);
        }
        "9"
    }
}

/// Render a status code as decimal text.
pub fn u16_decimal(n: u16) -> (r: String)
    ensures
        r@ == decimal_text(n as nat),
    decreases n,
{
    let d = n % 10;
    if n < 10 {
        String::from_str(digit_str(d))
    } else {
        let mut s = u16_decimal(n / 10);
        s.append(digit_str(d));
        proof {
            assert(s@ =~= decimal_text(n as nat));
        }
        s
    }
}

impl FetchError {
    /// What an operator-facing log line says of this error. The spec-level
    /// shape of `message`; user-visible replies never carry it.
    pub open spec fn message_text(self) -> Seq<char> {
        match self {
            FetchError::Configuration => "missing required credential"@,
            FetchError::Transport => "could not reach the upstream service"@,
            FetchError::UpstreamStatus(s) => "upstream answered with status "@ + decimal_text(
                s as nat,
            ),
            FetchError::MalformedResponse => "upstream response had an unexpected shape"@,
        }
    }

    /// A short description of the error kind, for logging. The dispatcher
    /// swallows the error itself; this keeps its kind observable.
    pub fn message(&self) -> (r: String)
        ensures
            r@ == self.message_text(),
    {
        match self {
            FetchError::Configuration => String::from_str("missing required credential"),
            FetchError::Transport => String::from_str("could not reach the upstream service"),
            FetchError::UpstreamStatus(s) => {
                let mut m = String::from_str("upstream answered with status ");
                let digits = u16_decimal(*s);
                m.append(digits.as_str());
                m
            },
            FetchError::MalformedResponse => String::from_str(
                "upstream response had an unexpected shape",
            ),
        }
    }
}

} // verus!
