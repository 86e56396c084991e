use vstd::prelude::*;
use vstd::string::StringExecFns;

verus! {

/// How an HTTP exchange failed.
#[derive(Debug)]
pub enum HttpFailure {
    /// The server answered with a status outside the 2xx range.
    Status(u16),
    /// The request could not be sent, or no response arrived.
    Transport(String),
    /// The response body was not valid JSON.
    Decode(String),
}

/// Every failure the library reports, one variant per root cause.
#[derive(Debug)]
pub enum TraceixError {
    /// No API key was given and none could be resolved.
    NoApiKey,
    /// A search type outside the known set was requested. With `SearchType`
    /// a closed enumeration this cannot arise; the variant is kept so that
    /// the error taxonomy matches the wire interface.
    InvalidSearchType,
    /// An empty identifier was passed to the status check.
    NoUuidProvided,
    /// The HTTP exchange failed.
    Http(HttpFailure),
    /// A local file could not be opened; the payload describes the failure.
    Io(String),
}

/// The character for one decimal digit.
pub open spec fn digit_char(d: nat) -> char
    recommends
        d < 10,
{
    if d == 0 {
        '0'
    } else if d == 1 {
        '1'
    } else if d == 2 {
        '2'
    } else if d == 3 {
        '3'
    } else if d == 4 {
        '4'
    } else if d == 5 {
        '5'
    } else if d == 6 {
        '6'
    } else if d == 7 {
        '7'
    } else if d == 8 {
        '8'
    } else {
        '9'
    }
}

/// The decimal rendering of a natural number, without leading zeros
/// (a single `0` for zero itself).
pub open spec fn dec_chars(n: nat) -> Seq<char>
    decreases n,
{
    if n < 10 {
        seq![digit_char(n)]
    } else {
        dec_chars(n / 10) + seq![digit_char(n % 10)]
    }
}

fn digit_str(d: u16) -> (r: &'static str)
    requires
        d < 10,
    ensures
        r@ == seq![digit_char(d as nat)],
{
    if d == 0 {
        proof {
            reveal_strlit("0");
            assert("0"@ =~= seq![digit_char(0)]);
        }
        "0"
    } else if d == 1 {
        proof {
            reveal_strlit("1");
            assert("1"@ =~= seq![digit_char(1)]);
        }
        "1"
    } else if d == 2 {
        proof {
            reveal_strlit("2");
            assert("2"@ =~= seq![digit_char(2)]);
        }
        "2"
    } else if d == 3 {
        proof {
            reveal_strlit("3");
            assert("3"@ =~= seq![digit_char(3)]);
        }
        "3"
    } else if d == 4 {
        proof {
            reveal_strlit("4");
            assert("4"@ =~= seq![digit_char(4)]);
        }
        "4"
    } else if d == 5 {
        proof {
            reveal_strlit("5");
            assert("5"@ =~= seq![digit_char(5)]);
        }
        "5"
    } else if d == 6 {
        proof {
            reveal_strlit("6");
            assert("6"@ =~= seq![digit_char(6)]);
        }
        "6"
    } else if d == 7 {
        proof {
            reveal_strlit("7");
            assert("7"@ =~= seq![digit_char(7)]);
        }
        "7"
    } else if d == 8 {
        proof {
            reveal_strlit("8");
            assert("8"@ =~= seq![digit_char(8)]);
        }
        "8"
    } else {
        proof {
            reveal_strlit("9");
            assert("9"@ =~= seq![digit_char(9)]);
        }
        "9"
    }
}

/// Renders a status code in decimal.
pub fn u16_decimal(n: u16) -> (r: String)
    ensures
        r@ == dec_chars(n as nat),
    decreases n,
{
    if n < 10 {
        digit_str(n).to_owned()
    } else {
        let mut s = u16_decimal(n / 10);
        s.append(digit_str(n % 10));
        s
    }
}

impl TraceixError {
    /// A human-readable description of the error.
    pub fn message(&self) -> (r: String)
        ensures
            match self {
                TraceixError::NoApiKey => r@ == "You did not provide an API key"@,
                TraceixError::InvalidSearchType => r@ == "Search must be of type capa or exif"@,
                TraceixError::NoUuidProvided => r@
                    == "You did not provide a UUID required by the endpoint"@,
                TraceixError::Http(HttpFailure::Status(c)) => r@ == "HTTP error: status "@
                    + dec_chars(*c as nat),
                TraceixError::Http(HttpFailure::Transport(m)) => r@ == "HTTP error: "@ + m@,
                TraceixError::Http(HttpFailure::Decode(m)) => r@
                    == "HTTP error: invalid JSON body: "@ + m@,
                TraceixError::Io(m) => r@ == "IO error: "@ + m@,
            },
    {
        match self {
            TraceixError::NoApiKey => "You did not provide an API key".to_owned(),
            TraceixError::InvalidSearchType => "Search must be of type capa or exif".to_owned(),
            TraceixError::NoUuidProvided => "You did not provide a UUID required by the endpoint".to_owned(),
            TraceixError::Http(HttpFailure::Status(c)) => {
                let mut s = "HTTP error: status ".to_owned();
                s.append(u16_decimal(*c).as_str());
                s
            },
            TraceixError::Http(HttpFailure::Transport(m)) => {
                let mut s = "HTTP error: ".to_owned();
                s.append(m.as_str());
                s
            },
            TraceixError::Http(HttpFailure::Decode(m)) => {
                let mut s = "HTTP error: invalid JSON body: ".to_owned();
                s.append(m.as_str());
                s
            },
            TraceixError::Io(m) => {
                let mut s = "IO error: ".to_owned();
                s.append(m.as_str());
                s
            },
        }
    }
}

} // verus!
