//! HTTP status codes, as far as the error model needs them.

use vstd::prelude::*;

verus! {

/// The digit character for one value below ten.
pub open spec fn spec_digit(d: nat) -> char {
    if d == 0 {
        '0'
    } else if d == 1 {
        '1'
    } else if d == 2 {
        '2'
    } else if d == 3 {
        '3'
    } else if d == 4 {
        '4'
    } else if d == 5 {
        '5'
    } else if d == 6 {
        '6'
    } else if d == 7 {
        '7'
    } else if d == 8 {
        '8'
    } else {
        '9'
    }
}

/// The decimal rendering of a number, most significant digit first.
pub open spec fn spec_decimal(n: nat) -> Seq<char>
    decreases n,
{
    if n < 10 {
        seq![spec_digit(n)]
    } else {
        spec_decimal(n / 10) + seq![spec_digit(n % 10)]
    }
}

/// One decimal digit as a string slice.
fn digit_str(d: u16) -> (r: &'static str)
    requires
        d < 10,
    ensures
        r@ == seq![spec_digit(d as nat)],
{
    if d == 0 {
        proof {
            reveal_strlit("0");
        }
        let r = "0";
        proof {
            assert(r@ =~= seq![spec_digit(d as nat)]);
        }
        r
    } else if d == 1 {
        proof {
            reveal_strlit("1");
        }
        let r = "1";
        proof {
            assert(r@ =~= seq![spec_digit(d as nat)]);
        }
        r
    } else if d == 2 {
        proof {
            reveal_strlit("2");
        }
        let r = "2";
        proof {
            assert(r@ =~= seq![spec_digit(d as nat)]);
        }
        r
    } else if d == 3 {
        proof {
            reveal_strlit("3");
        }
        let r = "3";
        proof {
            assert(r@ =~= seq![spec_digit(d as nat)]);
        }
        r
    } else if d == 4 {
        proof {
            reveal_strlit("4");
        }
        let r = "4";
        proof {
            assert(r@ =~= seq![spec_digit(d as nat)]);
        }
        r
    } else if d == 5 {
        proof {
            reveal_strlit("5");
        }
        let r = "5";
        proof {
            assert(r@ =~= seq![spec_digit(d as nat)]);
        }
        r
    } else if d == 6 {
        proof {
            reveal_strlit("6");
        }
        let r = "6";
        proof {
            assert(r@ =~= seq![spec_digit(d as nat)]);
        }
        r
    } else if d == 7 {
        proof {
            reveal_strlit("7");
        }
        let r = "7";
        proof {
            assert(r@ =~= seq![spec_digit(d as nat)]);
        }
        r
    } else if d == 8 {
        proof {
            reveal_strlit("8");
        }
        let r = "8";
        proof {
            assert(r@ =~= seq![spec_digit(d as nat)]);
        }
        r
    } else {
        proof {
            reveal_strlit("9");
        }
        let r = "9";
        proof {
            assert(r@ =~= seq![spec_digit(d as nat)]);
        }
        r
    }
}

/// Append the decimal rendering of `n` to `out`.
fn push_decimal(n: u16, out: &mut String)
    ensures
        final(out)@ == old(out)@ + spec_decimal(n as nat),
    decreases n,
{
    if n >= 10 {
        push_decimal(n / 10, out);
    }
    out.append(digit_str(n % 10));
    proof {
        if n < 10 {
            assert(old(out)@ + spec_decimal(n as nat) =~= final(out)@);
        } else {
            assert(old(out)@ + spec_decimal(n as nat) =~= (old(out)@ + spec_decimal(
                n as nat / 10,
            )) + seq![spec_digit(n as nat % 10)]);
        }
    }
}

/// An HTTP status code.
///
/// Only the code itself is modelled; callers that need the full header
/// machinery convert at the boundary.  A code is always in the range that
/// the status line of a response can carry.
#[derive(Clone, Copy, Debug, Hash, PartialEq, Eq, Structural)]
pub struct StatusCode {
    /// The numeric code.
    pub code: u16,
}

impl StatusCode {
    /// True of every value this type can hold.
    pub open spec fn wf(self) -> bool {
        100 <= self.code <= 999
    }

    /// The numeric code.
    pub open spec fn spec_as_u16(self) -> u16 {
        self.code
    }

    /// Build a status code from its number.
    pub fn from_u16(code: u16) -> (r: Option<StatusCode>)
        ensures
            100 <= code <= 999 ==> r == Some(StatusCode { code }),
            !(100 <= code <= 999) ==> r is None,
            r matches Some(s) ==> s.wf(),
    {
        if 100 <= code && code <= 999 {
            Some(StatusCode { code })
        } else {
            None
        }
    }

    /// The numeric code.
    pub fn as_u16(&self) -> (r: u16)
        ensures
            r == self.spec_as_u16(),
    {
        self.code
    }

    /// 200 OK.
    pub fn ok() -> (r: StatusCode)
        ensures
            r.spec_as_u16() == 200,
            r.wf(),
    {
        StatusCode { code: 200 }
    }

    /// 400 Bad Request.
    pub fn bad_request() -> (r: StatusCode)
        ensures
            r.spec_as_u16() == 400,
            r.wf(),
    {
        StatusCode { code: 400 }
    }

    /// 401 Unauthorized.
    pub fn unauthorized() -> (r: StatusCode)
        ensures
            r.spec_as_u16() == 401,
            r.wf(),
    {
        StatusCode { code: 401 }
    }

    /// 403 Forbidden.
    pub fn forbidden() -> (r: StatusCode)
        ensures
            r.spec_as_u16() == 403,
            r.wf(),
    {
        StatusCode { code: 403 }
    }

    /// 404 Not Found.
    pub fn not_found() -> (r: StatusCode)
        ensures
            r.spec_as_u16() == 404,
            r.wf(),
    {
        StatusCode { code: 404 }
    }

    /// 405 Method Not Allowed.
    pub fn method_not_allowed() -> (r: StatusCode)
        ensures
            r.spec_as_u16() == 405,
            r.wf(),
    {
        StatusCode { code: 405 }
    }

    /// 500 Internal Server Error.
    pub fn internal_server_error() -> (r: StatusCode)
        ensures
            r.spec_as_u16() == 500,
            r.wf(),
    {
        StatusCode { code: 500 }
    }

    /// 502 Bad Gateway.
    pub fn bad_gateway() -> (r: StatusCode)
        ensures
            r.spec_as_u16() == 502,
            r.wf(),
    {
        StatusCode { code: 502 }
    }

    /// The code rendered in decimal, as in a status line.
    pub fn to_decimal_string(&self) -> (r: String)
        ensures
            r@ == spec_decimal(self.code as nat),
    {
        let mut out = String::new();
        push_decimal(self.code, &mut out);
        proof {
            assert(out@ =~= spec_decimal(self.code as nat));
        }
        out
    }
}

} // verus!
