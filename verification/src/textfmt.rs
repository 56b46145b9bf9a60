//! Verified text assembly: decimal rendering of numeric fields, the
//! user-facing message of a `DrawError`, the combined overview line of the
//! light template, and splitting an over-wide title at a fixed character
//! boundary.

use vstd::prelude::*;
use vstd::math::min;
use vstd::string::{StrSliceExecFns, StringExecFns};
use crate::fit::{DrawError, Fixed};

verus! {

/// The decimal digit character for `d`.
pub open spec fn spec_digit(d: int) -> char {
    if d == 0 {
        '0'
    } else if d == 1 {
        '1'
    } else if d == 2 {
        '2'
    } else if d == 3 {
        '3'
    } else if d == 4 {
        '4'
    } else if d == 5 {
        '5'
    } else if d == 6 {
        '6'
    } else if d == 7 {
        '7'
    } else if d == 8 {
        '8'
    } else {
        '9'
    }
}

/// The decimal digits of `n`, most significant first, no sign and no
/// leading zero except for `n == 0` itself.
pub open spec fn spec_udec(n: nat) -> Seq<char>
    decreases n,
{
    if n < 10 {
        seq![spec_digit(n as int)]
    } else {
        spec_udec(n / 10).push(spec_digit((n % 10) as int))
    }
}

/// The decimal rendering of a value in tenths: optional sign, the whole
/// part, and a dot plus the tenths digit only when that digit is not zero,
/// so 870 tenths reads "87" and -35 tenths reads "-3.5".
pub open spec fn spec_fixed_dec(tenths: int) -> Seq<char> {
    let mag = if tenths < 0 {
        -tenths
    } else {
        tenths
    };
    let sign: Seq<char> = if tenths < 0 {
        seq!['-']
    } else {
        Seq::empty()
    };
    let frac: Seq<char> = if mag % 10 == 0 {
        Seq::empty()
    } else {
        seq!['.', spec_digit(mag % 10)]
    };
    sign + spec_udec((mag / 10) as nat) + frac
}

/// The user-facing message of a render failure.
pub open spec fn spec_message(e: DrawError) -> Seq<char> {
    match e {
        DrawError::WidthTooLong(w, l, c) => "The width of the '"@ + c@ + "' is "@ + spec_udec(
            w as nat,
        ) + ". The max is only "@ + spec_udec(l as nat) + ". Please consider a shorter '"@ + c@
            + "'."@,
        DrawError::ValueTooHigh(v, l, c) => "The value of '"@ + c@ + "' is "@ + spec_fixed_dec(
            v.tenths as int,
        ) + ". The max is only "@ + spec_fixed_dec(l.tenths as int) + ". Please give a valid '"@
            + c@ + "'."@,
    }
}

/// One decimal digit as a string slice.
fn digit_str(d: u64) -> (r: &'static str)
    requires
        d < 10,
    ensures
        r@ =~= seq![spec_digit(d as int)],
{
    if d == 0 {
        proof {
            reveal_strlit("0");
        }
        "0"
    } else if d == 1 {
        proof {
            reveal_strlit("1");
        }
        "1"
    } else if d == 2 {
        proof {
            reveal_strlit("2");
        }
        "2"
    } else if d == 3 {
        proof {
            reveal_strlit("3");
        }
        "3"
    } else if d == 4 {
        proof {
            reveal_strlit("4");
        }
        "4"
    } else if d == 5 {
        proof {
            reveal_strlit("5");
        }
        "5"
    } else if d == 6 {
        proof {
            reveal_strlit("6");
        }
        "6"
    } else if d == 7 {
        proof {
            reveal_strlit("7");
        }
        "7"
    } else if d == 8 {
        proof {
            reveal_strlit("8");
        }
        "8"
    } else {
        proof {
            reveal_strlit("9");
        }
        "9"
    }
}

/// Render `n` in decimal.
pub fn udec_string(n: u64) -> (r: String)
    ensures
        r@ == spec_udec(n as nat),
    decreases n,
{
    if n < 10 {
        digit_str(n).to_owned()
    } else {
        let mut s = udec_string(n / 10);
        s.append(digit_str(n % 10));
        proof {
            assert(s@ =~= spec_udec(n as nat));
        }
        s
    }
}

/// Render a value in tenths in decimal, omitting a zero tenths digit, as a
/// plain decimal display of the number would.
pub fn fixed_string(v: &Fixed) -> (r: String)
    ensures
        r@ == spec_fixed_dec(v.tenths as int),
{
    let neg = v.tenths < 0;
    let mag: u64 = if neg {
        (-(v.tenths as i128)) as u64
    } else {
        v.tenths as u64
    };
    let mut s = String::new();
    if neg {
        s.append("-");
        proof {
            reveal_strlit("-");
            assert(s@ =~= seq!['-']);
        }
    }
    s.append(udec_string(mag / 10).as_str());
    if mag % 10 != 0 {
        s.append(".");
        proof {
            reveal_strlit(".");
        }
        s.append(digit_str(mag % 10));
    }
    proof {
        assert(s@ =~= spec_fixed_dec(v.tenths as int));
    }
    s
}

impl DrawError {
    /// The user-facing message: which field violated which bound, the
    /// measured value, and the limit.
    pub fn message(&self) -> (r: String)
        ensures
            r@ == spec_message(*self),
    {
        match self {
            DrawError::WidthTooLong(w, l, c) => {
                let mut s = "The width of the '".to_owned();
                s.append(c.as_str());
                s.append("' is ");
                s.append(udec_string(*w as u64).as_str());
                s.append(". The max is only ");
                s.append(udec_string(*l as u64).as_str());
                s.append(". Please consider a shorter '");
                s.append(c.as_str());
                s.append("'.");
                proof {
                    assert(s@ =~= spec_message(*self));
                }
                s
            },
            DrawError::ValueTooHigh(v, l, c) => {
                let mut s = "The value of '".to_owned();
                s.append(c.as_str());
                s.append("' is ");
                s.append(fixed_string(v).as_str());
                s.append(". The max is only ");
                s.append(fixed_string(l).as_str());
                s.append(". Please give a valid '");
                s.append(c.as_str());
                s.append("'.");
                proof {
                    assert(s@ =~= spec_message(*self));
                }
                s
            },
        }
    }
}

/// The fixed character count at which an over-wide title is cut in two.
pub const TITLE_SPLIT_AT: usize = 30;

/// Split a title at the fixed character boundary: the first half takes the
/// leading characters up to the boundary, the second half whatever remains.
/// A title at or under the boundary comes back whole, with an empty second
/// half.
pub fn split_title(title: &str) -> (r: (String, String))
    ensures
        r.0@ == title@.take(min(TITLE_SPLIT_AT as int, title@.len() as int)),
        r.1@ == title@.skip(min(TITLE_SPLIT_AT as int, title@.len() as int)),
{
    let n = title.unicode_len();
    let cut = if n < TITLE_SPLIT_AT {
        n
    } else {
        TITLE_SPLIT_AT
    };
    let head = title.substring_char(0, cut);
    let tail = title.substring_char(cut, n);
    (head.to_owned(), tail.to_owned())
}

} // verus!
