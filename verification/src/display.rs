//! Rendering of an elapsed duration as `HH:MM:SS`: hours, minutes and
//! seconds are each zero-padded to at least two digits; hours are unbounded
//! and grow past two digits as needed. The split truncates toward zero at
//! seconds granularity.

use vstd::prelude::*;

verus! {

/// The decimal digit character for `d` in `0..10`.
pub open spec fn spec_digit(d: int) -> char {
    if d == 0 {
        '0'
    } else if d == 1 {
        '1'
    } else if d == 2 {
        '2'
    } else if d == 3 {
        '3'
    } else if d == 4 {
        '4'
    } else if d == 5 {
        '5'
    } else if d == 6 {
        '6'
    } else if d == 7 {
        '7'
    } else if d == 8 {
        '8'
    } else {
        '9'
    }
}

/// The decimal rendering of `n`, most significant digit first, no padding.
pub open spec fn spec_dec(n: nat) -> Seq<char>
    decreases n,
{
    if n < 10 {
        seq![spec_digit(n as int)]
    } else {
        spec_dec(n / 10).push(spec_digit((n % 10) as int))
    }
}

/// The decimal rendering of `n`, zero-padded to at least two digits.
pub open spec fn spec_pad2(n: nat) -> Seq<char> {
    if n < 10 {
        seq!['0', spec_digit(n as int)]
    } else {
        spec_dec(n)
    }
}

/// `HH:MM:SS` for a total duration of `total_seconds`.
pub open spec fn spec_hms(total_seconds: nat) -> Seq<char> {
    spec_pad2(total_seconds / 3600) + seq![':'] + spec_pad2((total_seconds / 60) % 60) + seq![':']
        + spec_pad2(total_seconds % 60)
}

fn digit_str(d: u64) -> (r: &'static str)
    requires
        d < 10,
    ensures
        r@ == seq![spec_digit(d as int)],
{
    if d == 0 {
        proof {
            reveal_strlit("0");
            assert("0"@ =~= seq![spec_digit(0)]);
        }
        "0"
    } else if d == 1 {
        proof {
            reveal_strlit("1");
            assert("1"@ =~= seq![spec_digit(1)]);
        }
        "1"
    } else if d == 2 {
        proof {
            reveal_strlit("2");
            assert("2"@ =~= seq![spec_digit(2)]);
        }
        "2"
    } else if d == 3 {
        proof {
            reveal_strlit("3");
            assert("3"@ =~= seq![spec_digit(3)]);
        }
        "3"
    } else if d == 4 {
        proof {
            reveal_strlit("4");
            assert("4"@ =~= seq![spec_digit(4)]);
        }
        "4"
    } else if d == 5 {
        proof {
            reveal_strlit("5");
            assert("5"@ =~= seq![spec_digit(5)]);
        }
        "5"
    } else if d == 6 {
        proof {
            reveal_strlit("6");
            assert("6"@ =~= seq![spec_digit(6)]);
        }
        "6"
    } else if d == 7 {
        proof {
            reveal_strlit("7");
            assert("7"@ =~= seq![spec_digit(7)]);
        }
        "7"
    } else if d == 8 {
        proof {
            reveal_strlit("8");
            assert("8"@ =~= seq![spec_digit(8)]);
        }
        "8"
    } else {
        proof {
            reveal_strlit("9");
            assert("9"@ =~= seq![spec_digit(9)]);
        }
        "9"
    }
}

/// Unpadded decimal rendering of `n`.
pub fn render_dec(n: u64) -> (r: String)
    ensures
        r@ == spec_dec(n as nat),
    decreases n,
{
    if n < 10 {
        String::from_str(digit_str(n))
    } else {
        let mut s = render_dec(n / 10);
        s.append(digit_str(n % 10));
        proof {
            assert(s@ =~= spec_dec(n as nat));
        }
        s
    }
}

/// Decimal rendering of `n`, zero-padded to at least two digits.
pub fn render_pad2(n: u64) -> (r: String)
    ensures
        r@ == spec_pad2(n as nat),
{
    if n < 10 {
        let mut s = String::from_str("0");
        s.append(digit_str(n));
        proof {
            reveal_strlit("0");
            assert(s@ =~= spec_pad2(n as nat));
        }
        s
    } else {
        render_dec(n)
    }
}

/// Render a total duration of `total_seconds` as `HH:MM:SS`.
pub fn render_hms(total_seconds: u64) -> (r: String)
    ensures
        r@ == spec_hms(total_seconds as nat),
{
    let h = total_seconds / 3600;
    let m = (total_seconds / 60) % 60;
    let s = total_seconds % 60;
    let mut out = render_pad2(h);
    out.append(":");
    let mm = render_pad2(m);
    out.append(mm.as_str());
    out.append(":");
    let ss = render_pad2(s);
    out.append(ss.as_str());
    proof {
        reveal_strlit(":");
        assert(":"@ =~= seq![':']);
        assert(out@ =~= spec_hms(total_seconds as nat));
    }
    out
}

} // verus!
