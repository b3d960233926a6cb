//! Decimal rendering of numeric identifiers.
//!
//! Snowflake and Sonyflake identifiers are machine words; their textual form
//! is the ordinary base-10 rendering, which is defined here as a spec
//! function and implemented by verified code.

use vstd::prelude::*;
use vstd::string::StringExecFns;

verus! {

/// The character for one decimal digit value.
pub open spec fn digit_char(d: nat) -> char {
    if d == 0 {
        '0'
    } else if d == 1 {
        '1'
    } else if d == 2 {
        '2'
    } else if d == 3 {
        '3'
    } else if d == 4 {
        '4'
    } else if d == 5 {
        '5'
    } else if d == 6 {
        '6'
    } else if d == 7 {
        '7'
    } else if d == 8 {
        '8'
    } else {
        '9'
    }
}

/// The decimal digits of `v`, most significant first, with no leading
/// zeros; the empty sequence for zero.
pub open spec fn dec_digits(v: nat) -> Seq<char>
    decreases v,
{
    if v == 0 {
        Seq::empty()
    } else {
        dec_digits(v / 10) + seq![digit_char(v % 10)]
    }
}

/// The base-10 text of `v`: its digits, or "0" for zero.
pub open spec fn dec_text(v: nat) -> Seq<char> {
    if v == 0 {
        seq!['0']
    } else {
        dec_digits(v)
    }
}

/// The base-10 text of a signed value: a minus sign before the magnitude
/// for negative values.
pub open spec fn dec_text_signed(v: int) -> Seq<char> {
    if v < 0 {
        seq!['-'] + dec_text((-v) as nat)
    } else {
        dec_text(v as nat)
    }
}

/// The decimal text of any value has at least one character.
pub proof fn lemma_dec_text_nonempty(v: nat)
    ensures
        dec_text(v).len() >= 1,
{
    if v != 0 {
        assert(dec_digits(v) == dec_digits(v / 10) + seq![digit_char(v % 10)]);
    }
}

/// The signed decimal text of any value has at least one character.
pub proof fn lemma_dec_text_signed_nonempty(v: int)
    ensures
        dec_text_signed(v).len() >= 1,
{
    if v < 0 {
        lemma_dec_text_nonempty((-v) as nat);
    } else {
        lemma_dec_text_nonempty(v as nat);
    }
}

/// The one-character string for a decimal digit.
fn digit_str(d: u64) -> (r: &'static str)
    requires
        d < 10,
    ensures
        r@ == seq![digit_char(d as nat)],
{
    let r: &'static str = if d == 0 {
        "0"
    } else if d == 1 {
        "1"
    } else if d == 2 {
        "2"
    } else if d == 3 {
        "3"
    } else if d == 4 {
        "4"
    } else if d == 5 {
        "5"
    } else if d == 6 {
        "6"
    } else if d == 7 {
        "7"
    } else if d == 8 {
        "8"
    } else {
        "9"
    };
    proof {
        reveal_strlit("0");
        reveal_strlit("1");
        reveal_strlit("2");
        reveal_strlit("3");
        reveal_strlit("4");
        reveal_strlit("5");
        reveal_strlit("6");
        reveal_strlit("7");
        reveal_strlit("8");
        reveal_strlit("9");
        assert(r@ =~= seq![digit_char(d as nat)]);
    }
    r
}

/// Renders an unsigned 64-bit value in base 10.
pub fn u64_dec_string(v: u64) -> (r: String)
    ensures
        r@ == dec_text(v as nat),
{
    if v == 0 {
        let r = "0".to_owned();
        proof {
            reveal_strlit("0");
            assert(r@ =~= dec_text(0));
        }
        return r;
    }
    let mut s = String::new();
    let mut x = v;
    while x > 0
        invariant
            x <= v,
            dec_digits(v as nat) == dec_digits(x as nat) + s@,
        decreases x,
    {
        let d = x % 10;
        let ghost s_old: Seq<char> = s@;
        let mut t = digit_str(d).to_owned();
        t.append(s.as_str());
        s = t;
        proof {
            assert(dec_digits(x as nat) == dec_digits((x as nat) / 10) + seq![
                digit_char((x as nat) % 10),
            ]);
            assert(s@ =~= seq![digit_char((x as nat) % 10)] + s_old);
            assert(dec_digits((x as nat) / 10) + s@ =~= (dec_digits((x as nat) / 10) + seq![
                digit_char((x as nat) % 10),
            ]) + s_old);
            assert(dec_digits((x / 10) as nat) + s@ =~= dec_digits(v as nat));
        }
        x = x / 10;
    }
    proof {
        assert(dec_digits(0nat) + s@ =~= s@);
        assert(s@ == dec_text(v as nat));
    }
    s
}

/// Renders a signed 64-bit value in base 10, with a minus sign when it is
/// negative.
pub fn i64_dec_string(v: i64) -> (r: String)
    ensures
        r@ == dec_text_signed(v as int),
{
    if v >= 0 {
        let r = u64_dec_string(v as u64);
        r
    } else {
        let wide: i128 = -(v as i128);
        let m: u64 = wide as u64;
        proof {
            assert(m as int == -(v as int));
        }
        let mut t = "-".to_owned();
        t.append(u64_dec_string(m).as_str());
        proof {
            reveal_strlit("-");
            assert(t@ =~= dec_text_signed(v as int));
        }
        t
    }
}

} // verus!
