//! Numbers written out as text, in decimal and in lower-case hexadecimal.
use vstd::prelude::*;
use vstd::string::StringExecFns;

verus! {

/// The character of digit `d` (below 16): `0` to `9`, then `a` to `f`.
pub open spec fn digit_char(d: nat) -> char {
    if d < 10 {
        (('0' as u32) + d) as char
    } else {
        (('a' as u32) + d - 10) as char
    }
}

/// `n` written in base `base` (2 to 16), most significant digit first, with
/// no leading zeros (`0` for zero).
pub open spec fn spec_radix(n: nat, base: nat) -> Seq<char>
    decreases n,
{
    if base < 2 || n < base {
        seq![digit_char(n % 16)]
    } else {
        proof {
            assert(n / base < n) by (nonlinear_arith)
                requires
                    base >= 2,
                    n >= base,
            ;
        }
        spec_radix(n / base, base).push(digit_char(n % base))
    }
}

/// `n` in decimal.
pub open spec fn spec_decimal(n: nat) -> Seq<char> {
    spec_radix(n, 10)
}

/// `n` in lower-case hexadecimal, with no prefix.
pub open spec fn spec_hex(n: nat) -> Seq<char> {
    spec_radix(n, 16)
}

/// The one-character text of digit `d`.
fn digit_str(d: u64) -> (r: &'static str)
    requires
        d < 16,
    ensures
        r@ == seq![digit_char(d as nat)],
{
    proof {
        reveal_strlit("0");
        reveal_strlit("1");
        reveal_strlit("2");
        reveal_strlit("3");
        reveal_strlit("4");
        reveal_strlit("5");
        reveal_strlit("6");
        reveal_strlit("7");
        reveal_strlit("8");
        reveal_strlit("9");
        reveal_strlit("a");
        reveal_strlit("b");
        reveal_strlit("c");
        reveal_strlit("d");
        reveal_strlit("e");
        reveal_strlit("f");
    }
    let r = match d {
        0 => "0",
        1 => "1",
        2 => "2",
        3 => "3",
        4 => "4",
        5 => "5",
        6 => "6",
        7 => "7",
        8 => "8",
        9 => "9",
        10 => "a",
        11 => "b",
        12 => "c",
        13 => "d",
        14 => "e",
        _ => "f",
    };
    assert(r@ =~= seq![digit_char(d as nat)]);
    r
}

/// Writes `n` in base `base`.
pub fn radix_string(n: u64, base: u64) -> (r: String)
    requires
        2 <= base <= 16,
    ensures
        r@ == spec_radix(n as nat, base as nat),
    decreases n,
{
    if n < base {
        let s = String::from_str(digit_str(n));
        s
    } else {
        assert(n / base < n) by (nonlinear_arith)
            requires
                base >= 2,
                n >= base,
        ;
        let mut s = radix_string(n / base, base);
        s.append(digit_str(n % base));
        s
    }
}

} // verus!
