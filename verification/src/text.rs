//! Exact text renderings used by the library: decimal digit sequences for
//! sizes and color channels, and two-digit hexadecimal renderings of bytes.

use vstd::prelude::*;
use vstd::string::StringExecFns;

verus! {

/// The character standing for one digit value below sixteen.
pub open spec fn digit_char(d: nat) -> char {
    if d == 0 {
        '0'
    } else if d == 1 {
        '1'
    } else if d == 2 {
        '2'
    } else if d == 3 {
        '3'
    } else if d == 4 {
        '4'
    } else if d == 5 {
        '5'
    } else if d == 6 {
        '6'
    } else if d == 7 {
        '7'
    } else if d == 8 {
        '8'
    } else if d == 9 {
        '9'
    } else if d == 10 {
        'a'
    } else if d == 11 {
        'b'
    } else if d == 12 {
        'c'
    } else if d == 13 {
        'd'
    } else if d == 14 {
        'e'
    } else {
        'f'
    }
}

/// The decimal rendering of `n`, most significant digit first, with no
/// leading zeros (a single `'0'` for zero itself).
pub open spec fn dec_seq(n: nat) -> Seq<char>
    decreases n,
{
    if n < 10 {
        seq![digit_char(n)]
    } else {
        dec_seq(n / 10).push(digit_char(n % 10))
    }
}

/// The two-digit lowercase hexadecimal rendering of one byte value.
pub open spec fn hex_byte_seq(n: nat) -> Seq<char> {
    seq![digit_char(n / 16), digit_char(n % 16)]
}

/// The string literal for one digit value below sixteen.
fn digit_str(d: u16) -> (r: &'static str)
    requires
        d < 16,
    ensures
        r@ == seq![digit_char(d as nat)],
{
    match d {
        0 => {
            let s = "0";
            proof {
                reveal_strlit("0");
                assert(s@ =~= seq![digit_char(0)]);
            }
            s
        },
        1 => {
            let s = "1";
            proof {
                reveal_strlit("1");
                assert(s@ =~= seq![digit_char(1)]);
            }
            s
        },
        2 => {
            let s = "2";
            proof {
                reveal_strlit("2");
                assert(s@ =~= seq![digit_char(2)]);
            }
            s
        },
        3 => {
            let s = "3";
            proof {
                reveal_strlit("3");
                assert(s@ =~= seq![digit_char(3)]);
            }
            s
        },
        4 => {
            let s = "4";
            proof {
                reveal_strlit("4");
                assert(s@ =~= seq![digit_char(4)]);
            }
            s
        },
        5 => {
            let s = "5";
            proof {
                reveal_strlit("5");
                assert(s@ =~= seq![digit_char(5)]);
            }
            s
        },
        6 => {
            let s = "6";
            proof {
                reveal_strlit("6");
                assert(s@ =~= seq![digit_char(6)]);
            }
            s
        },
        7 => {
            let s = "7";
            proof {
                reveal_strlit("7");
                assert(s@ =~= seq![digit_char(7)]);
            }
            s
        },
        8 => {
            let s = "8";
            proof {
                reveal_strlit("8");
                assert(s@ =~= seq![digit_char(8)]);
            }
            s
        },
        9 => {
            let s = "9";
            proof {
                reveal_strlit("9");
                assert(s@ =~= seq![digit_char(9)]);
            }
            s
        },
        10 => {
            let s = "a";
            proof {
                reveal_strlit("a");
                assert(s@ =~= seq![digit_char(10)]);
            }
            s
        },
        11 => {
            let s = "b";
            proof {
                reveal_strlit("b");
                assert(s@ =~= seq![digit_char(11)]);
            }
            s
        },
        12 => {
            let s = "c";
            proof {
                reveal_strlit("c");
                assert(s@ =~= seq![digit_char(12)]);
            }
            s
        },
        13 => {
            let s = "d";
            proof {
                reveal_strlit("d");
                assert(s@ =~= seq![digit_char(13)]);
            }
            s
        },
        14 => {
            let s = "e";
            proof {
                reveal_strlit("e");
                assert(s@ =~= seq![digit_char(14)]);
            }
            s
        },
        _ => {
            let s = "f";
            proof {
                reveal_strlit("f");
                assert(s@ =~= seq![digit_char(15)]);
            }
            s
        },
    }
}

/// Append the decimal rendering of `n` to `s`.
pub fn push_dec(s: &mut String, n: u16)
    ensures
        final(s)@ == old(s)@ + dec_seq(n as nat),
{
    if n >= 10000 {
        s.append(digit_str(n / 10000));
        s.append(digit_str((n / 1000) % 10));
        s.append(digit_str((n / 100) % 10));
        s.append(digit_str((n / 10) % 10));
        s.append(digit_str(n % 10));
        proof {
            reveal_with_fuel(dec_seq, 6);
            let m = n as nat;
            assert(m / 10 / 10 == m / 100) by (nonlinear_arith);
            assert(m / 100 / 10 == m / 1000) by (nonlinear_arith);
            assert(m / 1000 / 10 == m / 10000) by (nonlinear_arith);
            assert(m / 10000 < 10);
            assert(final(s)@ =~= old(s)@ + dec_seq(m));
        }
    } else if n >= 1000 {
        s.append(digit_str(n / 1000));
        s.append(digit_str((n / 100) % 10));
        s.append(digit_str((n / 10) % 10));
        s.append(digit_str(n % 10));
        proof {
            reveal_with_fuel(dec_seq, 5);
            let m = n as nat;
            assert(m / 10 / 10 == m / 100) by (nonlinear_arith);
            assert(m / 100 / 10 == m / 1000) by (nonlinear_arith);
            assert(m / 1000 < 10);
            assert(final(s)@ =~= old(s)@ + dec_seq(m));
        }
    } else if n >= 100 {
        s.append(digit_str(n / 100));
        s.append(digit_str((n / 10) % 10));
        s.append(digit_str(n % 10));
        proof {
            reveal_with_fuel(dec_seq, 4);
            let m = n as nat;
            assert(m / 10 / 10 == m / 100) by (nonlinear_arith);
            assert(m / 100 < 10);
            assert(final(s)@ =~= old(s)@ + dec_seq(m));
        }
    } else if n >= 10 {
        s.append(digit_str(n / 10));
        s.append(digit_str(n % 10));
        proof {
            reveal_with_fuel(dec_seq, 3);
            assert(n as nat / 10 < 10);
            assert(final(s)@ =~= old(s)@ + dec_seq(n as nat));
        }
    } else {
        s.append(digit_str(n));
        proof {
            assert(final(s)@ =~= old(s)@ + dec_seq(n as nat));
        }
    }
}

/// Append the two-digit lowercase hexadecimal rendering of `n` to `s`.
pub fn push_hex_byte(s: &mut String, n: u8)
    ensures
        final(s)@ == old(s)@ + hex_byte_seq(n as nat),
{
    s.append(digit_str((n / 16) as u16));
    s.append(digit_str((n % 16) as u16));
    proof {
        assert(final(s)@ =~= old(s)@ + hex_byte_seq(n as nat));
    }
}

} // verus!
