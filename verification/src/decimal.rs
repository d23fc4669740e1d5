//! Integers written in decimal, the way `{}` formats them.

use vstd::prelude::*;

verus! {

/// The character of decimal digit `d`.
pub open spec fn digit_char(d: nat) -> char {
    (48 + d) as char
}

/// `n` in decimal, with no leading zeros.
pub open spec fn decimal(n: nat) -> Seq<char>
    decreases n,
{
    if n < 10 {
        seq![digit_char(n)]
    } else {
        decimal(n / 10).push(digit_char(n % 10))
    }
}

/// `n` in decimal, with a minus sign in front when it is negative.
pub open spec fn signed_decimal(n: int) -> Seq<char> {
    if n < 0 {
        seq!['-'] + decimal((-n) as nat)
    } else {
        decimal(n as nat)
    }
}

/// The one-character string of decimal digit `d`.
fn digit_str(d: u8) -> (r: &'static str)
    requires
        d < 10,
    ensures
        r@ == seq![digit_char(d as nat)],
{
    match d {
        0 => {
            proof {
                reveal_strlit("0");
            }
            "0"
        },
        1 => {
            proof {
                reveal_strlit("1");
            }
            "1"
        },
        2 => {
            proof {
                reveal_strlit("2");
            }
            "2"
        },
        3 => {
            proof {
                reveal_strlit("3");
            }
            "3"
        },
        4 => {
            proof {
                reveal_strlit("4");
            }
            "4"
        },
        5 => {
            proof {
                reveal_strlit("5");
            }
            "5"
        },
        6 => {
            proof {
                reveal_strlit("6");
            }
            "6"
        },
        7 => {
            proof {
                reveal_strlit("7");
            }
            "7"
        },
        8 => {
            proof {
                reveal_strlit("8");
            }
            "8"
        },
        _ => {
            proof {
                reveal_strlit("9");
            }
            "9"
        },
    }
}

/// Appends `n` in decimal to `out`.
pub fn push_decimal(out: &mut String, n: u128)
    ensures
        final(out)@ == old(out)@ + decimal(n as nat),
{
    // digits, most significant first, of the part of `n` already taken apart
    let mut digits: Vec<u8> = Vec::new();
    let mut m = n;
    while m >= 10
        invariant
            decimal(n as nat) == decimal(m as nat) + digits@.map_values(|d: u8| digit_char(d as nat)),
            forall|i: int| 0 <= i < digits@.len() ==> #[trigger] digits@[i] < 10,
        decreases m,
    {
        let d = (m % 10) as u8;
        let ghost old_digits = digits@;
        digits.insert(0, d);
        proof {
            assert(digits@.map_values(|x: u8| digit_char(x as nat)) =~= seq![digit_char(d as nat)]
                + old_digits.map_values(|x: u8| digit_char(x as nat)));
            assert(decimal(m as nat) == decimal((m / 10) as nat).push(digit_char((m % 10) as nat)));
            assert(decimal(m as nat) + old_digits.map_values(|x: u8| digit_char(x as nat))
                =~= decimal((m / 10) as nat) + digits@.map_values(|x: u8| digit_char(x as nat)));
        }
        m = m / 10;
    }
    let ghost start = out@;
    out.append(digit_str(m as u8));
    let mut i: usize = 0;
    while i < digits.len()
        invariant
            forall|k: int| 0 <= k < digits@.len() ==> #[trigger] digits@[k] < 10,
            decimal(n as nat) == decimal(m as nat) + digits@.map_values(|d: u8| digit_char(d as nat)),
            m < 10,
            i <= digits@.len(),
            out@ == start + decimal(m as nat) + digits@.subrange(0, i as int).map_values(
                |d: u8| digit_char(d as nat),
            ),
        decreases digits@.len() - i,
    {
        let ghost before = out@;
        out.append(digit_str(digits[i]));
        proof {
            assert(digits@.subrange(0, i + 1).map_values(|d: u8| digit_char(d as nat))
                =~= digits@.subrange(0, i as int).map_values(|d: u8| digit_char(d as nat)).push(
                digit_char(digits@[i as int] as nat),
            ));
            assert(out@ =~= start + decimal(m as nat) + digits@.subrange(0, i + 1).map_values(
                |d: u8| digit_char(d as nat),
            ));
        }
        i = i + 1;
    }
    proof {
        assert(digits@.subrange(0, digits@.len() as int) =~= digits@);
        assert(out@ =~= start + decimal(n as nat));
    }
}

/// Appends `n` in decimal, with a minus sign when negative, to `out`.
pub fn push_signed_decimal(out: &mut String, n: i64)
    ensures
        final(out)@ == old(out)@ + signed_decimal(n as int),
{
    if n < 0 {
        proof {
            reveal_strlit("-");
        }
        out.append("-");
        let magnitude: u128 = if n == i64::MIN {
            9223372036854775808u128
        } else {
            (-n) as u128
        };
        push_decimal(out, magnitude);
        proof {
            assert(out@ =~= old(out)@ + signed_decimal(n as int));
        }
    } else {
        push_decimal(out, n as u128);
    }
}

/// `n` in decimal.
pub fn decimal_text(n: u128) -> (r: String)
    ensures
        r@ == decimal(n as nat),
{
    let mut out = String::new();
    push_decimal(&mut out, n);
    proof {
        assert(out@ =~= decimal(n as nat));
    }
    out
}

} // verus!
