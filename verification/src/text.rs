//! Text helpers shared by the error messages and window labels of the crate:
//! decimal rendering of integers and the Unicode notion of a blank string.
use vstd::prelude::*;

verus! {

/// The character of one decimal digit.
pub open spec fn digit_char(d: nat) -> char {
    (48 + d) as char
}

/// Decimal digits of a natural number, most significant first, no leading zeros.
pub open spec fn nat_decimal(n: nat) -> Seq<char>
    decreases n,
{
    if n < 10 {
        seq![digit_char(n)]
    } else {
        nat_decimal(n / 10).push(digit_char(n % 10))
    }
}

/// Decimal rendering of an integer, as `Display` writes it: a minus sign for
/// negative values, then the digits of the magnitude.
pub open spec fn int_decimal(n: int) -> Seq<char> {
    if n < 0 {
        seq!['-'] + nat_decimal((-n) as nat)
    } else {
        nat_decimal(n as nat)
    }
}

/// The characters that `char::is_whitespace` accepts (the Unicode `White_Space` property).
pub open spec fn is_unicode_whitespace(c: char) -> bool {
    let v: u32 = c as u32;
    ||| 0x09 <= v <= 0x0d
    ||| v == 0x20
    ||| v == 0x85
    ||| v == 0xa0
    ||| v == 0x1680
    ||| 0x2000 <= v <= 0x200a
    ||| v == 0x2028
    ||| v == 0x2029
    ||| v == 0x202f
    ||| v == 0x205f
    ||| v == 0x3000
}

/// A string that trimming leaves empty: every character is white space.
pub open spec fn is_blank(s: Seq<char>) -> bool {
    forall|i: int| 0 <= i < s.len() ==> is_unicode_whitespace(#[trigger] s[i])
}

/// The one-character string of a decimal digit.
fn digit_str(d: u64) -> (r: &'static str)
    requires
        d < 10,
    ensures
        r@ == seq![digit_char(d as nat)],
{
    match d {
        0 => {
            proof {
                reveal_strlit("0");
            }
            "0"
        },
        1 => {
            proof {
                reveal_strlit("1");
            }
            "1"
        },
        2 => {
            proof {
                reveal_strlit("2");
            }
            "2"
        },
        3 => {
            proof {
                reveal_strlit("3");
            }
            "3"
        },
        4 => {
            proof {
                reveal_strlit("4");
            }
            "4"
        },
        5 => {
            proof {
                reveal_strlit("5");
            }
            "5"
        },
        6 => {
            proof {
                reveal_strlit("6");
            }
            "6"
        },
        7 => {
            proof {
                reveal_strlit("7");
            }
            "7"
        },
        8 => {
            proof {
                reveal_strlit("8");
            }
            "8"
        },
        _ => {
            proof {
                reveal_strlit("9");
            }
            "9"
        },
    }
}

/// Appends the decimal digits of `m` to `s`.
fn push_nat_decimal(s: &mut String, m: u64)
    ensures
        final(s)@ == old(s)@ + nat_decimal(m as nat),
    decreases m,
{
    if m >= 10 {
        push_nat_decimal(s, m / 10);
    }
    s.append(digit_str(m % 10));
    proof {
        if m >= 10 {
            assert(old(s)@ + nat_decimal(m as nat) =~= old(s)@ + nat_decimal((m / 10) as nat) + seq![
                digit_char((m % 10) as nat),
            ]);
        } else {
            assert(nat_decimal(m as nat) == seq![digit_char(m as nat)]);
        }
    }
}

/// Appends the decimal rendering of `n` to `s`.
pub fn push_decimal(s: &mut String, n: i64)
    ensures
        final(s)@ == old(s)@ + int_decimal(n as int),
{
    if n < 0 {
        proof {
            reveal_strlit("-");
        }
        s.append("-");
        let wide: i128 = n as i128;
        let magnitude: u64 = (-wide) as u64;
        push_nat_decimal(s, magnitude);
        assert(final(s)@ =~= old(s)@ + int_decimal(n as int)) by {
            assert(seq!['-'] =~= "-"@);
        }
    } else {
        push_nat_decimal(s, n as u64);
    }
}

/// A new string holding `prefix` followed by the decimal rendering of `n`.
pub fn prefixed_decimal(prefix: &str, n: i64) -> (r: String)
    ensures
        r@ == prefix@ + int_decimal(n as int),
{
    let mut s = String::from_str(prefix);
    push_decimal(&mut s, n);
    s
}

/// A new string holding `prefix` followed by `suffix`.
pub fn concat_str(prefix: &str, suffix: &str) -> (r: String)
    ensures
        r@ == prefix@ + suffix@,
{
    let mut s = String::from_str(prefix);
    s.append(suffix);
    s
}

/// Whether `c` is white space, as `char::is_whitespace` decides it.
pub fn is_whitespace_char(c: char) -> (r: bool)
    ensures
        r == is_unicode_whitespace(c),
{
    let v: u32 = c as u32;
    (0x09 <= v && v <= 0x0d) || v == 0x20 || v == 0x85 || v == 0xa0 || v == 0x1680 || (0x2000 <= v
        && v <= 0x200a) || v == 0x2028 || v == 0x2029 || v == 0x202f || v == 0x205f || v == 0x3000
}

/// Whether trimming `s` leaves nothing, that is, every character is white space.
pub fn is_blank_str(s: &str) -> (r: bool)
    ensures
        r == is_blank(s@),
{
    let n: usize = s.unicode_len();
    let mut i: usize = 0;
    while i < n
        invariant
            n == s@.len(),
            i <= n,
            forall|j: int| 0 <= j < i ==> is_unicode_whitespace(#[trigger] s@[j]),
        decreases n - i,
    {
        let c = s.get_char(i);
        if !is_whitespace_char(c) {
            return false;
        }
        i = i + 1;
    }
    true
}

} // verus!
