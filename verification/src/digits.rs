//! Decimal rendering and parsing of frame indices and frame rates.

use vstd::prelude::*;

verus! {

/// The character for a single decimal digit value.
pub open spec fn digit_char(d: nat) -> char {
    if d == 0 {
        '0'
    } else if d == 1 {
        '1'
    } else if d == 2 {
        '2'
    } else if d == 3 {
        '3'
    } else if d == 4 {
        '4'
    } else if d == 5 {
        '5'
    } else if d == 6 {
        '6'
    } else if d == 7 {
        '7'
    } else if d == 8 {
        '8'
    } else {
        '9'
    }
}

/// The usual decimal rendering of `n`, most significant digit first,
/// without leading zeros (the rendering of 0 is "0").
pub open spec fn dec_digits(n: nat) -> Seq<char>
    decreases n,
{
    if n < 10 {
        seq![digit_char(n)]
    } else {
        dec_digits(n / 10).push(digit_char(n % 10))
    }
}

fn digit_str(d: u32) -> (r: &'static str)
    requires
        d < 10,
    ensures
        r@ =~= seq![digit_char(d as nat)],
{
    proof {
        reveal_strlit("0");
        reveal_strlit("1");
        reveal_strlit("2");
        reveal_strlit("3");
        reveal_strlit("4");
        reveal_strlit("5");
        reveal_strlit("6");
        reveal_strlit("7");
        reveal_strlit("8");
        reveal_strlit("9");
    }
    match d {
        0 => "0",
        1 => "1",
        2 => "2",
        3 => "3",
        4 => "4",
        5 => "5",
        6 => "6",
        7 => "7",
        8 => "8",
        _ => "9",
    }
}

/// Whether `b` is the code of an ASCII decimal digit.
pub open spec fn is_digit(b: u8) -> bool {
    48 <= b <= 57
}

/// Whether every byte of `s` is an ASCII decimal digit.
pub open spec fn all_digits(s: Seq<u8>) -> bool {
    forall|i: int| 0 <= i < s.len() ==> is_digit(s[i])
}

/// The value of one digit byte; non-digits count as zero so that the value
/// of a sequence is always defined.
pub open spec fn digit_val(b: u8) -> nat {
    if is_digit(b) {
        (b - 48) as nat
    } else {
        0
    }
}

/// The number written in decimal by `s`, most significant digit first.
pub open spec fn dec_val(s: Seq<u8>) -> nat
    decreases s.len(),
{
    if s.len() == 0 {
        0
    } else {
        dec_val(s.drop_last()) * 10 + digit_val(s.last())
    }
}

/// A longer prefix of `s` never names a smaller number.
proof fn lemma_dec_val_take_mono(s: Seq<u8>, i: int, j: int)
    requires
        0 <= i <= j <= s.len(),
    ensures
        dec_val(s.take(i)) <= dec_val(s.take(j)),
    decreases j - i,
{
    if i < j {
        lemma_dec_val_take_mono(s, i, j - 1);
        assert(s.take(j).drop_last() =~= s.take(j - 1));
        assert(dec_val(s.take(j)) == dec_val(s.take(j - 1)) * 10 + digit_val(s.take(j).last()));
    }
}

/// Parses a decimal number. Returns the value exactly when the input is a
/// non-empty string of decimal digits whose value fits in a `u32`; returns
/// `None` otherwise.
pub fn parse_u32(bytes: &[u8]) -> (r: Option<u32>)
    ensures
        r is Some <==> bytes@.len() > 0 && all_digits(bytes@) && dec_val(bytes@) <= u32::MAX,
        r matches Some(n) ==> n as nat == dec_val(bytes@),
{
    if bytes.len() == 0 {
        return None;
    }
    let ghost whole = bytes@;
    let mut acc: u32 = 0;
    let mut i: usize = 0;
    while i < bytes.len()
        invariant
            0 <= i <= whole.len(),
            whole == bytes@,
            all_digits(whole.take(i as int)),
            acc as nat == dec_val(whole.take(i as int)),
        decreases whole.len() - i,
    {
        let b = bytes[i];
        if b < 48 || b > 57 {
            proof {
                assert(!is_digit(whole[i as int]));
            }
            return None;
        }
        let d: u32 = (b - 48) as u32;
        proof {
            assert(whole.take(i + 1 as int).drop_last() =~= whole.take(i as int));
            assert(dec_val(whole.take(i + 1 as int)) == dec_val(whole.take(i as int)) * 10
                + digit_val(whole[i as int]));
        }
        if acc > (u32::MAX - d) / 10 {
            proof {
                assert(acc * 10 + d > u32::MAX) by {
                    assert(u32::MAX - d == ((u32::MAX - d) / 10) * 10 + (u32::MAX - d) % 10) by (nonlinear_arith);
                    assert(acc >= (u32::MAX - d) / 10 + 1);
                    assert(acc * 10 >= ((u32::MAX - d) / 10 + 1) * 10) by (nonlinear_arith)
                        requires
                            acc >= (u32::MAX - d) / 10 + 1,
                    ;
                }
                assert(dec_val(whole.take(i + 1 as int)) > u32::MAX);
                lemma_dec_val_take_mono(whole, i + 1 as int, whole.len() as int);
                assert(whole.take(whole.len() as int) =~= whole);
                assert(dec_val(whole) > u32::MAX);
            }
            return None;
        }
        proof {
            assert(acc * 10 + d <= u32::MAX) by {
                assert(u32::MAX - d == ((u32::MAX - d) / 10) * 10 + (u32::MAX - d) % 10) by (nonlinear_arith);
                assert(acc * 10 <= ((u32::MAX - d) / 10) * 10) by (nonlinear_arith)
                    requires
                        acc <= (u32::MAX - d) / 10,
                ;
            }
        }
        acc = acc * 10 + d;
        i = i + 1;
    }
    proof {
        assert(whole.take(whole.len() as int) =~= whole);
    }
    Some(acc)
}

/// Validates a frame rate given in decimal: the rate must be a non-empty
/// digit string naming a positive value that fits in a `u32`.
pub fn parse_fps(bytes: &[u8]) -> (r: Option<u32>)
    ensures
        r is Some <==> bytes@.len() > 0 && all_digits(bytes@) && 1 <= dec_val(bytes@)
            <= u32::MAX,
        r matches Some(n) ==> n as nat == dec_val(bytes@) && n >= 1,
{
    match parse_u32(bytes) {
        Option::Some(n) => {
            if n >= 1 {
                Option::Some(n)
            } else {
                Option::None
            }
        },
        Option::None => Option::None,
    }
}

/// The byte codes of a sequence of characters.
pub open spec fn char_bytes(s: Seq<char>) -> Seq<u8> {
    s.map_values(|c: char| c as u8)
}

/// Rendering a number in decimal and reading the digits back yields the
/// same number: `dec_digits` and `dec_val` are inverse to one another.
pub proof fn lemma_decimal_round_trip(n: nat)
    ensures
        all_digits(char_bytes(dec_digits(n))),
        dec_val(char_bytes(dec_digits(n))) == n,
    decreases n,
{
    if n < 10 {
        assert(digit_val(digit_char(n) as u8) == n);
        let s = char_bytes(dec_digits(n));
        assert(s =~= seq![(digit_char(n) as u8)]);
        assert(s.drop_last() =~= Seq::<u8>::empty());
        assert(dec_val(s) == dec_val(s.drop_last()) * 10 + digit_val(s.last()));
    } else {
        lemma_decimal_round_trip(n / 10);
        assert(digit_val(digit_char((n % 10) as nat) as u8) == n % 10);
        let s = char_bytes(dec_digits(n));
        assert(s =~= char_bytes(dec_digits(n / 10)).push(digit_char((n % 10) as nat) as u8));
        assert(s.drop_last() =~= char_bytes(dec_digits(n / 10)));
        assert(dec_val(s) == dec_val(s.drop_last()) * 10 + digit_val(s.last()));
        assert(n == (n / 10) * 10 + n % 10);
        assert(all_digits(s));
    }
}

/// Renders `n` in decimal.
pub fn u32_to_dec(n: u32) -> (r: String)
    ensures
        r@ == dec_digits(n as nat),
    decreases n,
{
    if n < 10 {
        String::from_str(digit_str(n))
    } else {
        let mut s = u32_to_dec(n / 10);
        s.append(digit_str(n % 10));
        proof {
            assert(s@ =~= dec_digits((n / 10) as nat).push(digit_char((n % 10) as nat)));
        }
        s
    }
}

} // verus!
