//! Money amounts: reading a decimal text into minor units, and serializing
//! minor units with exactly two fractional digits.
//!
//! The rounding policy is fixed: the value is rounded half-up at two
//! fractional digits, so a third fractional digit of five or more rounds the
//! last kept digit up.

use vstd::prelude::*;
use vstd::string::*;
use crate::error::{CliError, ErrorModel};
use crate::text::{
    all_digits, dec_digits, dec_val, digit_char, digit_str, digit_val, find_first, first_index_of,
    is_digit_char, lemma_dec_digits_wf, lemma_dec_val_bounds, lemma_digit_char_is_digit,
    lemma_first_index_of, lemma_pow10_mono, pow10, push_decimal,
};

verus! {

/// The amount text is a non-negative decimal: one or more digits, optionally
/// followed by a single point and one or more digits.
pub open spec fn valid_amount(s: Seq<char>) -> bool {
    let i = first_index_of(s, '.');
    &&& i >= 1
    &&& all_digits(s.subrange(0, i))
    &&& (i == s.len() || (i + 1 < s.len() && all_digits(s.subrange(i + 1, s.len() as int))))
}

/// The fractional digits of a valid amount text.
pub open spec fn frac_digits(s: Seq<char>) -> Seq<char> {
    let i = first_index_of(s, '.');
    if i == s.len() {
        Seq::empty()
    } else {
        s.subrange(i + 1, s.len() as int)
    }
}

/// The value a valid amount text denotes, in minor units, rounded half-up at
/// two fractional digits: a third fractional digit of five or more adds one.
pub open spec fn amount_cents(s: Seq<char>) -> int {
    let ip = dec_val(s.subrange(0, first_index_of(s, '.')));
    let f = frac_digits(s);
    ip * 100 + (if f.len() >= 1 {
        10 * digit_val(f[0])
    } else {
        0
    }) + (if f.len() >= 2 {
        digit_val(f[1])
    } else {
        0
    }) + (if f.len() >= 3 && digit_val(f[2]) >= 5 {
        1int
    } else {
        0int
    })
}

/// The amounts the pipeline accepts: valid decimal texts whose integer part
/// stays within sixteen digits, so that the minor units fit the machine word.
pub open spec fn amount_ok(s: Seq<char>) -> bool {
    valid_amount(s) && first_index_of(s, '.') <= 16
}

/// The numeric value of a digit character.
fn digit_of(c: char) -> (d: u64)
    requires
        is_digit_char(c),
    ensures
        d as int == digit_val(c),
        d < 10,
{
    ((c as u32) - 48) as u64
}

/// Reads an amount text into minor units, rounded half-up at two fractional
/// digits. Fails with `InvalidAmount` exactly on texts that are not
/// non-negative decimals, or whose integer part runs past sixteen digits.
pub fn parse_amount_cents(s: &str) -> (r: Result<u64, CliError>)
    ensures
        r is Ok <==> amount_ok(s@),
        r matches Ok(c) ==> c as int == amount_cents(s@),
        r matches Err(e) ==> e@ == ErrorModel::InvalidAmount,
{
    let n = s.unicode_len();
    let dot = find_first(s, '.');
    proof {
        lemma_first_index_of(s@, '.');
    }
    if dot == 0 || dot > 16 {
        return Err(CliError::InvalidAmount);
    }
    // Validate the integer part.
    let mut k: usize = 0;
    while k < dot
        invariant
            n == s@.len(),
            dot == first_index_of(s@, '.'),
            dot <= n,
            0 <= k <= dot,
            forall|j: int| 0 <= j < k ==> is_digit_char(#[trigger] s@[j]),
        decreases dot - k,
    {
        let c = s.get_char(k);
        let v = c as u32;
        if v < 48 || v > 57 {
            proof {
                assert(s@.subrange(0, dot as int)[k as int] == s@[k as int]);
            }
            return Err(CliError::InvalidAmount);
        }
        k = k + 1;
    }
    assert(all_digits(s@.subrange(0, dot as int))) by {
        assert forall|i: int| 0 <= i < dot implies is_digit_char(
            #[trigger] s@.subrange(0, dot as int)[i],
        ) by {
            assert(s@.subrange(0, dot as int)[i] == s@[i]);
        }
    }
    // Validate the fractional part, when there is one.
    if dot < n {
        if dot + 1 == n {
            return Err(CliError::InvalidAmount);
        }
        let mut k2: usize = dot + 1;
        while k2 < n
            invariant
                n == s@.len(),
                dot == first_index_of(s@, '.'),
                dot + 1 < n,
                dot + 1 <= k2 <= n,
                forall|j: int| dot + 1 <= j < k2 ==> is_digit_char(#[trigger] s@[j]),
            decreases n - k2,
        {
            let c = s.get_char(k2);
            let v = c as u32;
            if v < 48 || v > 57 {
                proof {
                    assert(s@.subrange(dot + 1 as int, n as int)[k2 - dot - 1] == s@[k2 as int]);
                }
                return Err(CliError::InvalidAmount);
            }
            k2 = k2 + 1;
        }
        assert(all_digits(s@.subrange(dot + 1 as int, n as int))) by {
            assert forall|i: int| 0 <= i < n - dot - 1 implies is_digit_char(
                #[trigger] s@.subrange(dot + 1 as int, n as int)[i],
            ) by {
                assert(s@.subrange(dot + 1 as int, n as int)[i] == s@[dot + 1 + i]);
            }
        }
    }
    assert(amount_ok(s@));
    // Read the integer part.
    let mut ip: u64 = 0;
    let mut k3: usize = 0;
    while k3 < dot
        invariant
            n == s@.len(),
            dot == first_index_of(s@, '.'),
            dot <= n,
            1 <= dot <= 16,
            0 <= k3 <= dot,
            all_digits(s@.subrange(0, dot as int)),
            ip as int == dec_val(s@.subrange(0, k3 as int)),
            (ip as int) < pow10(k3 as nat),
        decreases dot - k3,
    {
        proof {
            assert(s@.subrange(0, dot as int)[k3 as int] == s@[k3 as int]);
            lemma_pow10_mono(k3 as nat, 15);
            reveal_with_fuel(pow10, 17);
            assert(pow10(15) == 1000000000000000) by {
                reveal_with_fuel(pow10, 17);
            }
        }
        let c = s.get_char(k3);
        let d = digit_of(c);
        ip = ip * 10 + d;
        k3 = k3 + 1;
        proof {
            assert(s@.subrange(0, k3 as int).drop_last() =~= s@.subrange(0, k3 as int - 1));
            assert(s@.subrange(0, k3 as int).last() == s@[k3 as int - 1]);
            assert(all_digits(s@.subrange(0, k3 as int))) by {
                assert forall|i: int| 0 <= i < k3 implies is_digit_char(
                    #[trigger] s@.subrange(0, k3 as int)[i],
                ) by {
                    assert(s@.subrange(0, k3 as int)[i] == s@[i]);
                    assert(s@.subrange(0, dot as int)[i] == s@[i]);
                }
            }
            lemma_dec_val_bounds(s@.subrange(0, k3 as int));
        }
    }
    proof {
        lemma_pow10_mono(k3 as nat, 16);
        assert(pow10(16) == 10000000000000000) by {
            reveal_with_fuel(pow10, 18);
        }
    }
    // Read up to three fractional digits; the third only rounds.
    let mut f0: u64 = 0;
    let mut f1: u64 = 0;
    let mut carry: u64 = 0;
    if dot < n {
        proof {
            assert(frac_digits(s@) =~= s@.subrange(dot + 1 as int, n as int));
        }
        let c0 = s.get_char(dot + 1);
        proof {
            assert(s@.subrange(dot + 1 as int, n as int)[0] == s@[dot + 1 as int]);
        }
        f0 = digit_of(c0);
        if dot + 2 < n {
            let c1 = s.get_char(dot + 2);
            proof {
                assert(s@.subrange(dot + 1 as int, n as int)[1] == s@[dot + 2 as int]);
            }
            f1 = digit_of(c1);
        }
        if dot + 3 < n {
            let c2 = s.get_char(dot + 3);
            proof {
                assert(s@.subrange(dot + 1 as int, n as int)[2] == s@[dot + 3 as int]);
            }
            let d2 = digit_of(c2);
            if d2 >= 5 {
                carry = 1;
            }
        }
    }
    let cents = ip * 100 + f0 * 10 + f1 + carry;
    proof {
        assert(s@.subrange(0, dot as int) == s@.subrange(0, first_index_of(s@, '.')));
    }
    Ok(cents)
}

/// The serialized form of an amount in minor units: the integer part, one
/// point, then exactly two digits.
pub open spec fn value_string(cents: int) -> Seq<char> {
    dec_digits(cents / 100) + seq!['.'] + seq![digit_char((cents % 100) / 10), digit_char(
        cents % 10,
    )]
}

/// Serializes minor units with exactly two fractional digits.
pub fn format_value(cents: u64) -> (r: String)
    ensures
        r@ == value_string(cents as int),
{
    let mut out = String::new();
    push_decimal(&mut out, cents / 100);
    out.append(".");
    out.append(digit_str((cents % 100) / 10));
    out.append(digit_str(cents % 10));
    proof {
        reveal_strlit(".");
        assert(out@ =~= value_string(cents as int));
    }
    out
}

/// Law: the serialized value always has exactly two digits after its single
/// decimal point, whatever the internal precision of the amount.
pub proof fn lemma_value_two_decimals(cents: int)
    requires
        cents >= 0,
    ensures
        value_string(cents).len() >= 4,
        value_string(cents)[value_string(cents).len() - 3] == '.',
        is_digit_char(value_string(cents)[value_string(cents).len() - 2]),
        is_digit_char(value_string(cents)[value_string(cents).len() - 1]),
        forall|i: int|
            0 <= i < value_string(cents).len() - 3 ==> #[trigger] value_string(cents)[i] != '.',
{
    lemma_dec_digits_wf(cents / 100);
    lemma_digit_char_is_digit((cents % 100) / 10);
    lemma_digit_char_is_digit(cents % 10);
    assert forall|i: int| 0 <= i < value_string(cents).len() - 3 implies #[trigger] value_string(
        cents,
    )[i] != '.' by {
        assert(value_string(cents)[i] == dec_digits(cents / 100)[i]);
        assert(is_digit_char(dec_digits(cents / 100)[i]));
    }
}

/// Law: the rounding policy is half-up on the third fractional digit — the
/// kept two digits are used as they stand, and one minor unit is added
/// exactly when the third fractional digit is five or more. Digits past the
/// third never change the value.
pub proof fn lemma_amount_rounding(s: Seq<char>)
    requires
        valid_amount(s),
        frac_digits(s).len() >= 3,
    ensures
        amount_cents(s) == dec_val(s.subrange(0, first_index_of(s, '.'))) * 100 + 10 * digit_val(
            frac_digits(s)[0],
        ) + digit_val(frac_digits(s)[1]) + if digit_val(frac_digits(s)[2]) >= 5 {
            1int
        } else {
            0int
        },
{
}

} // verus!
