//! Double precision parameters, read through the bits of their IEEE 754 form.

use vstd::arithmetic::power2::{lemma2_to64, lemma_pow2_adds, lemma_pow2_pos, lemma_pow2_strictly_increases, pow2};
use vstd::prelude::*;

use crate::json::{number_bits, number_contents, number_to_int, Json, JsonView, NumberView};

verus! {

/// The bit that is set in every negative double.
const SIGN_BIT: u64 = 0x8000_0000_0000_0000;

/// The bits of the double one.
const ONE_BITS: u64 = 0x3ff0_0000_0000_0000;

/// A double: a finite one is held as the number that it is in JSON.
#[derive(Debug)]
pub enum Double {
    Finite(serde_json::Number),
    NotANumber,
    Infinite { negative: bool },
}

/// The size of a finite double, in units of the smallest positive one: 2 to the power -1074.
pub open spec fn magnitude(bits: u64) -> nat {
    let exponent = (bits as nat / 0x10_0000_0000_0000) % 2048;
    let fraction = bits as nat % 0x10_0000_0000_0000;
    if exponent == 0 {
        fraction
    } else {
        (0x10_0000_0000_0000 + fraction) * pow2((exponent - 1) as nat)
    }
}

/// The finite double with these bits is less than one.
pub open spec fn bits_below_one(bits: u64) -> bool {
    bits >= 0x8000_0000_0000_0000 || magnitude(bits) < pow2(1074)
}

impl Double {
    /// The double is less than one. No comparison holds of what is not a number.
    pub open spec fn below_one(self) -> bool {
        match self {
            Double::Finite(n) => match number_contents(n) {
                NumberView::Int(i) => i < 1,
                NumberView::Float(bits) => bits_below_one(bits),
            },
            Double::NotANumber => false,
            Double::Infinite { negative } => negative,
        }
    }

    /// The JSON value of the double: JSON has no number for one that is not finite.
    pub open spec fn json(self) -> JsonView {
        match self {
            Double::Finite(n) => JsonView::Number(number_contents(n)),
            _ => JsonView::Null,
        }
    }

    /// Whether the double is less than one.
    pub fn is_below_one(&self) -> (r: bool)
        ensures
            r == self.below_one(),
    {
        match self {
            Double::Finite(n) => match number_to_int(n) {
                Some(i) => i < 1,
                None => match number_bits(n) {
                    Some(bits) => {
                        proof {
                            lemma_bits_below_one(bits);
                        }
                        bits >= SIGN_BIT || bits < ONE_BITS
                    },
                    None => false,
                },
            },
            Double::NotANumber => false,
            Double::Infinite { negative } => *negative,
        }
    }

    /// The JSON value of the double.
    pub fn to_json(&self) -> (r: Json)
        ensures
            r@ == self.json(),
    {
        match self {
            Double::Finite(n) => Json::Number(n.clone()),
            _ => Json::Null,
        }
    }
}

/// A double without a sign is less than one exactly where its bits come before those of one.
proof fn lemma_bits_below_one(bits: u64)
    ensures
        bits_below_one(bits) <==> (bits >= SIGN_BIT || bits < ONE_BITS),
{
    let unit = 0x10_0000_0000_0000nat;
    let exponent = (bits as nat / unit) % 2048;
    let fraction = bits as nat % unit;
    assert(pow2(52) == unit) by {
        lemma2_to64();
        lemma_pow2_adds(32, 20);
    }
    lemma_pow2_pos(1021);
    if bits < SIGN_BIT {
        assert(bits as nat / unit < 2048);
        assert(exponent == bits as nat / unit);
        assert(bits as nat == exponent * unit + fraction);
        lemma_pow2_adds(52, 1022);
        if exponent >= 1023 {
            if exponent > 1023 {
                lemma_pow2_strictly_increases(1022, (exponent - 1) as nat);
            }
            assert((unit + fraction) * pow2((exponent - 1) as nat) >= unit * pow2(1022))
                by (nonlinear_arith)
                requires
                    pow2((exponent - 1) as nat) >= pow2(1022),
            ;
        } else if exponent > 0 {
            if exponent < 1022 {
                lemma_pow2_strictly_increases((exponent - 1) as nat, 1021);
            }
            lemma_pow2_adds(1, 1021);
            lemma_pow2_adds(52, 1022);
            assert(pow2(1) == 2) by {
                lemma2_to64();
            }
            assert((unit + fraction) * pow2((exponent - 1) as nat) < unit * (2 * pow2(1021)))
                by (nonlinear_arith)
                requires
                    pow2((exponent - 1) as nat) <= pow2(1021),
                    pow2(1021) > 0,
                    fraction < unit,
            ;
        } else {
            lemma_pow2_strictly_increases(52, 1074);
        }
    }
}

/// Among doubles without a sign the order is that of their bits: one that is no greater than
/// another is below one where the other is. One itself is not below one, its neighbour is, and
/// so is every double with a sign.
pub proof fn law_below_one_goes_by_order(a: u64, b: u64)
    ensures
        a <= b < 0x8000_0000_0000_0000 && bits_below_one(b) ==> bits_below_one(a),
        !bits_below_one(0x3ff0_0000_0000_0000),
        bits_below_one(0x3fef_ffff_ffff_ffff),
        a >= 0x8000_0000_0000_0000 ==> bits_below_one(a),
{
    lemma_bits_below_one(a);
    lemma_bits_below_one(b);
    lemma_bits_below_one(0x3ff0_0000_0000_0000);
    lemma_bits_below_one(0x3fef_ffff_ffff_ffff);
}

/// A finite double goes as the number it is, and one that is not finite as no number. An integer
/// is below one where it is no more than zero, and no comparison holds of what is not a number.
pub proof fn law_doubles_are_sent_as_they_are(d: Double)
    ensures
        d matches Double::Finite(n) ==> d.json() == JsonView::Number(number_contents(n)),
        !(d is Finite) ==> d.json() is Null,
        d matches Double::Finite(n) ==> (number_contents(n) matches NumberView::Int(i)
            ==> d.below_one() == (i <= 0)),
        d matches Double::Finite(n) ==> (number_contents(n) matches NumberView::Float(bits)
            ==> d.below_one() == bits_below_one(bits)),
        d is NotANumber ==> !d.below_one(),
        d matches Double::Infinite { negative } ==> d.below_one() == negative,
{
}

}
