use vstd::prelude::*;

verus! {

/// Two to the power of 128: the weight of an amount's high half.
pub open spec fn half_base() -> nat {
    0x1_0000_0000_0000_0000_0000_0000_0000_0000nat
}

/// An unsigned 256-bit quantity of the ledger's native currency unit.
#[derive(Clone, Copy, Debug)]
pub struct Amount {
    pub high: u128,
    pub low: u128,
}

impl Amount {
    /// The number this amount stands for.
    pub open spec fn value(self) -> nat {
        self.high as nat * half_base() + self.low as nat
    }

    /// The amount made of a high and a low 128-bit half.
    pub fn new(high: u128, low: u128) -> (r: Amount)
        ensures
            r.high == high,
            r.low == low,
            r.value() == high as nat * half_base() + low as nat,
    {
        Amount { high, low }
    }

    /// The amount equal to `v`.
    pub fn from_u128(v: u128) -> (r: Amount)
        ensures
            r.value() == v as nat,
    {
        Amount { high: 0, low: v }
    }

    /// Whether this amount is at least `required`.
    pub fn covers(&self, required: &Amount) -> (r: bool)
        ensures
            r == (self.value() >= required.value()),
    {
        proof {
            lemma_order_by_halves(*self, *required);
        }
        self.high > required.high || (self.high == required.high && self.low >= required.low)
    }

    /// Whether the two amounts are equal.
    pub fn same_as(&self, other: &Amount) -> (r: bool)
        ensures
            r == (self.value() == other.value()),
    {
        proof {
            lemma_order_by_halves(*self, *other);
            lemma_order_by_halves(*other, *self);
        }
        self.high == other.high && self.low == other.low
    }
}

/// Amounts compare as their high halves do, and as their low halves where the
/// high halves are equal.
pub proof fn lemma_order_by_halves(a: Amount, b: Amount)
    ensures
        (a.value() >= b.value()) == (a.high > b.high || (a.high == b.high && a.low >= b.low)),
{
    let x = a.high as int;
    let y = b.high as int;
    let p = a.low as int;
    let q = b.low as int;
    let h = half_base() as int;
    assert(0 <= p < h && 0 <= q < h);
    if x > y {
        assert(x * h + p >= y * h + q) by (nonlinear_arith)
            requires x > y, 0 <= p < h, 0 <= q < h, y >= 0;
    } else if x < y {
        assert(x * h + p < y * h + q) by (nonlinear_arith)
            requires x < y, 0 <= p < h, 0 <= q < h, x >= 0;
    }
}

} // verus!
