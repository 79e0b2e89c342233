use vstd::prelude::*;

verus! {

/// Atomic units in one whole [`Decimal`]: eighteen decimal places.
pub const DECIMAL_FRACTIONAL: u128 = 1_000_000_000_000_000_000;

/// Atomic units in one percent.
pub const PERCENT_ATOMICS: u128 = 10_000_000_000_000_000;

/// A fixed-point number with eighteen decimal places, held as its atomic units.
#[derive(Clone, Copy, Debug, PartialEq, Eq)]
pub struct Decimal {
    pub atomics: u128,
}

impl Decimal {
    /// The value lies in `[0, 1]`.
    pub open spec fn is_fraction(self) -> bool {
        self.atomics <= DECIMAL_FRACTIONAL
    }

    /// `x` percent.
    pub fn percent(x: u64) -> (r: Decimal)
        ensures
            r.atomics == x as int * PERCENT_ATOMICS as int,
    {
        assert(x as int * PERCENT_ATOMICS as int <= u64::MAX as int * PERCENT_ATOMICS as int)
            by (nonlinear_arith);
        Decimal { atomics: (x as u128) * PERCENT_ATOMICS }
    }

    /// The decimal whose atomic units are `atomics`.
    pub fn raw(atomics: u128) -> (r: Decimal)
        ensures
            r.atomics == atomics,
    {
        Decimal { atomics }
    }

    /// Whether the value lies in `[0, 1]`.
    pub fn check_fraction(&self) -> (r: bool)
        ensures
            r == self.is_fraction(),
    {
        self.atomics <= DECIMAL_FRACTIONAL
    }
}

/// `amount * part`, rounded down.
pub open spec fn share(amount: u128, part: Decimal) -> int {
    (amount as int * part.atomics as int) / (DECIMAL_FRACTIONAL as int)
}

/// Relies on cosmwasm_std's `Uint128 * Decimal`, which is
/// `multiply_ratio(atomics, 10^18)`: the product over 10^18, rounded down. It
/// panics only when that result exceeds `u128`, which a part of at most one rules out.
#[verifier::external_body]
fn mul_decimal(amount: u128, part: Decimal) -> (r: u128)
    requires
        part.is_fraction(),
    ensures
        r as int == share(amount, part),
{
    (cosmwasm_std::Uint128::new(amount) * cosmwasm_std::Decimal::raw(part.atomics)).u128()
}

/// An amount of one denomination.
#[derive(Clone, Debug, PartialEq, Eq)]
pub struct Coin {
    pub denom: String,
    pub amount: u128,
}

impl Coin {
    pub fn new(amount: u128, denom: &str) -> (r: Coin)
        ensures
            r.amount == amount,
            r.denom@ == denom@,
    {
        Coin { denom: denom.to_string(), amount }
    }

    /// A copy of this coin.
    pub fn duplicate(&self) -> (r: Coin)
        ensures
            r == *self,
    {
        Coin { denom: self.denom.clone(), amount: self.amount }
    }
}

/// `c` meets the minimum: same denomination, at least its amount.
pub open spec fn meets(c: Coin, min: Coin) -> bool {
    c.denom@ == min.denom@ && c.amount >= min.amount
}

/// Some entry of `funds` meets the minimum.
pub open spec fn any_meets(funds: Seq<Coin>, min: Coin) -> bool {
    exists|i: int| 0 <= i < funds.len() && #[trigger] meets(funds[i], min)
}

/// Qualification is monotonic: entries added before or after a qualifying one
/// never take the qualification away.
pub proof fn lemma_extra_entries_keep_qualifying(funds: Seq<Coin>, extra: Seq<Coin>, min: Coin)
    requires
        any_meets(funds, min),
    ensures
        any_meets(funds + extra, min),
        any_meets(extra + funds, min),
{
    let i = choose|i: int| 0 <= i < funds.len() && #[trigger] meets(funds[i], min);
    assert((funds + extra)[i] == funds[i]);
    assert((extra + funds)[extra.len() + i] == funds[i]);
}

/// Whether some entry of `funds` has the denomination of `min` and at least its amount.
pub fn has_qualifying(funds: &Vec<Coin>, min: &Coin) -> (r: bool)
    ensures
        r == any_meets(funds@, *min),
{
    let mut i: usize = 0;
    while i < funds.len()
        invariant
            0 <= i <= funds@.len(),
            forall|j: int| 0 <= j < i ==> !#[trigger] meets(funds@[j], *min),
        decreases funds@.len() - i,
    {
        let c = &funds[i];
        if c.denom == min.denom && c.amount >= min.amount {
            assert(meets(funds@[i as int], *min));
            return true;
        }
        i += 1;
    }
    false
}

/// The share `part` of `c`, in the same denomination.
pub open spec fn coin_share(c: Coin, part: Decimal) -> Coin {
    Coin { denom: c.denom, amount: share(c.amount, part) as u128 }
}

/// The share `part` of each entry of `balance`, in order, leaving out those that
/// come to zero.
pub open spec fn forwarded(balance: Seq<Coin>, part: Decimal) -> Seq<Coin>
    decreases balance.len(),
{
    if balance.len() == 0 {
        Seq::empty()
    } else {
        let rest = forwarded(balance.drop_last(), part);
        let c = coin_share(balance.last(), part);
        if c.amount > 0 {
            rest.push(c)
        } else {
            rest
        }
    }
}

/// The coins to hand on when `part` of `balance` is forwarded.
pub fn forward_amounts(balance: &Vec<Coin>, part: Decimal) -> (r: Vec<Coin>)
    requires
        part.is_fraction(),
    ensures
        r@ == forwarded(balance@, part),
{
    let mut out: Vec<Coin> = Vec::new();
    let mut i: usize = 0;
    while i < balance.len()
        invariant
            0 <= i <= balance@.len(),
            part.is_fraction(),
            out@ == forwarded(balance@.subrange(0, i as int), part),
        decreases balance@.len() - i,
    {
        let c = &balance[i];
        let amount = mul_decimal(c.amount, part);
        assert(balance@.subrange(0, i as int + 1).drop_last() == balance@.subrange(0, i as int));
        if amount > 0 {
            out.push(Coin { denom: c.denom.clone(), amount });
        }
        i += 1;
    }
    assert(balance@.subrange(0, balance@.len() as int) == balance@);
    out
}

} // verus!
