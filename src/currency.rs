use vstd::prelude::*;

verus! {

/// The currencies that quotes may be issued in.
#[derive(Clone, Copy, Debug, PartialEq, Eq, Structural)]
pub enum Currency {
    Btc,
    Eth,
    Stq,
}

/// A non-negative quantity, counted in the currency's smallest unit.
#[derive(Clone, Copy, Debug, PartialEq, Eq, Structural)]
pub struct Amount(pub u128);

pub const BTC_DECIMALS: u32 = 8;

pub const ETH_DECIMALS: u32 = 18;

pub const STQ_DECIMALS: u32 = 18;

/// Number of decimal digits between a display unit and the smallest unit.
pub open spec fn decimals_of(c: Currency) -> nat {
    match c {
        Currency::Btc => BTC_DECIMALS as nat,
        Currency::Eth => ETH_DECIMALS as nat,
        Currency::Stq => STQ_DECIMALS as nat,
    }
}

/// Ten to the power `n`.
pub open spec fn pow10(n: nat) -> nat
    decreases n,
{
    if n == 0 {
        1
    } else {
        10 * pow10((n - 1) as nat)
    }
}

/// How many smallest units make one display unit of `c`.
pub open spec fn unit_of(c: Currency) -> nat {
    pow10(decimals_of(c))
}

impl Currency {
    /// Decimal precision of the currency.
    pub fn decimals(self) -> (r: u32)
        ensures
            r as nat == decimals_of(self),
    {
        match self {
            Currency::Btc => BTC_DECIMALS,
            Currency::Eth => ETH_DECIMALS,
            Currency::Stq => STQ_DECIMALS,
        }
    }

    /// Number of smallest units in one display unit.
    pub fn unit(self) -> (r: u128)
        ensures
            r as nat == unit_of(self),
            r > 0,
    {
        let d = self.decimals();
        let mut r: u128 = 1;
        let mut i: u32 = 0;
        while i < d
            invariant
                d as nat == decimals_of(self),
                d <= 18,
                i <= d,
                r as nat == pow10(i as nat),
                r > 0,
            decreases d - i,
        {
            proof {
                lemma_pow10_monotonic(i as nat, 17);
                lemma_pow10_bounded(17);
            }
            r = r * 10;
            i = i + 1;
        }
        r
    }

    /// Splits `amount` into whole display units and the remaining smallest units.
    pub fn split_units(self, amount: Amount) -> (r: (u128, u128))
        ensures
            r.0 as nat == amount.0 as nat / unit_of(self),
            r.1 as nat == amount.0 as nat % unit_of(self),
    {
        let u = self.unit();
        (amount.0 / u, amount.0 % u)
    }

    /// Builds the amount of `whole` display units plus `fraction` smallest units.
    /// Fails when `fraction` is not below one display unit or the total does not fit.
    pub fn join_units(self, whole: u128, fraction: u128) -> (r: Option<Amount>)
        ensures
            r is Some <==> fraction < unit_of(self) && whole * unit_of(self) + fraction
                <= u128::MAX,
            r is Some ==> r == Some(Amount((whole * unit_of(self) + fraction) as u128)),
    {
        let u = self.unit();
        if fraction >= u {
            return None;
        }
        match whole.checked_mul(u) {
            None => None,
            Some(w) => match w.checked_add(fraction) {
                None => None,
                Some(t) => Some(Amount(t)),
            },
        }
    }
}

proof fn lemma_pow10_monotonic(n: nat, m: nat)
    requires
        n <= m,
    ensures
        1 <= pow10(n) <= pow10(m),
    decreases m,
{
    if n < m {
        lemma_pow10_monotonic(n, (m - 1) as nat);
    } else if m > 0 {
        lemma_pow10_monotonic((n - 1) as nat, (m - 1) as nat);
    }
}

proof fn lemma_pow10_bounded(n: nat)
    requires
        n <= 18,
    ensures
        1 <= pow10(n) <= pow10(18),
        pow10(17) == 100_000_000_000_000_000,
        pow10(18) == 1_000_000_000_000_000_000,
{
    lemma_pow10_monotonic(n, 18);
    reveal_with_fuel(pow10, 19);
}

/// Splitting an amount into display units and joining the parts again gives
/// the amount back, for every currency.
pub proof fn lemma_units_round_trip(c: Currency, a: Amount)
    ensures
        ({
            let u = unit_of(c);
            let whole = a.0 as nat / u;
            let fraction = a.0 as nat % u;
            fraction < u && whole * u + fraction == a.0
        }),
{
    lemma_pow10_bounded(decimals_of(c));
    let u = unit_of(c);
    assert(u > 0);
    vstd::arithmetic::div_mod::lemma_fundamental_div_mod(a.0 as int, u as int);
    vstd::arithmetic::div_mod::lemma_mod_bound(a.0 as int, u as int);
}

} // verus!
