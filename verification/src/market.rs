//! The pricing engine: what a purchase costs, and how many units a payment buys.
//!
//! By the target schedule, `elapsed * total_units / target_duration` units
//! should have been sold after `elapsed` seconds. The price of a purchase is
//! the start price times the square of the ratio between the units sold once
//! the purchase is made and that expectation, and never less than the
//! minimum price. While nothing is expected to be sold yet, the ratio is 1.

use vstd::arithmetic::power2::{lemma2_to64, lemma_pow2_adds, lemma_pow2_unfold, pow2};
use vstd::prelude::*;
use crate::decimal::{ceil_units, fits, fractional, spec_from_ratio, spec_mul, Decimal};
use crate::error::{ContractError, StdError};

verus! {

/// The accounting state of a sale and the parameters of its price curve.
#[derive(Clone, Copy, Debug, PartialEq, Eq, Structural)]
pub struct Market {
    pub start_price: Decimal,
    pub min_price: Decimal,
    pub units_sold: u128,
    pub target_duration: u128,
    pub total_spent: u128,
    pub total_units: u128,
}

/// What a purchase costs, in the smallest denomination of the spend asset.
#[derive(Clone, Copy, Debug, PartialEq, Eq, Structural)]
pub struct Cost(pub u128);

impl Market {
    /// The units that the target schedule expects to be sold after `elapsed` seconds.
    pub open spec fn spec_expected_units_sold(self, elapsed: int) -> Result<int, StdError> {
        if !fits(elapsed * self.total_units) {
            Err(StdError::Overflow)
        } else if self.target_duration == 0 {
            Err(StdError::DivideByZero)
        } else {
            Ok(elapsed * self.total_units / (self.target_duration as int))
        }
    }

    /// The atomic units of the factor by which a purchase of `units` after
    /// `elapsed` seconds scales the start price.
    pub open spec fn spec_ratio(self, units: int, elapsed: int) -> Result<int, StdError> {
        match self.spec_expected_units_sold(elapsed) {
            Err(e) => Err(e),
            Ok(expected) => if expected > 0 {
                if !fits(self.units_sold + units) {
                    Err(StdError::Overflow)
                } else {
                    match spec_from_ratio(self.units_sold + units, expected) {
                        Err(e) => Err(e),
                        Ok(velocity) => spec_mul(velocity, velocity),
                    }
                }
            } else {
                Ok(fractional())
            },
        }
    }

    /// The atomic units of the unit price of a purchase of `units` after `elapsed` seconds.
    pub open spec fn spec_price(self, units: int, elapsed: int) -> Result<int, StdError> {
        match self.spec_ratio(units, elapsed) {
            Err(e) => Err(e),
            Ok(ratio) => match spec_mul(self.start_price@, ratio) {
                Err(e) => Err(e),
                Ok(price) => Ok(if price >= self.min_price@ { price } else { self.min_price@ }),
            },
        }
    }

    /// The cost of a purchase of `units` after `elapsed` seconds: the unit
    /// price times the units, rounded up to a whole number.
    pub open spec fn spec_cost(self, units: int, elapsed: int) -> Result<int, StdError> {
        match self.spec_price(units, elapsed) {
            Err(e) => Err(e),
            Ok(price) => if !fits(units * fractional()) || !fits(price * units) {
                Err(StdError::Overflow)
            } else {
                Ok(ceil_units(price * units))
            },
        }
    }

    /// Whether `amount` pays for `units` after `elapsed` seconds: their cost
    /// is in range and not above `amount`.
    pub open spec fn spec_affordable(self, units: int, amount: int, elapsed: int) -> bool {
        match self.spec_cost(units, elapsed) {
            Ok(cost) => cost <= amount,
            Err(_) => false,
        }
    }

    /// Whether `units` is what `amount` may buy of `limit` units: a count
    /// that `amount` pays for, which costs exactly `amount` or is the greatest
    /// that `amount` pays for.
    pub open spec fn spec_is_received(self, units: int, limit: int, amount: int, elapsed: int) -> bool {
        &&& 0 <= units <= limit
        &&& self.spec_affordable(units, amount, elapsed)
        &&& self.spec_cost(units, elapsed) == Ok::<int, StdError>(amount) || forall|more: int|
            units < more <= limit ==> !#[trigger] self.spec_affordable(more, amount, elapsed)
    }

    /// The count that the search by halving reaches, when the answer lies
    /// from `below` up to `above` and `limit` units are left.
    ///
    /// The count in the middle is tried: if it costs exactly `amount` it is
    /// the answer; if it costs less the search goes on above it, and else
    /// below it. When no count is left between the two ends, the answer is
    /// the lower end, unless the upper end is still all that is left and
    /// `amount` pays for it.
    pub open spec fn spec_search(self, below: int, above: int, limit: int, amount: int, elapsed: int) -> int
        decreases above - below,
    {
        if above - below <= 1 {
            if above == limit && self.spec_affordable(limit, amount, elapsed) {
                limit
            } else {
                below
            }
        } else {
            let guess = below + (above - below) / 2;
            match self.spec_cost(guess, elapsed) {
                Ok(cost) => if cost < amount {
                    self.spec_search(guess, above, limit, amount, elapsed)
                } else if cost > amount {
                    self.spec_search(below, guess, limit, amount, elapsed)
                } else {
                    guess
                },
                Err(_) => self.spec_search(below, guess, limit, amount, elapsed),
            }
        }
    }

    /// The units that `amount` buys after `elapsed` seconds: the count that
    /// the search by halving reaches among the units not yet sold. It fails
    /// where more is sold than supplied, and where not even the cost of
    /// nothing can be computed.
    pub open spec fn spec_received(self, amount: int, elapsed: int) -> Result<int, StdError> {
        if self.units_sold > self.total_units {
            Err(StdError::Overflow)
        } else {
            match self.spec_cost(0, elapsed) {
                Err(e) => Err(e),
                Ok(_) => Ok(
                    self.spec_search(
                        0,
                        self.total_units - self.units_sold,
                        self.total_units - self.units_sold,
                        amount,
                        elapsed,
                    ),
                ),
            }
        }
    }

    /// The market after a purchase of `units` at `cost`.
    pub open spec fn spec_after_purchase(self, units: int, cost: int) -> Market
        recommends
            fits(self.units_sold + units),
            fits(self.total_spent + cost),
    {
        Market {
            units_sold: (self.units_sold + units) as u128,
            total_spent: (self.total_spent + cost) as u128,
            ..self
        }
    }

    /// The outcome of a purchase of `units` after `elapsed` seconds: its cost
    /// and the market that it leaves.
    pub open spec fn spec_buy(self, units: int, elapsed: int) -> Result<(int, Market), StdError> {
        match self.spec_cost(units, elapsed) {
            Err(e) => Err(e),
            Ok(cost) => if !fits(self.total_spent + cost) || !fits(self.units_sold + units) {
                Err(StdError::Overflow)
            } else {
                Ok((cost, self.spec_after_purchase(units, cost)))
            },
        }
    }

    pub fn new(
        start_price: Decimal,
        min_price: Decimal,
        units_sold: u128,
        target_duration: u128,
        total_spent: u128,
        total_units: u128,
    ) -> (market: Market)
        ensures
            market == (Market {
                start_price,
                min_price,
                units_sold,
                target_duration,
                total_spent,
                total_units,
            }),
    {
        Market { start_price, min_price, units_sold, total_spent, target_duration, total_units }
    }

    /// The unit price of a purchase of `units` after `time_elapsed` seconds.
    pub fn calculate_price(&self, units: u128, time_elapsed: u128) -> (r: Result<Decimal, ContractError>)
        ensures
            match self.spec_price(units as int, time_elapsed as int) {
                Ok(price) => r is Ok && r->Ok_0@ == price,
                Err(e) => r == Err::<Decimal, ContractError>(ContractError::Std(e)),
            },
            r is Ok ==> r->Ok_0@ >= self.min_price@,
    {
        let scaled = match time_elapsed.checked_mul(self.total_units) {
            Some(scaled) => scaled,
            None => { return Err(ContractError::Std(StdError::Overflow)); },
        };
        if self.target_duration == 0 {
            return Err(ContractError::Std(StdError::DivideByZero));
        }
        let expected_units_sold = scaled / self.target_duration;
        let ratio = if expected_units_sold > 0 {
            let next_units_sold = match self.units_sold.checked_add(units) {
                Some(next) => next,
                None => { return Err(ContractError::Std(StdError::Overflow)); },
            };
            let mkt_vol_err = match Decimal::checked_from_ratio(next_units_sold, expected_units_sold) {
                Ok(velocity) => velocity,
                Err(e) => { return Err(ContractError::Std(e)); },
            };
            match mkt_vol_err.checked_square() {
                Ok(ratio) => ratio,
                Err(e) => { return Err(ContractError::Std(e)); },
            }
        } else {
            Decimal::one()
        };
        match self.start_price.checked_mul(ratio) {
            Ok(price) => Ok(price.max(self.min_price)),
            Err(e) => Err(ContractError::Std(e)),
        }
    }

    /// The cost of a purchase of `units` after `time_elapsed` seconds.
    pub fn calculate_cost(&self, units: u128, time_elapsed: u128) -> (r: Result<Cost, ContractError>)
        ensures
            match self.spec_cost(units as int, time_elapsed as int) {
                Ok(cost) => r == Ok::<Cost, ContractError>(Cost(cost as u128)) && fits(cost),
                Err(e) => r == Err::<Cost, ContractError>(ContractError::Std(e)),
            },
    {
        let price = match self.calculate_price(units, time_elapsed) {
            Ok(price) => price,
            Err(e) => { return Err(e); },
        };
        let units_dec = match Decimal::checked_from_ratio(units, 1) {
            Ok(units_dec) => units_dec,
            Err(e) => { return Err(ContractError::Std(e)); },
        };
        proof {
            lemma_scaled_product(price@, units as int);
            lemma_ceil_units_bounds(price@ * units);
        }
        match price.checked_mul(units_dec) {
            Ok(amount) => Ok(Cost(amount.to_uint_ceil())),
            Err(e) => Err(ContractError::Std(e)),
        }
    }

    /// Whether `amount` pays for `units` after `time_elapsed` seconds.
    pub fn affords(&self, units: u128, amount: u128, time_elapsed: u128) -> (affordable: bool)
        ensures
            affordable == self.spec_affordable(units as int, amount as int, time_elapsed as int),
    {
        match self.calculate_cost(units, time_elapsed) {
            Ok(Cost(cost)) => cost <= amount,
            Err(_) => false,
        }
    }

    /// The units that `amount` buys after `time_elapsed` seconds.
    ///
    /// The units not yet sold are searched by halving. A count that costs
    /// exactly `amount` is returned as soon as it is tried. Else the search
    /// ends at the greatest count whose cost is not above `amount`; all that
    /// is left is tried last, if no step has ruled it out. A count whose cost
    /// is out of range is too dear. The halving ends after at most 128 steps.
    pub fn calculate_received(&self, amount: u128, time_elapsed: u128) -> (r: Result<u128, ContractError>)
        ensures
            match self.spec_received(amount as int, time_elapsed as int) {
                Ok(units) => r == Ok::<u128, ContractError>(units as u128) && fits(units)
                    && self.spec_is_received(
                    units,
                    self.total_units - self.units_sold,
                    amount as int,
                    time_elapsed as int,
                ),
                Err(e) => r == Err::<u128, ContractError>(ContractError::Std(e)),
            },
    {
        if self.units_sold > self.total_units {
            return Err(ContractError::Std(StdError::Overflow));
        }
        let available_units = self.total_units - self.units_sold;
        match self.calculate_cost(0, time_elapsed) {
            Ok(_) => {},
            Err(e) => { return Err(e); },
        }
        let mut last_units_below: u128 = 0;
        let mut last_units_above: u128 = available_units;
        let ghost mut halvings: nat = 0;
        proof {
            lemma2_to64();
            lemma_pow2_adds(64, 64);
            assert(0x10000000000000000 * 0x10000000000000000 > u128::MAX) by (nonlinear_arith);
            self.lemma_cost_of_nothing(time_elapsed as int);
            self.lemma_search_result(
                0,
                available_units as int,
                available_units as int,
                amount as int,
                time_elapsed as int,
            );
        }
        loop
            invariant
                halvings <= 128,
                last_units_above - last_units_below <= pow2((128 - halvings) as nat),
                available_units == self.total_units - self.units_sold,
                self.spec_cost(0, time_elapsed as int) is Ok,
                last_units_below <= last_units_above <= available_units,
                self.spec_search(
                    last_units_below as int,
                    last_units_above as int,
                    available_units as int,
                    amount as int,
                    time_elapsed as int,
                ) == self.spec_search(
                    0,
                    available_units as int,
                    available_units as int,
                    amount as int,
                    time_elapsed as int,
                ),
                self.spec_is_received(
                    self.spec_search(
                        0,
                        available_units as int,
                        available_units as int,
                        amount as int,
                        time_elapsed as int,
                    ),
                    available_units as int,
                    amount as int,
                    time_elapsed as int,
                ),
            decreases last_units_above - last_units_below,
        {
            let range = last_units_above - last_units_below;
            if range <= 1 {
                if last_units_above == available_units && self.affords(
                    available_units,
                    amount,
                    time_elapsed,
                ) {
                    return Ok(available_units);
                }
                return Ok(last_units_below);
            }
            let guess = last_units_below + range / 2;
            proof {
                lemma2_to64();
                lemma_pow2_unfold((128 - halvings) as nat);
                halvings = halvings + 1;
            }
            match self.calculate_cost(guess, time_elapsed) {
                Ok(Cost(amount_for_units)) => {
                    if amount_for_units < amount {
                        last_units_below = guess;
                    } else if amount_for_units > amount {
                        last_units_above = guess;
                    } else {
                        return Ok(guess);
                    }
                },
                Err(_) => {
                    last_units_above = guess;
                },
            }
        }
    }

    /// Buys `units` after `time_elapsed` seconds: the units and their cost are
    /// added to what was sold and spent. A purchase that fails changes nothing.
    pub fn buy_units(&mut self, units: u128, time_elapsed: u128) -> (r: Result<Cost, ContractError>)
        ensures
            match old(self).spec_buy(units as int, time_elapsed as int) {
                Ok((cost, market)) => r == Ok::<Cost, ContractError>(Cost(cost as u128)) && fits(cost)
                    && *final(self) == market,
                Err(e) => r == Err::<Cost, ContractError>(ContractError::Std(e)) && *final(self) == *old(self),
            },
    {
        let cost = match self.calculate_cost(units, time_elapsed) {
            Ok(Cost(cost)) => cost,
            Err(e) => { return Err(e); },
        };
        let total_spent = match self.total_spent.checked_add(cost) {
            Some(total) => total,
            None => { return Err(ContractError::Std(StdError::Overflow)); },
        };
        let units_sold = match self.units_sold.checked_add(units) {
            Some(sold) => sold,
            None => { return Err(ContractError::Std(StdError::Overflow)); },
        };
        self.total_spent = total_spent;
        self.units_sold = units_sold;
        Ok(Cost(cost))
    }
}

/// A product with a whole number scaled to atomic units, divided by the
/// scale again, is the plain product.
pub proof fn lemma_scaled_product(price: int, units: int)
    requires
        0 <= price,
        0 <= units,
    ensures
        spec_from_ratio(units, 1) == if fits(units * fractional()) {
            Ok::<int, StdError>(units * fractional())
        } else {
            Err::<int, StdError>(StdError::Overflow)
        },
        price * (units * fractional()) / fractional() == price * units,
        0 <= price * units,
{
    assert(0 <= units * fractional()) by (nonlinear_arith)
        requires
            0 <= units,
            fractional() > 0,
    ;
    assert(price * (units * fractional()) == (price * units) * fractional()) by (nonlinear_arith);
    assert((price * units) * fractional() / fractional() == price * units) by (nonlinear_arith)
        requires
            fractional() > 0,
    ;
    assert(0 <= price * units) by (nonlinear_arith)
        requires
            0 <= price,
            0 <= units,
    ;
}

/// Rounding up gives the least whole number whose atomic units are not below the given ones.
pub proof fn lemma_ceil_units_bounds(atomics: int)
    requires
        0 <= atomics,
    ensures
        0 <= ceil_units(atomics) <= atomics,
        ceil_units(atomics) * fractional() >= atomics,
        (ceil_units(atomics) - 1) * fractional() < atomics || atomics == 0,
{
    if atomics > 0 {
        let q = (atomics - 1) / fractional();
        assert(q * fractional() <= atomics - 1 < (q + 1) * fractional() && 0 <= q <= atomics - 1)
            by (nonlinear_arith)
            requires
                q == (atomics - 1) / fractional(),
                fractional() == 1_000_000_000_000_000_000int,
                atomics - 1 >= 0,
        ;
    }
}

} // verus!
