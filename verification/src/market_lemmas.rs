//! What holds of the pricing engine for every market, purchase and time.

use vstd::prelude::*;
use crate::decimal::{ceil_units, fits, fractional, product_atomics, ratio_atomics, spec_from_ratio, spec_mul};
use crate::error::StdError;
use crate::market::{lemma_ceil_units_bounds, Market};

verus! {

/// Truncating division by a positive number keeps the order.
pub proof fn lemma_quotient_ordered(a: int, b: int, d: int)
    requires
        0 <= a <= b,
        0 < d,
    ensures
        0 <= a / d <= b / d,
{
    assert(0 <= a / d <= b / d) by (nonlinear_arith)
        requires
            0 <= a <= b,
            0 < d,
    ;
}

/// A product of non-negative numbers grows with each factor.
pub proof fn lemma_product_ordered(a: int, b: int, c: int, d: int)
    requires
        0 <= a <= b,
        0 <= c <= d,
    ensures
        0 <= a * c <= b * d,
{
    assert(0 <= a * c <= b * d) by (nonlinear_arith)
        requires
            0 <= a <= b,
            0 <= c <= d,
    ;
}

/// A product of decimals grows with each factor, and where the greater
/// product fits the range so does the lesser.
pub proof fn lemma_mul_ordered(a: int, b: int, c: int, d: int)
    requires
        0 <= a <= b,
        0 <= c <= d,
        spec_mul(b, d) is Ok,
    ensures
        spec_mul(a, c) is Ok,
        0 <= spec_mul(a, c)->Ok_0 <= spec_mul(b, d)->Ok_0,
{
    lemma_product_ordered(a, b, c, d);
    lemma_quotient_ordered(a * c, b * d, fractional());
}

/// Rounding up keeps the order.
pub proof fn lemma_ceil_units_ordered(a: int, b: int)
    requires
        0 <= a <= b,
    ensures
        0 <= ceil_units(a) <= ceil_units(b),
{
    lemma_ceil_units_bounds(a);
    if a > 0 {
        lemma_quotient_ordered(a - 1, b - 1, fractional());
    }
}

/// One whole unit more rounds up to one more.
pub proof fn lemma_ceil_units_step(a: int, b: int)
    requires
        0 <= a,
        a + fractional() <= b,
    ensures
        ceil_units(a) < ceil_units(b),
{
    if a == 0 {
        lemma_ceil_units_bounds(b);
        assert(ceil_units(b) > 0) by (nonlinear_arith)
            requires
                ceil_units(b) * fractional() >= b,
                b > 0,
                fractional() > 0,
        ;
    } else {
        let f = fractional();
        assert((a - 1 + f) / f == (a - 1) / f + 1) by (nonlinear_arith)
            requires
                a - 1 >= 0,
                f > 0,
        ;
        lemma_quotient_ordered(a - 1 + f, b - 1, f);
    }
}

impl Market {
    /// The price is never below the minimum price.
    pub proof fn lemma_price_at_least_floor(self, units: int, elapsed: int)
        requires
            self.spec_price(units, elapsed) is Ok,
        ensures
            self.spec_price(units, elapsed)->Ok_0 >= self.min_price@,
    {
    }

    /// A purchase that brings the units sold exactly to what the schedule
    /// expects by then is priced at the start price, or at the minimum price
    /// where that is greater.
    pub proof fn lemma_price_on_schedule(self, units: int, elapsed: int)
        requires
            0 <= units,
            self.spec_expected_units_sold(elapsed) is Ok,
            self.spec_expected_units_sold(elapsed)->Ok_0 > 0,
            self.units_sold + units == self.spec_expected_units_sold(elapsed)->Ok_0,
        ensures
            self.spec_ratio(units, elapsed) == Ok::<int, StdError>(fractional()),
            self.spec_price(units, elapsed) == Ok::<int, StdError>(
                if self.start_price@ >= self.min_price@ {
                    self.start_price@
                } else {
                    self.min_price@
                },
            ),
    {
        let expected = self.spec_expected_units_sold(elapsed)->Ok_0;
        let f = fractional();
        assert(expected <= u128::MAX) by {
            let d = self.target_duration as int;
            let n = elapsed * self.total_units;
            assert(n / d <= n) by (nonlinear_arith)
                requires
                    0 <= n,
                    0 < d,
            ;
        }
        assert(expected * f / expected == f) by (nonlinear_arith)
            requires
                expected > 0,
        ;
        assert(f * f / f == f) by (nonlinear_arith)
            requires
                f > 0,
        ;
        let s = self.start_price@;
        crate::decimal::Decimal::view_fits(self.start_price);
        assert(s * f / f == s) by (nonlinear_arith)
            requires
                f > 0,
        ;
    }

    /// While the schedule expects nothing to be sold yet, the price is the
    /// start price, or the minimum price where that is greater.
    pub proof fn lemma_price_before_schedule(self, units: int, elapsed: int)
        requires
            self.spec_expected_units_sold(elapsed) == Ok::<int, StdError>(0),
        ensures
            self.spec_price(units, elapsed) == Ok::<int, StdError>(
                if self.start_price@ >= self.min_price@ {
                    self.start_price@
                } else {
                    self.min_price@
                },
            ),
    {
        let f = fractional();
        let s = self.start_price@;
        crate::decimal::Decimal::view_fits(self.start_price);
        assert(s * f / f == s) by (nonlinear_arith)
            requires
                f > 0,
        ;
    }

    /// The cost is the least whole number that is not below the unit price times the units.
    pub proof fn lemma_cost_is_ceiling(self, units: int, elapsed: int)
        requires
            0 <= units,
            self.spec_cost(units, elapsed) is Ok,
        ensures
            self.spec_price(units, elapsed) is Ok,
            ({
                let price = self.spec_price(units, elapsed)->Ok_0;
                let cost = self.spec_cost(units, elapsed)->Ok_0;
                &&& 0 <= cost
                &&& cost * fractional() >= price * units
                &&& (cost - 1) * fractional() < price * units || price * units == 0
            }),
    {
        let price = self.spec_price(units, elapsed)->Ok_0;
        self.lemma_price_not_negative(units, elapsed);
        lemma_product_ordered(0, price, 0, units);
        lemma_ceil_units_bounds(price * units);
    }

    /// A price is not negative.
    pub proof fn lemma_price_not_negative(self, units: int, elapsed: int)
        requires
            self.spec_price(units, elapsed) is Ok,
        ensures
            0 <= self.spec_price(units, elapsed)->Ok_0,
    {
        crate::decimal::Decimal::view_fits(self.min_price);
    }

    /// The price does not fall when more units are bought at the same time,
    /// and where the price of the greater purchase is in range so is that of
    /// the lesser.
    pub proof fn lemma_price_ordered(self, fewer: int, more: int, elapsed: int)
        requires
            0 <= fewer <= more,
            0 <= elapsed,
            self.spec_price(more, elapsed) is Ok,
        ensures
            self.spec_price(fewer, elapsed) is Ok,
            0 <= self.spec_price(fewer, elapsed)->Ok_0 <= self.spec_price(more, elapsed)->Ok_0,
    {
        let f = fractional();
        let expected = self.spec_expected_units_sold(elapsed)->Ok_0;
        let start = self.start_price@;
        crate::decimal::Decimal::view_fits(self.start_price);
        crate::decimal::Decimal::view_fits(self.min_price);
        if expected > 0 {
            let low = self.units_sold + fewer;
            let high = self.units_sold + more;
            lemma_product_ordered(low, high, f, f);
            lemma_quotient_ordered(low * f, high * f, expected);
            let v_low = ratio_atomics(low, expected);
            let v_high = ratio_atomics(high, expected);
            lemma_mul_ordered(v_low, v_high, v_low, v_high);
            let r_low = product_atomics(v_low, v_low);
            let r_high = product_atomics(v_high, v_high);
            lemma_mul_ordered(start, start, r_low, r_high);
        }
    }

    /// The cost does not fall when more units are bought at the same time,
    /// and where the cost of the greater purchase is in range so is that of
    /// the lesser.
    pub proof fn lemma_cost_ordered(self, fewer: int, more: int, elapsed: int)
        requires
            0 <= fewer <= more,
            0 <= elapsed,
            self.spec_cost(more, elapsed) is Ok,
        ensures
            self.spec_cost(fewer, elapsed) is Ok,
            0 <= self.spec_cost(fewer, elapsed)->Ok_0 <= self.spec_cost(more, elapsed)->Ok_0,
    {
        let f = fractional();
        self.lemma_price_ordered(fewer, more, elapsed);
        let p_low = self.spec_price(fewer, elapsed)->Ok_0;
        let p_high = self.spec_price(more, elapsed)->Ok_0;
        lemma_product_ordered(fewer, more, f, f);
        lemma_product_ordered(p_low, p_high, fewer, more);
        lemma_ceil_units_ordered(p_low * fewer, p_high * more);
    }

    /// Where the minimum price is at least 1.0, more units cost more.
    pub proof fn lemma_cost_increasing(self, fewer: int, more: int, elapsed: int)
        requires
            0 <= fewer < more,
            0 <= elapsed,
            self.min_price@ >= fractional(),
            self.spec_cost(more, elapsed) is Ok,
        ensures
            self.spec_cost(fewer, elapsed) is Ok,
            self.spec_cost(fewer, elapsed)->Ok_0 < self.spec_cost(more, elapsed)->Ok_0,
    {
        let f = fractional();
        self.lemma_cost_ordered(fewer, more, elapsed);
        self.lemma_price_ordered(fewer, more, elapsed);
        let p_low = self.spec_price(fewer, elapsed)->Ok_0;
        let p_high = self.spec_price(more, elapsed)->Ok_0;
        lemma_product_ordered(p_low, p_high, fewer + 1, more);
        assert(p_low * (fewer + 1) == p_low * fewer + p_low) by (nonlinear_arith);
        lemma_product_ordered(0, p_low, 0, fewer);
        lemma_ceil_units_step(p_low * fewer, p_high * more);
    }

    /// Nothing costs nothing.
    pub proof fn lemma_cost_of_nothing(self, elapsed: int)
        requires
            self.spec_cost(0, elapsed) is Ok,
        ensures
            self.spec_cost(0, elapsed) == Ok::<int, StdError>(0),
    {
    }

    /// What pays for a count pays for every lesser count.
    pub proof fn lemma_affordable_below(self, fewer: int, more: int, amount: int, elapsed: int)
        requires
            0 <= fewer <= more,
            0 <= elapsed,
            self.spec_affordable(more, amount, elapsed),
        ensures
            self.spec_affordable(fewer, amount, elapsed),
    {
        self.lemma_cost_ordered(fewer, more, elapsed);
    }

    /// What the search by halving reaches is a count that the payment pays
    /// for, and it costs exactly the payment or is the greatest that the
    /// payment pays for: where the payment pays for the lower end, and for no
    /// count from an upper end on that a step has ruled out.
    pub proof fn lemma_search_result(self, below: int, above: int, limit: int, amount: int, elapsed: int)
        requires
            0 <= below <= above <= limit,
            0 <= elapsed,
            self.spec_affordable(below, amount, elapsed),
            above < limit ==> forall|more: int|
                above <= more <= limit ==> !#[trigger] self.spec_affordable(more, amount, elapsed),
        ensures
            below <= self.spec_search(below, above, limit, amount, elapsed),
            self.spec_is_received(
                self.spec_search(below, above, limit, amount, elapsed),
                limit,
                amount,
                elapsed,
            ),
        decreases above - below,
    {
        if above - below > 1 {
            let guess = below + (above - below) / 2;
            if self.spec_affordable(guess, amount, elapsed) {
                if self.spec_cost(guess, elapsed)->Ok_0 < amount {
                    self.lemma_search_result(guess, above, limit, amount, elapsed);
                }
            } else {
                assert forall|more: int| guess <= more <= limit implies !#[trigger] self.spec_affordable(
                    more,
                    amount,
                    elapsed,
                ) by {
                    if self.spec_affordable(more, amount, elapsed) {
                        self.lemma_affordable_below(guess, more, amount, elapsed);
                    }
                }
                self.lemma_search_result(below, guess, limit, amount, elapsed);
            }
        }
    }

    /// A payment buys a count of the units not yet sold that it pays for.
    /// That count costs exactly the payment, or every greater count up to
    /// all that is left costs more, or more than the range holds.
    pub proof fn lemma_received_result(self, amount: int, elapsed: int)
        requires
            0 <= amount,
            0 <= elapsed,
            self.spec_received(amount, elapsed) is Ok,
        ensures
            ({
                let units = self.spec_received(amount, elapsed)->Ok_0;
                let available = self.total_units - self.units_sold;
                &&& self.spec_is_received(units, available, amount, elapsed)
                &&& 0 <= units <= available
                &&& self.spec_cost(units, elapsed) is Ok
                &&& self.spec_cost(units, elapsed)->Ok_0 <= amount
                &&& self.spec_cost(units, elapsed)->Ok_0 < amount ==> forall|more: int|
                    units < more <= available ==> (#[trigger] self.spec_cost(more, elapsed)) is Err
                        || self.spec_cost(more, elapsed)->Ok_0 > amount
            }),
    {
        let available = self.total_units - self.units_sold;
        self.lemma_cost_of_nothing(elapsed);
        self.lemma_search_result(0, available, available, amount, elapsed);
        let units = self.spec_received(amount, elapsed)->Ok_0;
        if self.spec_cost(units, elapsed)->Ok_0 < amount {
            assert forall|more: int| units < more <= available implies (#[trigger] self.spec_cost(
                more,
                elapsed,
            )) is Err || self.spec_cost(more, elapsed)->Ok_0 > amount by {
                assert(!self.spec_affordable(more, amount, elapsed));
            }
        }
    }

    /// Where some count of the units not yet sold costs exactly the payment,
    /// the count that the payment buys costs exactly the payment.
    pub proof fn lemma_received_is_exact(self, exact: int, amount: int, elapsed: int)
        requires
            0 <= elapsed,
            0 <= exact <= self.total_units - self.units_sold,
            self.spec_cost(exact, elapsed) == Ok::<int, StdError>(amount),
        ensures
            self.spec_received(amount, elapsed) is Ok,
            0 <= self.spec_received(amount, elapsed)->Ok_0 <= self.total_units - self.units_sold,
            self.spec_cost(self.spec_received(amount, elapsed)->Ok_0, elapsed) == Ok::<int, StdError>(
                amount,
            ),
    {
        let available = self.total_units - self.units_sold;
        self.lemma_cost_ordered(0, exact, elapsed);
        self.lemma_cost_of_nothing(elapsed);
        self.lemma_search_result(0, available, available, amount, elapsed);
        let units = self.spec_received(amount, elapsed)->Ok_0;
        assert(self.spec_affordable(exact, amount, elapsed));
        if exact <= units {
            self.lemma_cost_ordered(exact, units, elapsed);
        }
    }

    /// The units that the cost of a purchase buys cost what that purchase
    /// costs, for every purchase of units not yet sold.
    pub proof fn lemma_received_costs_the_same(self, units: int, elapsed: int)
        requires
            0 <= elapsed,
            0 <= units <= self.total_units - self.units_sold,
            self.spec_cost(units, elapsed) is Ok,
        ensures
            self.spec_received(self.spec_cost(units, elapsed)->Ok_0, elapsed) is Ok,
            self.spec_cost(
                self.spec_received(self.spec_cost(units, elapsed)->Ok_0, elapsed)->Ok_0,
                elapsed,
            ) == self.spec_cost(units, elapsed),
    {
        self.lemma_received_is_exact(units, self.spec_cost(units, elapsed)->Ok_0, elapsed);
    }

    /// The units that the cost of a purchase buys are the units of that
    /// purchase: for every purchase of units not yet sold whose cost no
    /// other such purchase shares.
    pub proof fn lemma_received_inverts_cost(self, units: int, elapsed: int)
        requires
            0 <= elapsed,
            0 <= units <= self.total_units - self.units_sold,
            self.spec_cost(units, elapsed) is Ok,
            forall|other: int|
                0 <= other <= self.total_units - self.units_sold && other != units ==> (
                #[trigger] self.spec_cost(other, elapsed)) != self.spec_cost(units, elapsed),
        ensures
            self.spec_received(self.spec_cost(units, elapsed)->Ok_0, elapsed) == Ok::<int, StdError>(
                units,
            ),
    {
        self.lemma_received_is_exact(units, self.spec_cost(units, elapsed)->Ok_0, elapsed);
    }

    /// Where the minimum price is at least 1.0, the units that the cost of a
    /// purchase buys are the units of that purchase, for every purchase of
    /// units not yet sold.
    pub proof fn lemma_received_inverts_cost_from_unit_price(self, units: int, elapsed: int)
        requires
            0 <= elapsed,
            0 <= units <= self.total_units - self.units_sold,
            self.min_price@ >= fractional(),
            self.spec_cost(units, elapsed) is Ok,
        ensures
            self.spec_received(self.spec_cost(units, elapsed)->Ok_0, elapsed) == Ok::<int, StdError>(
                units,
            ),
    {
        let available = self.total_units - self.units_sold;
        assert forall|other: int| 0 <= other <= available && other != units implies (
        #[trigger] self.spec_cost(other, elapsed)) != self.spec_cost(units, elapsed) by {
            if other < units {
                self.lemma_cost_increasing(other, units, elapsed);
            } else if self.spec_cost(other, elapsed) is Ok {
                self.lemma_cost_increasing(units, other, elapsed);
            }
        }
        self.lemma_received_inverts_cost(units, elapsed);
    }
}

} // verus!
