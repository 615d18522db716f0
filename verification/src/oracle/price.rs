//! When a published price is accepted.
//!
//! A price comes with the time that has passed since it was published, its age, and with
//! a confidence interval, the uncertainty about it in units of the price. Reads for a
//! liquidation say so with `Some(true)`; every other read is one for an operation.
use crate::oracle::constants::{
    CONFIDENCE_SCALE_FACTOR_LIQUIDATE, CONFIDENCE_SCALE_FACTOR_OPERATE, MAX_AGE_LIQUIDATE,
    MAX_AGE_OPERATE,
};
use vstd::prelude::*;

verus! {

/// The greatest age at which a price is accepted, in seconds.
pub open spec fn age_limit(is_liquidate: Option<bool>) -> u64 {
    if is_liquidate == Some(true) {
        MAX_AGE_LIQUIDATE
    } else {
        MAX_AGE_OPERATE
    }
}

/// How many times the confidence interval must fit into an accepted price.
pub open spec fn confidence_factor(is_liquidate: Option<bool>) -> u64 {
    if is_liquidate == Some(true) {
        CONFIDENCE_SCALE_FACTOR_LIQUIDATE
    } else {
        CONFIDENCE_SCALE_FACTOR_OPERATE
    }
}

/// The price is too old.
pub open spec fn stale(age: int, is_liquidate: Option<bool>) -> bool {
    age > age_limit(is_liquidate)
}

/// The price is too uncertain.
pub open spec fn uncertain(price: int, conf: int, is_liquidate: Option<bool>) -> bool {
    conf * confidence_factor(is_liquidate) > price
}

/// The price is neither too old nor too uncertain.
pub open spec fn acceptable(age: int, price: int, conf: int, is_liquidate: Option<bool>) -> bool {
    !stale(age, is_liquidate) && !uncertain(price, conf, is_liquidate)
}

/// The greatest age at which a price is accepted, in seconds.
pub fn maximum_age(is_liquidate: Option<bool>) -> (limit: u64)
    ensures
        limit == age_limit(is_liquidate),
        is_liquidate == Some(true) ==> limit == MAX_AGE_LIQUIDATE,
        is_liquidate != Some(true) ==> limit == MAX_AGE_OPERATE,
{
    match is_liquidate {
        Some(true) => MAX_AGE_LIQUIDATE,
        _ => MAX_AGE_OPERATE,
    }
}

/// How many times the confidence interval must fit into an accepted price.
pub fn confidence_scale_factor(is_liquidate: Option<bool>) -> (factor: u64)
    ensures
        factor == confidence_factor(is_liquidate),
        is_liquidate == Some(true) ==> factor == CONFIDENCE_SCALE_FACTOR_LIQUIDATE,
        is_liquidate != Some(true) ==> factor == CONFIDENCE_SCALE_FACTOR_OPERATE,
{
    match is_liquidate {
        Some(true) => CONFIDENCE_SCALE_FACTOR_LIQUIDATE,
        _ => CONFIDENCE_SCALE_FACTOR_OPERATE,
    }
}

/// Whether a price published `age` seconds ago is too old.
pub fn is_stale(age: u64, is_liquidate: Option<bool>) -> (res: bool)
    ensures
        res == stale(age as int, is_liquidate),
        is_liquidate == Some(true) ==> res == (age > MAX_AGE_LIQUIDATE),
        is_liquidate != Some(true) ==> res == (age > MAX_AGE_OPERATE),
{
    age > maximum_age(is_liquidate)
}

/// Whether a price with the confidence interval `conf` is too uncertain.
pub fn is_uncertain(price: u64, conf: u64, is_liquidate: Option<bool>) -> (res: bool)
    ensures
        res == uncertain(price as int, conf as int, is_liquidate),
        is_liquidate == Some(true) ==> res == (conf * CONFIDENCE_SCALE_FACTOR_LIQUIDATE > price),
        is_liquidate != Some(true) ==> res == (conf * CONFIDENCE_SCALE_FACTOR_OPERATE > price),
{
    let factor: u64 = confidence_scale_factor(is_liquidate);
    assert(conf * factor <= u64::MAX * 50) by (nonlinear_arith)
        requires
            conf <= u64::MAX,
            factor <= 50,
    ;
    conf as u128 * factor as u128 > price as u128
}

/// Whether a price is accepted.
pub fn is_acceptable(age: u64, price: u64, conf: u64, is_liquidate: Option<bool>) -> (res: bool)
    ensures
        res == acceptable(age as int, price as int, conf as int, is_liquidate),
        is_liquidate == Some(true) ==> res == (age <= MAX_AGE_LIQUIDATE && conf
            * CONFIDENCE_SCALE_FACTOR_LIQUIDATE <= price),
        is_liquidate != Some(true) ==> res == (age <= MAX_AGE_OPERATE && conf
            * CONFIDENCE_SCALE_FACTOR_OPERATE <= price),
{
    !is_stale(age, is_liquidate) && !is_uncertain(price, conf, is_liquidate)
}

/// For a liquidation a price is too old exactly after two hours, for every other read
/// exactly after ten minutes.
pub proof fn law_age_is_held_to_the_limit_of_the_read(age: int, is_liquidate: Option<bool>)
    ensures
        is_liquidate == Some(true) ==> (stale(age, is_liquidate) <==> age > MAX_AGE_LIQUIDATE),
        is_liquidate != Some(true) ==> (stale(age, is_liquidate) <==> age > MAX_AGE_OPERATE),
        MAX_AGE_LIQUIDATE == 2 * 60 * 60,
        MAX_AGE_OPERATE == 10 * 60,
{
}

/// What is too old stays too old: no read accepts later what it refused for its age.
pub proof fn law_stale_prices_stay_stale(age: int, older: int, is_liquidate: Option<bool>)
    requires
        age <= older,
        stale(age, is_liquidate),
    ensures
        stale(older, is_liquidate),
{
}

/// The limits of a read are those of its use.
pub proof fn law_limits_go_by_the_use(is_liquidate: Option<bool>)
    ensures
        is_liquidate == Some(true) ==> age_limit(is_liquidate) == 7200 && confidence_factor(
            is_liquidate,
        ) == 25,
        is_liquidate != Some(true) ==> age_limit(is_liquidate) == 600 && confidence_factor(
            is_liquidate,
        ) == 50,
{
}

/// A liquidation refuses exactly the prices whose confidence interval exceeds their
/// twenty-fifth part, every other read those whose interval exceeds their fiftieth part.
pub proof fn law_confidence_is_held_to_the_limit_of_the_read(
    price: int,
    conf: int,
    is_liquidate: Option<bool>,
)
    ensures
        is_liquidate == Some(true) ==> (uncertain(price, conf, is_liquidate) <==> conf
            * CONFIDENCE_SCALE_FACTOR_LIQUIDATE > price),
        is_liquidate != Some(true) ==> (uncertain(price, conf, is_liquidate) <==> conf
            * CONFIDENCE_SCALE_FACTOR_OPERATE > price),
        CONFIDENCE_SCALE_FACTOR_LIQUIDATE == 25,
        CONFIDENCE_SCALE_FACTOR_OPERATE == 50,
{
}

/// What is too uncertain stays so with a wider interval or at a lower price.
pub proof fn law_uncertain_prices_stay_uncertain(
    price: int,
    conf: int,
    lower: int,
    wider: int,
    is_liquidate: Option<bool>,
)
    requires
        lower <= price,
        conf <= wider,
        uncertain(price, conf, is_liquidate),
    ensures
        uncertain(lower, wider, is_liquidate),
{
    lemma_uncertain_by_use(price, conf);
    lemma_uncertain_by_use(lower, wider);
}

/// Only the ratio of interval and price counts: quoted in another unit, a price is judged
/// as before.
pub proof fn law_uncertainty_does_not_depend_on_the_unit(
    price: int,
    conf: int,
    unit: int,
    is_liquidate: Option<bool>,
)
    requires
        unit > 0,
    ensures
        uncertain(unit * price, unit * conf, is_liquidate) == uncertain(price, conf, is_liquidate),
{
    lemma_uncertain_by_use(price, conf);
    lemma_uncertain_by_use(unit * price, unit * conf);
    assert((25 * (unit * conf) > unit * price) == (25 * conf > price)) by (nonlinear_arith)
        requires
            unit > 0,
    ;
    assert((50 * (unit * conf) > unit * price) == (50 * conf > price)) by (nonlinear_arith)
        requires
            unit > 0,
    ;
}

/// A read for a liquidation accepts no price older than its limit and none less sure than
/// its limit, and accepts every other price.
pub proof fn law_liquidations_accept_within_both_limits(age: int, price: int, conf: int)
    ensures
        age > MAX_AGE_LIQUIDATE ==> !acceptable(age, price, conf, Some(true)),
        conf * CONFIDENCE_SCALE_FACTOR_LIQUIDATE > price ==> !acceptable(
            age,
            price,
            conf,
            Some(true),
        ),
        age <= MAX_AGE_LIQUIDATE && conf * CONFIDENCE_SCALE_FACTOR_LIQUIDATE <= price
            ==> acceptable(age, price, conf, Some(true)),
{
}

/// A read that is not for a liquidation accepts no price older than the limit of an
/// operation and none less sure than that limit, and accepts every other price.
pub proof fn law_operations_accept_within_both_limits(
    age: int,
    price: int,
    conf: int,
    is_liquidate: Option<bool>,
)
    requires
        is_liquidate != Some(true),
    ensures
        age > MAX_AGE_OPERATE ==> !acceptable(age, price, conf, is_liquidate),
        conf * CONFIDENCE_SCALE_FACTOR_OPERATE > price ==> !acceptable(
            age,
            price,
            conf,
            is_liquidate,
        ),
        age <= MAX_AGE_OPERATE && conf * CONFIDENCE_SCALE_FACTOR_OPERATE <= price ==> acceptable(
            age,
            price,
            conf,
            is_liquidate,
        ),
{
}

/// Liquidations accept every price that operations accept.
pub proof fn law_liquidations_accept_what_operations_accept(age: int, price: int, conf: int)
    requires
        conf >= 0,
        acceptable(age, price, conf, Some(false)) || acceptable(age, price, conf, None),
    ensures
        acceptable(age, price, conf, Some(true)),
{
    lemma_uncertain_by_use(price, conf);
}

/// A read that does not say what it is for is held to the limits of an operation.
pub proof fn law_reads_are_operations_by_default(age: int, price: int, conf: int)
    ensures
        acceptable(age, price, conf, None) == acceptable(age, price, conf, Some(false)),
{
}

/// A price stays acceptable where it is read sooner or known more exactly, and stays
/// refused where it is read later or known less exactly.
pub proof fn law_fresher_and_surer_prices_stay_acceptable(
    age: int,
    conf: int,
    older: int,
    wider: int,
    price: int,
    is_liquidate: Option<bool>,
)
    requires
        age <= older,
        conf <= wider,
        acceptable(older, price, wider, is_liquidate),
    ensures
        acceptable(age, price, conf, is_liquidate),
{
    lemma_uncertain_by_use(price, conf);
    lemma_uncertain_by_use(price, wider);
}

/// The uncertainty that liquidations tolerate is twice that of operations: an operation
/// judges a price as a liquidation judges it at twice the confidence interval.
pub proof fn law_liquidations_tolerate_twice_the_uncertainty(price: int, conf: int)
    ensures
        uncertain(price, conf, Some(false)) == uncertain(price, 2 * conf, Some(true)),
{
    lemma_uncertain_by_use(price, conf);
    lemma_uncertain_by_use(price, 2 * conf);
}

proof fn lemma_uncertain_by_use(price: int, conf: int)
    ensures
        forall|is_liquidate: Option<bool>| #[trigger]
            uncertain(price, conf, is_liquidate) == if is_liquidate == Some(true) {
                25 * conf > price
            } else {
                50 * conf > price
            },
{
    assert forall|is_liquidate: Option<bool>| #[trigger]
        uncertain(price, conf, is_liquidate) == if is_liquidate == Some(true) {
            25 * conf > price
        } else {
            50 * conf > price
        } by {
        let factor = confidence_factor(is_liquidate) as int;
        vstd::arithmetic::mul::lemma_mul_is_commutative(conf, factor);
    }
}

} // verus!
