//! Token usage, rates, and the cost estimate printed with a review.
//!
//! Amounts are whole numbers of microcents (a hundred-millionth of a dollar),
//! the unit in which a rate of one cent per million tokens prices one token.

use crate::text::{decimal, decimal_digits, digit, digit_char};
use vstd::prelude::*;
use vstd::string::*;

verus! {

/// Microcents in one cent.
pub const MICROCENTS_PER_CENT: u128 = 1_000_000;

/// An amount of money.
#[derive(Clone, Copy, Debug, PartialEq, Eq, Structural)]
pub struct Money {
    pub microcents: u128,
}

/// Tokens attributed to one request.
#[derive(Clone, Copy, Debug, PartialEq, Eq, Structural)]
pub struct Usage {
    pub prompt_tokens: u64,
    pub completion_tokens: u64,
}

/// Prices in cents per million tokens.
#[derive(Clone, Copy, Debug, PartialEq, Eq, Structural)]
pub struct Rates {
    pub prompt: u32,
    pub completion: u32,
}

/// The cost of `usage` at `rates`, in microcents.
pub open spec fn cost_spec(usage: Usage, rates: Rates) -> nat {
    (usage.prompt_tokens * rates.prompt + usage.completion_tokens * rates.completion) as nat
}

/// `microcents` in cents, rounded to the nearest cent; an amount halfway
/// between two cents goes to the even one.
pub open spec fn rounded_cents(microcents: nat) -> nat {
    let whole = microcents / (MICROCENTS_PER_CENT as nat);
    let rest = microcents % (MICROCENTS_PER_CENT as nat);
    if 2 * rest > MICROCENTS_PER_CENT || (2 * rest == MICROCENTS_PER_CENT && whole % 2 == 1) {
        whole + 1
    } else {
        whole
    }
}

/// `cents` written in dollars with two decimal places.
pub open spec fn dollars_and_cents(cents: nat) -> Seq<char> {
    decimal_digits(cents / 100) + seq!['.', digit_char(cents % 100 / 10), digit_char(cents % 10)]
}

/// The cost of `usage` at `rates`: each kind of token at its own price.
pub fn cost_of(usage: Usage, rates: Rates) -> (cost: Money)
    ensures
        cost.microcents == cost_spec(usage, rates),
{
    let prompt_tokens: u128 = usage.prompt_tokens as u128;
    let prompt_rate: u128 = rates.prompt as u128;
    let completion_tokens: u128 = usage.completion_tokens as u128;
    let completion_rate: u128 = rates.completion as u128;
    assert(prompt_tokens * prompt_rate <= 0xffff_ffff_ffff_ffff * 0xffff_ffff) by (nonlinear_arith)
        requires
            prompt_tokens <= 0xffff_ffff_ffff_ffff,
            prompt_rate <= 0xffff_ffff,
    ;
    assert(completion_tokens * completion_rate <= 0xffff_ffff_ffff_ffff * 0xffff_ffff)
        by (nonlinear_arith)
        requires
            completion_tokens <= 0xffff_ffff_ffff_ffff,
            completion_rate <= 0xffff_ffff,
    ;
    Money { microcents: prompt_tokens * prompt_rate + completion_tokens * completion_rate }
}

impl Money {
    /// No money at all.
    pub fn zero() -> (m: Money)
        ensures
            m.microcents == 0,
    {
        Money { microcents: 0 }
    }

    /// The amount in cents, rounded half to even.
    pub fn cents(self) -> (cents: u128)
        ensures
            cents == rounded_cents(self.microcents as nat),
    {
        let whole: u128 = self.microcents / MICROCENTS_PER_CENT;
        let rest: u128 = self.microcents % MICROCENTS_PER_CENT;
        if 2 * rest > MICROCENTS_PER_CENT || (2 * rest == MICROCENTS_PER_CENT && whole % 2 == 1) {
            whole + 1
        } else {
            whole
        }
    }

    /// The amount in dollars, to two decimal places.
    pub fn format(self) -> (text: String)
        ensures
            text@ == dollars_and_cents(rounded_cents(self.microcents as nat)),
    {
        let cents: u128 = self.cents();
        let mut text = decimal(cents / 100);
        proof {
            reveal_strlit(".");
        }
        text.append(".");
        text.append(digit((cents % 100 / 10) as u8));
        text.append(digit((cents % 10) as u8));
        assert(text@ =~= dollars_and_cents(cents as nat));
        text
    }
}

/// Rounding moves an amount by half a cent at most.
pub proof fn rounding_is_to_the_nearest_cent(microcents: nat)
    ensures
        rounded_cents(microcents) * MICROCENTS_PER_CENT - microcents <= MICROCENTS_PER_CENT / 2,
        microcents - rounded_cents(microcents) * MICROCENTS_PER_CENT <= MICROCENTS_PER_CENT / 2,
{
}

/// A whole number of cents is written as it is.
pub proof fn whole_cents_are_kept(cents: nat)
    ensures
        rounded_cents(cents * (MICROCENTS_PER_CENT as nat)) == cents,
{
}

} // verus!
