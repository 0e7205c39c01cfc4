//! Counters of model usage.

use vstd::prelude::*;

verus! {

/// How much a model was used.
#[derive(Debug, Clone, Copy, PartialEq, Eq)]
pub struct UsageCounter {
    pub requests: u64,
    pub input_tokens: u64,
    pub output_tokens: u64,
}

/// One request to a model.
#[derive(Debug, Clone)]
pub struct UsageEvent {
    pub model_key: String,
    pub input_tokens: u64,
    pub output_tokens: u64,
}

impl Default for UsageCounter {
    fn default() -> (counter: UsageCounter)
        ensures
            counter == (UsageCounter { requests: 0, input_tokens: 0, output_tokens: 0 }),
    {
        UsageCounter { requests: 0, input_tokens: 0, output_tokens: 0 }
    }
}

/// A sum that stops at the largest number a counter can hold.
pub open spec fn capped_sum(a: u64, b: u64) -> u64 {
    if a + b > u64::MAX {
        u64::MAX
    } else {
        (a + b) as u64
    }
}

/// Counts one request: the request count goes up by one and the token counts
/// by the tokens of the request. A count stops at the largest number it can
/// hold.
pub fn add_counter(counter: &mut UsageCounter, event: &UsageEvent)
    ensures
        final(counter).requests == capped_sum(old(counter).requests, 1),
        final(counter).input_tokens == capped_sum(old(counter).input_tokens, event.input_tokens),
        final(counter).output_tokens == capped_sum(
            old(counter).output_tokens,
            event.output_tokens,
        ),
{
    counter.requests = counter.requests.saturating_add(1);
    counter.input_tokens = counter.input_tokens.saturating_add(event.input_tokens);
    counter.output_tokens = counter.output_tokens.saturating_add(event.output_tokens);
}

} // verus!
