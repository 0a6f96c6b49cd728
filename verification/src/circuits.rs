//! What each computation does to the values it works on. The executor runs
//! these on secret shares; here they are stated on the values themselves.

use vstd::prelude::*;

verus! {

/// The two values that `add_together` adds.
#[derive(Clone, Copy, Debug, PartialEq, Eq, Structural)]
pub struct InputValues {
    pub v1: u8,
    pub v2: u8,
}

/// The value of a counter.
#[derive(Clone, Copy, Debug, PartialEq, Eq, Structural)]
pub struct CounterState {
    pub counter: u64,
}

/// The sum of the two values, in a type wide enough to hold it.
pub fn add_together(input: InputValues) -> (sum: u16)
    ensures
        sum == input.v1 + input.v2,
{
    input.v1 as u16 + input.v2 as u16
}

/// A new counter, at zero.
pub fn init_counter() -> (state: CounterState)
    ensures
        state.counter == 0,
{
    CounterState { counter: 0 }
}

/// The counter one higher.
pub fn increment_counter(state: CounterState) -> (next: CounterState)
    requires
        state.counter < u64::MAX,
    ensures
        next.counter == state.counter + 1,
{
    CounterState { counter: state.counter + 1 }
}

/// The counter's value as it is: reading changes nothing, the value is only
/// encrypted for another reader.
pub fn get_counter(state: CounterState) -> (read: CounterState)
    ensures
        read == state,
{
    state
}

} // verus!
