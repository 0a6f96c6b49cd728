//! The increment of a counter, as an instruction of its own.

use vstd::prelude::*;
use crate::callback::{CallbackError, SignedOutput};
use crate::executor::kind_offset;
use crate::program::{dispatch_outcome, increment_counter_entries, Dispatched};
use crate::protocol::{CallbackTarget, DispatchError, Protocol};

verus! {

/// Dispatches the increment of the counter at `counter`.
pub fn handler(protocol: &mut Protocol, computation_offset: u64, counter: [u8; 32]) -> (r: Result<
    Dispatched,
    DispatchError,
>)
    requires
        old(protocol).wf(),
    ensures
        final(protocol).wf(),
        dispatch_outcome(
            *old(protocol),
            *final(protocol),
            r,
            computation_offset,
            kind_offset("increment_counter"@),
            increment_counter_entries(*old(protocol), counter),
            CallbackTarget::UpdateRecord(counter),
        ),
{
    crate::program::increment_counter(protocol, computation_offset, counter)
}

/// Handles the answer to an increment: the new state is written to the
/// counter's record.
pub fn callback_handler(protocol: &mut Protocol, output: &SignedOutput) -> (r: Result<
    [u8; 32],
    CallbackError,
>)
    requires
        old(protocol).wf(),
    ensures
        final(protocol).wf(),
        old(protocol).state_after_callback(
            *final(protocol),
            *output,
            old(protocol).kind_callback_error(*output, kind_offset("increment_counter"@), false),
        ),
        r is Ok <==> old(protocol).kind_callback_error(
            *output,
            kind_offset("increment_counter"@),
            false,
        ) is None,
        r matches Err(e) ==> old(protocol).kind_callback_error(
            *output,
            kind_offset("increment_counter"@),
            false,
        ) == Some(e),
        r matches Ok(address) ==> old(protocol).pending_of(output.request_id).callback_target
            == CallbackTarget::UpdateRecord(address),
{
    crate::callbacks::increment_counter_callback(protocol, output)
}

/// Registers the definition of the increment.
pub fn init_comp_def_handler(protocol: &mut Protocol)
    requires
        old(protocol).wf(),
    ensures
        final(protocol).wf(),
        final(protocol).has_kind(kind_offset("increment_counter"@)),
        forall|k: u32| old(protocol).has_kind(k) ==> final(protocol).has_kind(k),
        forall|k: u32|
            final(protocol).has_kind(k) ==> k == kind_offset("increment_counter"@) || old(
                protocol,
            ).has_kind(k),
        final(protocol).cluster_keys == old(protocol).cluster_keys,
        final(protocol).records == old(protocol).records,
        final(protocol).pending == old(protocol).pending,
{
    crate::program::init_increment_counter_comp_def(protocol)
}

} // verus!
