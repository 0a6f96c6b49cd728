//! The callbacks of the four computations. Each accepts only the answer to
//! a computation of its own kind that is pending with the target its
//! dispatch bound.

use vstd::prelude::*;
use crate::callback::{AppliedEffect, CallbackError, Notification, OutputStatus, SignedOutput};
use crate::executor::{comp_def_offset, kind_offset};
use crate::program::{CounterValueEvent, SumEvent};
use crate::protocol::{CallbackTarget, Protocol};

verus! {

impl Protocol {
    /// Whether a computation of `kind` is pending under `request_id`, with
    /// a notification as its target if `notify`, a record if not.
    pub open spec fn awaits(&self, request_id: u64, kind: u32, notify: bool) -> bool {
        &&& self.is_pending(request_id)
        &&& self.pending_of(request_id).computation_kind == kind
        &&& (self.pending_of(request_id).callback_target is Notify) == notify
    }

    /// The error a callback of `kind` is refused with, if it is refused: an
    /// answer to no pending computation of that kind and target is unknown;
    /// any other is judged as every callback is.
    pub open spec fn kind_callback_error(&self, output: SignedOutput, kind: u32, notify: bool) -> Option<
        CallbackError,
    > {
        if self.awaits(output.request_id, kind, notify) {
            self.callback_error(output)
        } else {
            Some(CallbackError::UnknownOrAlreadyConsumedRequest)
        }
    }

    /// Whether a computation of `kind` with that target is pending under
    /// `request_id`.
    pub fn is_awaited(&self, request_id: u64, kind: u32, notify: bool) -> (awaited: bool)
        requires
            self.wf(),
        ensures
            awaited == self.awaits(request_id, kind, notify),
    {
        match self.find_pending(request_id) {
            None => false,
            Some(i) => {
                proof {
                    self.lemma_pending_index(i as int);
                }
                let to_notify = match self.pending[i].callback_target {
                    CallbackTarget::Notify => true,
                    CallbackTarget::UpdateRecord(_) => false,
                };
                self.pending[i].computation_kind == kind && to_notify == notify
        },
        }
    }

    /// Handles the answer to a computation of `kind` whose result is
    /// published.
    pub fn notify_callback(&mut self, output: &SignedOutput, kind: u32) -> (r: Result<
        Notification,
        CallbackError,
    >)
        requires
            old(self).wf(),
        ensures
            final(self).wf(),
            final(self).records == old(self).records,
            old(self).state_after_callback(
                *final(self),
                *output,
                old(self).kind_callback_error(*output, kind, true),
            ),
            r is Ok <==> old(self).kind_callback_error(*output, kind, true) is None,
            r matches Err(e) ==> old(self).kind_callback_error(*output, kind, true) == Some(e),
            r matches Ok(n) ==> {
                &&& output.status matches OutputStatus::Completed(bytes)
                &&& n.audience_key@ == bytes@.subrange(0, 32)
                &&& n.nonce@ == bytes@.subrange(32, 48)
                &&& n.ciphertext@ == bytes@.subrange(48, 80)
            },
    {
        if !self.is_awaited(output.request_id, kind, true) {
            return Err(CallbackError::UnknownOrAlreadyConsumedRequest);
        }
        match self.handle_callback(output) {
            Err(e) => Err(e),
            Ok(AppliedEffect::Notified(n)) => Ok(n),
            Ok(AppliedEffect::RecordUpdated(_)) => {
                proof {
                    assert(false);
                }
                Err(CallbackError::MalformedRecord)
            },
        }
    }

    /// Handles the answer to a computation of `kind` whose result is
    /// written to a record. Returns the record's address.
    pub fn update_callback(&mut self, output: &SignedOutput, kind: u32) -> (r: Result<
        [u8; 32],
        CallbackError,
    >)
        requires
            old(self).wf(),
        ensures
            final(self).wf(),
            old(self).state_after_callback(
                *final(self),
                *output,
                old(self).kind_callback_error(*output, kind, false),
            ),
            r is Ok <==> old(self).kind_callback_error(*output, kind, false) is None,
            r matches Err(e) ==> old(self).kind_callback_error(*output, kind, false) == Some(e),
            r matches Ok(address) ==> old(self).pending_of(output.request_id).callback_target
                == CallbackTarget::UpdateRecord(address),
    {
        if !self.is_awaited(output.request_id, kind, false) {
            return Err(CallbackError::UnknownOrAlreadyConsumedRequest);
        }
        match self.handle_callback(output) {
            Err(e) => Err(e),
            Ok(AppliedEffect::RecordUpdated(address)) => Ok(address),
            Ok(AppliedEffect::Notified(_)) => {
                proof {
                    assert(false);
                }
                Err(CallbackError::MalformedRecord)
            },
        }
    }
}

/// Handles the answer to `add_together`: the event carries the sum's
/// ciphertext and its nonce.
pub fn add_together_callback(protocol: &mut Protocol, output: &SignedOutput) -> (r: Result<
    SumEvent,
    CallbackError,
>)
    requires
        old(protocol).wf(),
    ensures
        final(protocol).wf(),
        final(protocol).records == old(protocol).records,
        old(protocol).state_after_callback(
            *final(protocol),
            *output,
            old(protocol).kind_callback_error(*output, kind_offset("add_together"@), true),
        ),
        r is Ok <==> old(protocol).kind_callback_error(
            *output,
            kind_offset("add_together"@),
            true,
        ) is None,
        r matches Err(e) ==> old(protocol).kind_callback_error(
            *output,
            kind_offset("add_together"@),
            true,
        ) == Some(e),
        r matches Ok(event) ==> {
            &&& output.status matches OutputStatus::Completed(bytes)
            &&& event.nonce@ == bytes@.subrange(32, 48)
            &&& event.sum@ == bytes@.subrange(48, 80)
        },
{
    let kind = comp_def_offset("add_together");
    match protocol.notify_callback(output, kind) {
        Err(e) => Err(e),
        Ok(n) => Ok(SumEvent { sum: n.ciphertext, nonce: n.nonce }),
    }
}

/// Handles the answer to `init_counter`: the new state is written to the
/// counter's record.
pub fn init_counter_callback(protocol: &mut Protocol, output: &SignedOutput) -> (r: Result<
    [u8; 32],
    CallbackError,
>)
    requires
        old(protocol).wf(),
    ensures
        final(protocol).wf(),
        old(protocol).state_after_callback(
            *final(protocol),
            *output,
            old(protocol).kind_callback_error(*output, kind_offset("init_counter"@), false),
        ),
        r is Ok <==> old(protocol).kind_callback_error(
            *output,
            kind_offset("init_counter"@),
            false,
        ) is None,
        r matches Err(e) ==> old(protocol).kind_callback_error(
            *output,
            kind_offset("init_counter"@),
            false,
        ) == Some(e),
        r matches Ok(address) ==> old(protocol).pending_of(output.request_id).callback_target
            == CallbackTarget::UpdateRecord(address),
{
    let kind = comp_def_offset("init_counter");
    protocol.update_callback(output, kind)
}

/// Handles the answer to `increment_counter`: the new state is written to
/// the counter's record.
pub fn increment_counter_callback(protocol: &mut Protocol, output: &SignedOutput) -> (r: Result<
    [u8; 32],
    CallbackError,
>)
    requires
        old(protocol).wf(),
    ensures
        final(protocol).wf(),
        old(protocol).state_after_callback(
            *final(protocol),
            *output,
            old(protocol).kind_callback_error(*output, kind_offset("increment_counter"@), false),
        ),
        r is Ok <==> old(protocol).kind_callback_error(
            *output,
            kind_offset("increment_counter"@),
            false,
        ) is None,
        r matches Err(e) ==> old(protocol).kind_callback_error(
            *output,
            kind_offset("increment_counter"@),
            false,
        ) == Some(e),
        r matches Ok(address) ==> old(protocol).pending_of(output.request_id).callback_target
            == CallbackTarget::UpdateRecord(address),
{
    let kind = comp_def_offset("increment_counter");
    protocol.update_callback(output, kind)
}

/// Handles the answer to `get_counter`: the event carries the reader's
/// key, the nonce and the ciphertext made for that reader.
pub fn get_counter_callback(protocol: &mut Protocol, output: &SignedOutput) -> (r: Result<
    CounterValueEvent,
    CallbackError,
>)
    requires
        old(protocol).wf(),
    ensures
        final(protocol).wf(),
        final(protocol).records == old(protocol).records,
        old(protocol).state_after_callback(
            *final(protocol),
            *output,
            old(protocol).kind_callback_error(*output, kind_offset("get_counter"@), true),
        ),
        r is Ok <==> old(protocol).kind_callback_error(
            *output,
            kind_offset("get_counter"@),
            true,
        ) is None,
        r matches Err(e) ==> old(protocol).kind_callback_error(
            *output,
            kind_offset("get_counter"@),
            true,
        ) == Some(e),
        r matches Ok(event) ==> {
            &&& output.status matches OutputStatus::Completed(bytes)
            &&& event.encryption_key@ == bytes@.subrange(0, 32)
            &&& event.nonce@ == bytes@.subrange(32, 48)
            &&& event.ciphertext@ == bytes@.subrange(48, 80)
        },
{
    let kind = comp_def_offset("get_counter");
    match protocol.notify_callback(output, kind) {
        Err(e) => Err(e),
        Ok(n) => Ok(
            CounterValueEvent { encryption_key: n.audience_key, nonce: n.nonce, ciphertext: n.ciphertext },
        ),
    }
}

} // verus!
