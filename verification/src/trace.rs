//! What holds of every run of the handshake, whatever the device answers
//! and whatever it is told.

use vstd::prelude::*;
use crate::error::VirtioNetError;
use crate::features::{is_subset, negotiated};
use crate::handshake::{Action, Event, HandshakeState, Progress};

verus! {

/// Where a handshake that began as `init` stands once the first `n` of
/// `events` have been taken.
pub open spec fn after(init: Progress, events: Seq<Event>, n: nat) -> Progress
    decreases n,
{
    if n == 0 {
        init
    } else {
        after(init, events, (n - 1) as nat).next(events[n - 1]).0
    }
}

/// The actions of a run, counted from 0: action 0 is pending at the
/// start, action `n` is the answer to event `n - 1`.
pub open spec fn issued(init: Progress, events: Seq<Event>, n: nat) -> Action {
    after(init, events, n).pending
}

/// What performing `action` does to the failed bit of the device status,
/// which was `before`: a reset clears it, marking the device as failed
/// sets it, and nothing else touches it.
pub open spec fn failed_bit_after(action: Action, before: bool) -> bool {
    match action {
        Action::Reset => false,
        Action::SetFailed => true,
        _ => before,
    }
}

/// The failed bit of the device status once the actions before action `n`
/// have been performed, where it was `initially` before the run.
pub open spec fn failed_bit(initially: bool, init: Progress, events: Seq<Event>, n: nat) -> bool
    decreases n,
{
    if n == 0 {
        initially
    } else {
        failed_bit_after(
            issued(init, events, (n - 1) as nat),
            failed_bit(initially, init, events, (n - 1) as nat),
        )
    }
}

/// The place of an action in a handshake that succeeds; -1 for the
/// actions that only a failing one issues.
pub open spec fn position(action: Action) -> int {
    match action {
        Action::Reset => 0,
        Action::Acknowledge => 1,
        Action::ClaimDriver => 2,
        Action::ReadDeviceFeatures => 3,
        Action::WriteDriverFeatures(_) => 4,
        Action::SetFeaturesOk => 5,
        Action::CheckFeaturesOk => 6,
        Action::InitDeviceSpecific => 7,
        Action::SetDriverOk => 8,
        Action::Done => 9,
        Action::SetFailed | Action::Fail(_) => -1,
    }
}

/// The machine answers each event with the action that is then pending.
pub proof fn lemma_answer_is_pending(p: Progress, event: Event)
    ensures
        p.next(event).1 == p.next(event).0.pending,
        p.next(event).0.dev_id == p.dev_id,
        p.next(event).0.required == p.required,
{
}

/// A handshake that was given up stays given up, and one that is complete
/// stays complete.
pub proof fn lemma_end_is_final(init: Progress, events: Seq<Event>, k: nat, n: nat)
    requires
        k <= n,
    ensures
        after(init, events, k).state() == HandshakeState::Failed ==> after(
            init,
            events,
            n,
        ).state() == HandshakeState::Failed,
        after(init, events, k).pending == Action::Done ==> after(init, events, n).pending
            == Action::Done,
        after(init, events, k).state() == HandshakeState::DriverOk ==> after(
            init,
            events,
            n,
        ).state() == HandshakeState::DriverOk,
    decreases n,
{
    if k < n {
        lemma_end_is_final(init, events, k, (n - 1) as nat);
    }
}

/// As long as a handshake has not been given up, its actions come in the
/// one order there is: after `n` events the action in place `n` is
/// pending, and beyond the last place the handshake is complete. The
/// features written are the required ones.
pub proof fn lemma_on_track(dev_id: u16, required: u64, events: Seq<Event>, n: nat)
    ensures
        ({
            let p = after(Progress::start(dev_id, required), events, n);
            &&& p.dev_id == dev_id
            &&& p.required == required
            &&& p.state() != HandshakeState::Failed ==> {
                &&& n <= 9 ==> position(p.pending) == n
                &&& n >= 9 ==> p.pending == Action::Done
                &&& p.pending is WriteDriverFeatures ==> p.pending == Action::WriteDriverFeatures(
                    required,
                )
            }
        }),
    decreases n,
{
    if n > 0 {
        lemma_on_track(dev_id, required, events, (n - 1) as nat);
        let init = Progress::start(dev_id, required);
        lemma_end_is_final(init, events, (n - 1) as nat, n);
    }
}

/// The handshake reaches `DriverOk` only along the whole path: every
/// stage before it was passed in order, the device offered all that is
/// required, the device confirmed the selection while the handshake was
/// in `FeaturesOk`, and the set-up of the device class succeeded.
pub proof fn lemma_driver_ok_needs_features_ok(
    dev_id: u16,
    required: u64,
    events: Seq<Event>,
    n: nat,
)
    requires
        n <= events.len(),
        after(Progress::start(dev_id, required), events, n).state() == HandshakeState::DriverOk,
    ensures
        n >= 8,
        forall|k: nat|
            k <= 8 ==> position(
                #[trigger] issued(Progress::start(dev_id, required), events, k),
            ) == k,
        events[3] matches Event::DeviceFeatures(advertised) && is_subset(required, advertised),
        issued(Progress::start(dev_id, required), events, 4) == Action::WriteDriverFeatures(
            required,
        ),
        after(Progress::start(dev_id, required), events, 6).state() == HandshakeState::FeaturesOk,
        issued(Progress::start(dev_id, required), events, 6) == Action::CheckFeaturesOk,
        events[6] == Event::FeaturesOk(true),
        events[7] matches Event::DeviceSpecific(Ok(_)),
{
    let init = Progress::start(dev_id, required);
    lemma_on_track(dev_id, required, events, n);
    assert forall|k: nat| k <= 8 implies position(#[trigger] issued(init, events, k)) == k by {
        lemma_end_is_final(init, events, k, n);
        lemma_on_track(dev_id, required, events, k);
    }
    assert(position(issued(init, events, 3)) == 3);
    assert(position(issued(init, events, 4)) == 4);
    assert(position(issued(init, events, 6)) == 6);
    assert(position(issued(init, events, 7)) == 7);
    assert(position(issued(init, events, 8)) == 8);
    lemma_on_track(dev_id, required, events, 4);
    assert(after(init, events, 4) == after(init, events, 3).next(events[3]).0);
    assert(after(init, events, 7) == after(init, events, 6).next(events[6]).0);
    assert(after(init, events, 8) == after(init, events, 7).next(events[7]).0);
}

/// When the machine reports a failure, the device has been marked as
/// failed: the failed bit is set by the actions performed before the
/// report, whatever it was at first.
pub proof fn lemma_failed_before_error(
    initially: bool,
    init: Progress,
    events: Seq<Event>,
    n: nat,
)
    requires
        n <= events.len(),
        !(init.pending is Fail),
        issued(init, events, n) is Fail,
    ensures
        n >= 1,
        failed_bit(initially, init, events, n),
    decreases n,
{
    if n >= 1 {
        let before = after(init, events, (n - 1) as nat);
        if before.pending is Fail {
            lemma_failed_before_error(initially, init, events, (n - 1) as nat);
        } else {
            assert(before.pending == Action::SetFailed);
        }
    }
}

/// The error that the machine reports is the one that made it give up:
/// once the device is marked as failed, the next answer is the failure
/// with its cause.
pub proof fn lemma_abort_reports_cause(p: Progress, cause: VirtioNetError, event: Event)
    ensures
        p.abort(cause).1 == Action::SetFailed,
        p.abort(cause).0.next(event).1 == Action::Fail(cause),
{
}

/// Where the device lacks a required feature, the driver writes no
/// features, at no point of the run, and the handshake fails for that
/// reason.
pub proof fn lemma_no_write_without_agreement(
    dev_id: u16,
    required: u64,
    events: Seq<Event>,
    advertised: u64,
    n: nat,
)
    requires
        n <= events.len(),
        events.len() > 3,
        events[3] == Event::DeviceFeatures(advertised),
        !is_subset(required, advertised),
    ensures
        !(issued(Progress::start(dev_id, required), events, n) is WriteDriverFeatures),
        n >= 4 ==> after(Progress::start(dev_id, required), events, n).state()
            == HandshakeState::Failed,
        issued(Progress::start(dev_id, required), events, 3) == Action::ReadDeviceFeatures
            ==> issued(Progress::start(dev_id, required), events, 5) == Action::Fail(
            VirtioNetError::FailFeatureNeg(dev_id),
        ),
{
    let init = Progress::start(dev_id, required);
    lemma_on_track(dev_id, required, events, 3);
    lemma_on_track(dev_id, required, events, n);
    assert(after(init, events, 4) == after(init, events, 3).next(events[3]).0);
    assert(after(init, events, 5) == after(init, events, 4).next(events[4]).0);
    assert(negotiated(advertised, required) is None);
    assert(after(init, events, 4).state() == HandshakeState::Failed);
    if n >= 4 {
        lemma_end_is_final(init, events, 4, n);
    }
}

/// Features are written only on agreement: whenever the machine asks for
/// the features to be written, the event before was the device's offer,
/// and the negotiation over it selected just what is written.
pub proof fn lemma_write_follows_agreement(p: Progress, event: Event)
    requires
        p.next(event).1 is WriteDriverFeatures,
    ensures
        p.pending == Action::ReadDeviceFeatures,
        event matches Event::DeviceFeatures(advertised) && negotiated(advertised, p.required)
            == Some(p.next(event).1->WriteDriverFeatures_0),
{
}

} // verus!
