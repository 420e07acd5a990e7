//! The status handshake between driver and device, as a machine that is
//! told what the device answered and says what to do next.
//!
//! The machine performs nothing itself. Whoever drives it performs each
//! action on the device and reports the outcome as an event; the machine
//! answers with the next action, until it issues `Action::Done` or
//! `Action::Fail`.

use vstd::prelude::*;
use crate::error::VirtioNetError;
use crate::features::{negotiate_features, negotiated};

verus! {

/// The stages of the handshake, in the order in which they are passed.
/// `Failed` can follow any stage but `DriverOk`.
#[derive(Copy, Clone, Debug, PartialEq, Eq, Structural)]
pub enum HandshakeState {
    /// The device status is being cleared.
    Reset,
    /// The driver lets the device know that it has noticed it.
    Acknowledged,
    /// The driver lets the device know that it can drive it.
    DriverClaimed,
    /// The features are read, selected and written back.
    FeaturesNegotiated,
    /// The driver declares the selection complete and the device confirms.
    FeaturesOk,
    /// The set-up particular to the device class runs.
    DeviceSpecificInit,
    /// The driver has committed: the device is live.
    DriverOk,
    /// The handshake was given up and the device marked as failed.
    Failed,
}

/// What the machine asks for: one operation on the device, or the end of
/// the handshake.
#[derive(Copy, Clone, Debug, PartialEq, Eq, Structural)]
pub enum Action {
    /// Clear the device status.
    Reset,
    /// Set the acknowledge bit of the device status.
    Acknowledge,
    /// Set the driver bit of the device status.
    ClaimDriver,
    /// Read the features the device advertises.
    ReadDeviceFeatures,
    /// Write the features the driver selected.
    WriteDriverFeatures(u64),
    /// Set the features-ok bit of the device status.
    SetFeaturesOk,
    /// Read back whether the device kept the features-ok bit.
    CheckFeaturesOk,
    /// Run the set-up particular to the device class.
    InitDeviceSpecific,
    /// Set the driver-ok bit of the device status.
    SetDriverOk,
    /// Set the failed bit of the device status.
    SetFailed,
    /// Nothing is left to do: the device is live.
    Done,
    /// Nothing is left to do: the handshake failed for the reason given.
    Fail(VirtioNetError),
}

/// What happened when the last action was performed.
#[derive(Copy, Clone, Debug, PartialEq, Eq)]
pub enum Event {
    /// The operation was carried out; it gives nothing back.
    Done,
    /// The features the device advertises.
    DeviceFeatures(u64),
    /// Whether the device kept the features-ok bit.
    FeaturesOk(bool),
    /// How the set-up particular to the device class ended.
    DeviceSpecific(Result<(), VirtioNetError>),
}

/// How far a handshake has come: the action that was issued last and now
/// awaits its event, and, once the handshake is given up, the reason.
pub struct Progress {
    /// The device the handshake is held with.
    pub dev_id: u16,
    /// The features the driver cannot do without.
    pub required: u64,
    /// The action issued last.
    pub pending: Action,
    /// Why the handshake was given up, if it was.
    pub cause: Option<VirtioNetError>,
}

impl Progress {
    /// The handshake at its start: the reset is the first thing asked for.
    pub open spec fn start(dev_id: u16, required: u64) -> Progress {
        Progress { dev_id, required, pending: Action::Reset, cause: None }
    }

    /// Goes on with `action`.
    pub open spec fn issue(self, action: Action) -> (Progress, Action) {
        (Progress { pending: action, ..self }, action)
    }

    /// Gives the handshake up because of `cause`: the device is to be
    /// marked as failed before anything else happens.
    pub open spec fn abort(self, cause: VirtioNetError) -> (Progress, Action) {
        (Progress { pending: Action::SetFailed, cause: Some(cause), ..self }, Action::SetFailed)
    }

    /// The reason that is reported once the device is marked as failed.
    pub open spec fn reported(self) -> VirtioNetError {
        match self.cause {
            Some(cause) => cause,
            None => VirtioNetError::General,
        }
    }

    /// The step of the machine: where the handshake stands once `event`
    /// has answered the pending action, and the action issued next.
    ///
    /// An event that cannot answer the pending action ends the handshake
    /// like any other failure. There are two exceptions, where the device
    /// status is already written and nothing can be taken back: after
    /// `SetDriverOk` the handshake is complete, and after `SetFailed` it
    /// has failed, whatever the event says. Once `Done` or `Fail` is issued
    /// nothing changes any more.
    pub open spec fn next(self, event: Event) -> (Progress, Action) {
        match self.pending {
            Action::Done | Action::Fail(_) => (self, self.pending),
            Action::SetFailed => self.issue(Action::Fail(self.reported())),
            Action::Reset => match event {
                Event::Done => self.issue(Action::Acknowledge),
                _ => self.abort(VirtioNetError::General),
            },
            Action::Acknowledge => match event {
                Event::Done => self.issue(Action::ClaimDriver),
                _ => self.abort(VirtioNetError::General),
            },
            Action::ClaimDriver => match event {
                Event::Done => self.issue(Action::ReadDeviceFeatures),
                _ => self.abort(VirtioNetError::General),
            },
            Action::ReadDeviceFeatures => match event {
                Event::DeviceFeatures(advertised) => match negotiated(advertised, self.required) {
                    Some(selected) => self.issue(Action::WriteDriverFeatures(selected)),
                    None => self.abort(VirtioNetError::FailFeatureNeg(self.dev_id)),
                },
                _ => self.abort(VirtioNetError::General),
            },
            Action::WriteDriverFeatures(_) => match event {
                Event::Done => self.issue(Action::SetFeaturesOk),
                _ => self.abort(VirtioNetError::General),
            },
            Action::SetFeaturesOk => match event {
                Event::Done => self.issue(Action::CheckFeaturesOk),
                _ => self.abort(VirtioNetError::General),
            },
            Action::CheckFeaturesOk => match event {
                Event::FeaturesOk(true) => self.issue(Action::InitDeviceSpecific),
                Event::FeaturesOk(false) => self.abort(
                    VirtioNetError::FailFeatureNeg(self.dev_id),
                ),
                _ => self.abort(VirtioNetError::General),
            },
            Action::InitDeviceSpecific => match event {
                Event::DeviceSpecific(Ok(_)) => self.issue(Action::SetDriverOk),
                Event::DeviceSpecific(Err(cause)) => self.abort(cause),
                _ => self.abort(VirtioNetError::General),
            },
            Action::SetDriverOk => self.issue(Action::Done),
        }
    }

    /// The stage the handshake is in, which is that of the pending action.
    pub open spec fn state(self) -> HandshakeState {
        match self.pending {
            Action::Reset => HandshakeState::Reset,
            Action::Acknowledge => HandshakeState::Acknowledged,
            Action::ClaimDriver => HandshakeState::DriverClaimed,
            Action::ReadDeviceFeatures | Action::WriteDriverFeatures(_) =>
                HandshakeState::FeaturesNegotiated,
            Action::SetFeaturesOk | Action::CheckFeaturesOk => HandshakeState::FeaturesOk,
            Action::InitDeviceSpecific => HandshakeState::DeviceSpecificInit,
            Action::SetDriverOk | Action::Done => HandshakeState::DriverOk,
            Action::SetFailed | Action::Fail(_) => HandshakeState::Failed,
        }
    }
}

/// The machine that conducts one handshake.
#[derive(Copy, Clone, Debug)]
pub struct Handshake {
    dev_id: u16,
    required: u64,
    pending: Action,
    cause: Option<VirtioNetError>,
}

impl View for Handshake {
    type V = Progress;

    closed spec fn view(&self) -> Progress {
        Progress {
            dev_id: self.dev_id,
            required: self.required,
            pending: self.pending,
            cause: self.cause,
        }
    }
}

impl Handshake {
    /// A handshake with device `dev_id` that insists on the features
    /// `required`. The reset is pending: it is the first thing to perform.
    pub fn new(dev_id: u16, required: u64) -> (r: Handshake)
        ensures
            r@ == Progress::start(dev_id, required),
    {
        Handshake { dev_id, required, pending: Action::Reset, cause: None }
    }

    /// The action that was issued last and awaits its event.
    pub fn pending(&self) -> (r: Action)
        ensures
            r == self@.pending,
    {
        self.pending
    }

    /// The stage the handshake is in.
    pub fn state(&self) -> (r: HandshakeState)
        ensures
            r == self@.state(),
    {
        match self.pending {
            Action::Reset => HandshakeState::Reset,
            Action::Acknowledge => HandshakeState::Acknowledged,
            Action::ClaimDriver => HandshakeState::DriverClaimed,
            Action::ReadDeviceFeatures | Action::WriteDriverFeatures(_) =>
                HandshakeState::FeaturesNegotiated,
            Action::SetFeaturesOk | Action::CheckFeaturesOk => HandshakeState::FeaturesOk,
            Action::InitDeviceSpecific => HandshakeState::DeviceSpecificInit,
            Action::SetDriverOk | Action::Done => HandshakeState::DriverOk,
            Action::SetFailed | Action::Fail(_) => HandshakeState::Failed,
        }
    }

    fn issue(&mut self, action: Action) -> (r: Action)
        ensures
            (final(self)@, r) == old(self)@.issue(action),
    {
        self.pending = action;
        action
    }

    fn abort(&mut self, cause: VirtioNetError) -> (r: Action)
        ensures
            (final(self)@, r) == old(self)@.abort(cause),
    {
        self.pending = Action::SetFailed;
        self.cause = Some(cause);
        Action::SetFailed
    }

    /// Takes the event that answers the pending action and issues the
    /// next action.
    pub fn step(&mut self, event: Event) -> (action: Action)
        ensures
            (final(self)@, action) == old(self)@.next(event),
    {
        match self.pending {
            Action::Done | Action::Fail(_) => self.pending,
            Action::SetFailed => {
                let cause = match self.cause {
                    Some(cause) => cause,
                    None => VirtioNetError::General,
                };
                self.issue(Action::Fail(cause))
            },
            Action::Reset => match event {
                Event::Done => self.issue(Action::Acknowledge),
                _ => self.abort(VirtioNetError::General),
            },
            Action::Acknowledge => match event {
                Event::Done => self.issue(Action::ClaimDriver),
                _ => self.abort(VirtioNetError::General),
            },
            Action::ClaimDriver => match event {
                Event::Done => self.issue(Action::ReadDeviceFeatures),
                _ => self.abort(VirtioNetError::General),
            },
            Action::ReadDeviceFeatures => match event {
                Event::DeviceFeatures(advertised) => {
                    match negotiate_features(advertised, self.required, self.dev_id) {
                        Ok(selected) => self.issue(Action::WriteDriverFeatures(selected)),
                        Err(cause) => self.abort(cause),
                    }
                },
                _ => self.abort(VirtioNetError::General),
            },
            Action::WriteDriverFeatures(_) => match event {
                Event::Done => self.issue(Action::SetFeaturesOk),
                _ => self.abort(VirtioNetError::General),
            },
            Action::SetFeaturesOk => match event {
                Event::Done => self.issue(Action::CheckFeaturesOk),
                _ => self.abort(VirtioNetError::General),
            },
            Action::CheckFeaturesOk => match event {
                Event::FeaturesOk(true) => self.issue(Action::InitDeviceSpecific),
                Event::FeaturesOk(false) => self.abort(
                    VirtioNetError::FailFeatureNeg(self.dev_id),
                ),
                _ => self.abort(VirtioNetError::General),
            },
            Action::InitDeviceSpecific => match event {
                Event::DeviceSpecific(Ok(_)) => self.issue(Action::SetDriverOk),
                Event::DeviceSpecific(Err(cause)) => self.abort(cause),
                _ => self.abort(VirtioNetError::General),
            },
            Action::SetDriverOk => self.issue(Action::Done),
        }
    }
}

} // verus!
