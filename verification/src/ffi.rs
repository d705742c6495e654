//! The life of a service that is started and stopped through the C interface.
use vstd::prelude::*;
use vstd::utf8::{decode_utf8, valid_utf8};

use crate::text::from_utf8;

verus! {

/// What a call returns when it has succeeded.
pub const SUCCESS: i32 = 0;

/// What a call returns when it has failed.
pub const FAILURE: i32 = -1;

/// The text that a C string holds. No string, or one that is no UTF-8, is the
/// empty text.
pub fn c_str_to_string(bytes: Option<&[u8]>) -> (s: String)
    ensures
        s@ == match bytes {
            Some(b) if valid_utf8(b@) => decode_utf8(b@),
            _ => Seq::empty(),
        },
{
    match bytes {
        Some(b) => match from_utf8(b) {
            Some(text) => text.to_owned(),
            None => String::new(),
        },
        None => String::new(),
    }
}

/// Whether a service is running. There is at most one.
#[derive(Clone, Copy, Debug, PartialEq, Eq, Structural)]
pub struct ServiceSlot {
    pub running: bool,
}

/// What happened while a service is started.
#[derive(Clone, Copy, Debug, PartialEq, Eq, Structural)]
pub enum StartupEvent {
    /// The configuration was read, or was not.
    ConfigRead(bool),
    /// A runtime was made, or was not.
    RuntimeMade(bool),
    /// The service was built, or was not.
    Built(bool),
    /// Something panicked.
    Panicked,
}

/// What to do about it.
#[derive(Clone, Copy, Debug, PartialEq, Eq, Structural)]
pub enum StartupStep {
    /// Set up logging and make a runtime.
    MakeRuntime,
    /// Build the service.
    Build,
    /// Return this. On success the service that was built is kept.
    Return(i32),
}

impl ServiceSlot {
    /// Nothing is running.
    pub fn new() -> (r: ServiceSlot)
        ensures
            !r.running,
    {
        ServiceSlot { running: false }
    }

    /// Takes one event of a start. A service that was built while another one is
    /// running is given up.
    pub fn startup(&mut self, event: StartupEvent) -> (r: StartupStep)
        ensures
            r == match event {
                StartupEvent::ConfigRead(true) => StartupStep::MakeRuntime,
                StartupEvent::RuntimeMade(true) => StartupStep::Build,
                StartupEvent::Built(true) => StartupStep::Return(
                    if old(self).running {
                        FAILURE
                    } else {
                        SUCCESS
                    },
                ),
                _ => StartupStep::Return(FAILURE),
            },
            final(self).running == (old(self).running || r == StartupStep::Return(SUCCESS)),
    {
        match event {
            StartupEvent::ConfigRead(true) => StartupStep::MakeRuntime,
            StartupEvent::RuntimeMade(true) => StartupStep::Build,
            StartupEvent::Built(true) => {
                if self.running {
                    return StartupStep::Return(FAILURE);
                }
                self.running = true;
                StartupStep::Return(SUCCESS)
            },
            _ => StartupStep::Return(FAILURE),
        }
    }

    /// What a request to bind to a new socket returns; `rebound` is how it went,
    /// if there was anything to ask.
    pub fn rebind(&self, rebound: bool) -> (r: i32)
        ensures
            r == if self.running && rebound {
                SUCCESS
            } else {
                FAILURE
            },
    {
        if self.running && rebound {
            SUCCESS
        } else {
            FAILURE
        }
    }

    /// Stops the service. Says whether there was one to be shut down; the call
    /// itself always succeeds.
    pub fn shutdown(&mut self) -> (r: (bool, i32))
        ensures
            r.0 == old(self).running,
            r.1 == SUCCESS,
            !final(self).running,
    {
        let was: bool = self.running;
        self.running = false;
        (was, SUCCESS)
    }
}

/// The text of a C string is that of its bytes where they are UTF-8, and empty otherwise.
pub proof fn law_c_string_is_its_text(bytes: Option<&[u8]>, s: String)
    requires
        call_ensures(c_str_to_string, (bytes,), s),
    ensures
        bytes matches Some(b) ==> if valid_utf8(b@) {
            s@ == decode_utf8(b@)
        } else {
            s@.len() == 0
        },
        bytes is None ==> s@.len() == 0,
{
}

/// A start reads the configuration, makes a runtime, and builds the service; it returns 0
/// where the service was built and none was running, and -1 wherever anything else
/// happened. A service runs exactly where one ran or this one was started.
pub proof fn law_start_ends_in_one_service(
    slot: &mut ServiceSlot,
    event: StartupEvent,
    r: StartupStep,
)
    requires
        call_ensures(ServiceSlot::startup, (slot, event), r),
    ensures
        r == StartupStep::MakeRuntime <==> event == StartupEvent::ConfigRead(true),
        r == StartupStep::Build <==> event == StartupEvent::RuntimeMade(true),
        r == StartupStep::Return(0) <==> event == StartupEvent::Built(true) && !old(slot).running,
        r matches StartupStep::Return(code) ==> code == 0 || code == -1,
        old(slot).running ==> final(slot).running,
        !old(slot).running ==> (final(slot).running <==> event == StartupEvent::Built(true)),
{
}

/// A service is bound anew where it runs and binding worked.
pub proof fn law_rebind_needs_a_service(slot: &ServiceSlot, rebound: bool, r: i32)
    requires
        call_ensures(ServiceSlot::rebind, (slot, rebound), r),
    ensures
        r == 0 <==> slot.running && rebound,
        r == 0 || r == -1,
{
}

/// After a stop nothing runs, so that a service can be started again; a second stop has
/// nothing to shut down, and succeeds as the first did.
pub proof fn law_stopped_service_can_be_started_again(
    slot: &mut ServiceSlot,
    first: (bool, i32),
    again: &mut ServiceSlot,
    second: (bool, i32),
    other: &mut ServiceSlot,
    started: StartupStep,
)
    requires
        call_ensures(ServiceSlot::shutdown, (slot,), first),
        *old(again) == *final(slot),
        call_ensures(ServiceSlot::shutdown, (again,), second),
        *old(other) == *final(slot),
        call_ensures(ServiceSlot::startup, (other, StartupEvent::Built(true)), started),
    ensures
        first.0 == old(slot).running,
        first.1 == 0,
        !second.0,
        second.1 == 0,
        started == StartupStep::Return(0),
{
}

} // verus!
