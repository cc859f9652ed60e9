//! The control worker: where commands go, and when the transport is tried again.
//! Times are milliseconds of a clock that never goes back.

use vstd::prelude::*;

use crate::net_control::commands::ControlCommand;
use crate::sap::TetraEntity;

verus! {

/// How long a cycle waits for messages.
pub const POLL_TIMEOUT_MS: u64 = 500;

/// Time between two attempts to connect.
pub const RECONNECT_DELAY_MS: u64 = 1000;

/// The entity that serves a command.
pub open spec fn serving_entity<P>(command: ControlCommand<P>) -> TetraEntity {
    match command {
        ControlCommand::CommandA { .. }
        | ControlCommand::TnmmRegistration { .. }
        | ControlCommand::TnmmDeregistration { .. }
        | ControlCommand::TnmmAttachDetachGroupIdentity { .. }
        | ControlCommand::TnmmStatus { .. }
        | ControlCommand::TnmmEnergySaving { .. }
        | ControlCommand::Management(_) => TetraEntity::Mm,
        _ => TetraEntity::Cmce,
    }
}

/// How an attempt to connect is to be reported.
#[derive(Clone, Copy, Debug, PartialEq, Eq, Structural)]
pub enum ConnectReport {
    Connected,
    /// The first failure since the transport was last up.
    FirstFailure,
    /// A further failure, which is not worth a warning.
    StillDown,
}

/// What a cycle of the worker does first.
#[derive(Clone, Copy, Debug, PartialEq, Eq, Structural)]
pub enum CycleStart {
    /// Take commands from the transport and hand responses to it.
    Poll,
    /// Wait for [`POLL_TIMEOUT_MS`].
    Wait,
}

/// What becomes of the transport at the end of a cycle.
#[derive(Clone, Copy, Debug, PartialEq, Eq, Structural)]
pub struct CycleEnd {
    /// The transport has gone down in this cycle.
    pub disconnected: bool,
    /// It is time for another attempt to connect.
    pub reconnect: bool,
}

/// State of the control worker, without its transport.
#[derive(Debug)]
pub struct ControlWorker {
    /// Entities that commands can be handed to.
    pub dispatchers: Vec<TetraEntity>,
    pub connected: bool,
    pub last_connect_attempt: Option<u64>,
    /// The transport has been reported as down.
    pub down_logged: bool,
}

impl ControlWorker {
    /// The worker after an attempt to connect.
    pub open spec fn after_attempt(self, now: u64, ok: bool) -> ControlWorker {
        ControlWorker {
            connected: ok,
            last_connect_attempt: Some(now),
            down_logged: !ok,
            ..self
        }
    }

    /// The report of an attempt to connect.
    pub open spec fn report(self, ok: bool) -> ConnectReport {
        if ok {
            ConnectReport::Connected
        } else if self.down_logged {
            ConnectReport::StillDown
        } else {
            ConnectReport::FirstFailure
        }
    }

    /// Whether another attempt to connect is due.
    pub open spec fn retry_due(self, now: u64) -> bool {
        match self.last_connect_attempt {
            Some(last) => now - last >= RECONNECT_DELAY_MS,
            None => true,
        }
    }

    /// The entity that a command is handed to, where it can be reached.
    pub open spec fn dispatched_to<P>(self, command: ControlCommand<P>) -> Option<TetraEntity> {
        if self.dispatchers@.contains(serving_entity(command)) {
            Some(serving_entity(command))
        } else {
            None
        }
    }

    /// A response could not be sent: the connection is gone.
    pub open spec fn after_send_failed(self) -> ControlWorker {
        ControlWorker { connected: false, ..self }
    }

    /// What a cycle does first.
    pub open spec fn cycle_start(self) -> CycleStart {
        if self.connected {
            CycleStart::Poll
        } else {
            CycleStart::Wait
        }
    }

    /// The worker after a cycle, with what the transport says of itself.
    pub open spec fn after_cycle(self, transport_up: bool) -> ControlWorker {
        ControlWorker { connected: self.connected && transport_up, ..self }
    }

    /// What becomes of the transport at the end of a cycle.
    pub open spec fn cycle_end(self, transport_up: bool, now: u64) -> CycleEnd {
        CycleEnd {
            disconnected: self.connected && !transport_up,
            reconnect: !(self.connected && transport_up) && self.retry_due(now),
        }
    }

    /// A worker that is not connected.
    pub fn new(dispatchers: Vec<TetraEntity>) -> (r: ControlWorker)
        ensures
            r == (ControlWorker {
                dispatchers,
                connected: false,
                last_connect_attempt: None,
                down_logged: false,
            }),
    {
        ControlWorker {
            dispatchers,
            connected: false,
            last_connect_attempt: None,
            down_logged: false,
        }
    }

    /// The entity that serves a command.
    pub fn route_control_command<P>(command: &ControlCommand<P>) -> (r: TetraEntity)
        ensures
            r == serving_entity(*command),
    {
        match command {
            ControlCommand::SendSds { .. } => TetraEntity::Cmce,
            ControlCommand::CommandA { .. } => TetraEntity::Mm,
            ControlCommand::TestCmdB { .. } => TetraEntity::Cmce,
            ControlCommand::TnmmRegistration { .. } => TetraEntity::Mm,
            ControlCommand::TnmmDeregistration { .. } => TetraEntity::Mm,
            ControlCommand::TnmmAttachDetachGroupIdentity { .. } => TetraEntity::Mm,
            ControlCommand::TnmmStatus { .. } => TetraEntity::Mm,
            ControlCommand::TnmmEnergySaving { .. } => TetraEntity::Mm,
            ControlCommand::TnccSetup { .. } => TetraEntity::Cmce,
            ControlCommand::TnccSetupResponse { .. } => TetraEntity::Cmce,
            ControlCommand::TnccComplete { .. } => TetraEntity::Cmce,
            ControlCommand::TnccTx { .. } => TetraEntity::Cmce,
            ControlCommand::TnccDtmf { .. } => TetraEntity::Cmce,
            ControlCommand::TnccRelease { .. } => TetraEntity::Cmce,
            ControlCommand::MsUplinkSpeech { .. } => TetraEntity::Cmce,
            ControlCommand::TnsdsUnitdata { .. } => TetraEntity::Cmce,
            ControlCommand::TnsdsStatus { .. } => TetraEntity::Cmce,
            ControlCommand::TnsdsSendMessage { .. } => TetraEntity::Cmce,
            ControlCommand::TnsdsSendReport { .. } => TetraEntity::Cmce,
            ControlCommand::TnsdsCancel { .. } => TetraEntity::Cmce,
            ControlCommand::Management(_) => TetraEntity::Mm,
        }
    }

    /// The entity that a command is handed to; `None` where the entity that
    /// serves it cannot be reached, and the command is dropped.
    pub fn dispatch_command<P>(&self, command: &ControlCommand<P>) -> (r: Option<TetraEntity>)
        ensures
            r == self.dispatched_to(*command),
    {
        let target = Self::route_control_command(command);
        let mut i: usize = 0;
        while i < self.dispatchers.len()
            invariant
                i <= self.dispatchers@.len(),
                target == serving_entity(*command),
                forall|j: int| 0 <= j < i ==> self.dispatchers@[j] != target,
            decreases self.dispatchers@.len() - i,
        {
            if self.dispatchers[i] == target {
                return Some(target);
            }
            i = i + 1;
        }
        None
    }

    /// Take the outcome of an attempt to connect at `now`.
    pub fn connect_attempted(&mut self, now: u64, ok: bool) -> (r: ConnectReport)
        ensures
            *final(self) == old(self).after_attempt(now, ok),
            r == old(self).report(ok),
    {
        self.last_connect_attempt = Some(now);
        if ok {
            self.connected = true;
            self.down_logged = false;
            ConnectReport::Connected
        } else {
            let first: bool = !self.down_logged;
            self.down_logged = true;
            self.connected = false;
            if first {
                ConnectReport::FirstFailure
            } else {
                ConnectReport::StillDown
            }
        }
    }

    /// What a cycle does first.
    pub fn begin_cycle(&self) -> (r: CycleStart)
        ensures
            r == self.cycle_start(),
    {
        if self.connected {
            CycleStart::Poll
        } else {
            CycleStart::Wait
        }
    }

    /// Whether a response is sent; without a connection it is dropped.
    pub fn may_send(&self) -> (r: bool)
        ensures
            r == self.connected,
    {
        self.connected
    }

    /// Take note that a response could not be sent: the connection is gone, and
    /// is to be tried again at once.
    pub fn send_failed(&mut self)
        ensures
            *final(self) == old(self).after_send_failed(),
    {
        self.connected = false;
    }

    /// End a cycle at `now`, with what the transport says of itself.
    pub fn end_cycle(&mut self, transport_up: bool, now: u64) -> (r: CycleEnd)
        requires
            old(self).last_connect_attempt matches Some(last) ==> last <= now,
        ensures
            *final(self) == old(self).after_cycle(transport_up),
            r == old(self).cycle_end(transport_up, now),
    {
        let mut disconnected: bool = false;
        if !transport_up && self.connected {
            disconnected = true;
            self.connected = false;
        }
        let mut reconnect: bool = false;
        if !self.connected {
            reconnect = match self.last_connect_attempt {
                Some(last) => now - last >= RECONNECT_DELAY_MS,
                None => true,
            };
        }
        CycleEnd { disconnected, reconnect }
    }
}

/// Every command is served by mobility management or by the circuit mode control
/// entity.
pub proof fn law_every_command_is_served<P>(command: ControlCommand<P>)
    ensures
        serving_entity(command) is Mm || serving_entity(command) is Cmce,
        command is Management ==> serving_entity(command) is Mm,
{
}

/// While the transport stays down, only the first failed attempt is worth a
/// warning; once it has been up, the next failure is one again.
pub proof fn law_one_warning_per_outage(w: ControlWorker, t: u64, u: u64)
    ensures
        w.after_attempt(t, false).report(false) is StillDown,
        w.after_attempt(t, true).report(false) is FirstFailure,
        w.after_attempt(t, false).after_attempt(u, true).report(false) is FirstFailure,
{
}

/// After a failed attempt, the next one is made no sooner than the delay, and as
/// soon as the delay has passed.
pub proof fn law_attempts_keep_their_distance(w: ControlWorker, t: u64, now: u64)
    requires
        t <= now,
    ensures
        w.after_attempt(t, false).retry_due(now) == (now >= t + RECONNECT_DELAY_MS),
{
}

/// Each command, by its name, is served by one entity: mobility management serves
/// CommandA, the TNMM requests and management; the circuit mode control entity
/// serves short data, TestCmdB, uplink speech, and the TNCC and TNSDS requests.
pub proof fn law_command_reaches_its_entity<P>(command: ControlCommand<P>)
    ensures
        serving_entity(command) is Mm <==> {
            ||| command is CommandA
            ||| command is TnmmRegistration
            ||| command is TnmmDeregistration
            ||| command is TnmmAttachDetachGroupIdentity
            ||| command is TnmmStatus
            ||| command is TnmmEnergySaving
            ||| command is Management
        },
        serving_entity(command) is Cmce <==> {
            ||| command is SendSds
            ||| command is TestCmdB
            ||| command is MsUplinkSpeech
            ||| command is TnccSetup
            ||| command is TnccSetupResponse
            ||| command is TnccComplete
            ||| command is TnccTx
            ||| command is TnccDtmf
            ||| command is TnccRelease
            ||| command is TnsdsUnitdata
            ||| command is TnsdsStatus
            ||| command is TnsdsSendMessage
            ||| command is TnsdsSendReport
            ||| command is TnsdsCancel
        },
{
}

/// A command is handed to the entity that serves it, and to no other; it is dropped
/// exactly where that entity is not among those that can be reached.
pub proof fn law_command_is_dispatched_or_dropped<P>(w: ControlWorker, command: ControlCommand<P>)
    ensures
        w.dispatched_to(command) is Some <==> w.dispatchers@.contains(serving_entity(command)),
        w.dispatched_to(command) matches Some(e) ==> e == serving_entity(command),
{
}

/// An attempt to connect decides whether the worker is connected, and its time is
/// noted; a failure is noted as reported, a success clears that. Success is always
/// reported as such; the first failure of an outage differs from the others.
pub proof fn law_attempt_is_noted(w: ControlWorker, now: u64, ok: bool)
    ensures
        w.after_attempt(now, ok).connected == ok,
        w.after_attempt(now, ok).last_connect_attempt == Some(now),
        w.after_attempt(now, ok).down_logged == !ok,
        w.after_attempt(now, ok).dispatchers == w.dispatchers,
        w.report(true) is Connected,
        (w.report(false) is FirstFailure) == !w.down_logged,
        (w.report(false) is StillDown) == w.down_logged,
{
}

/// A cycle polls a connected transport and waits without one, half a second at
/// most. A transport that has gone down is reported once, and is tried again when
/// a second has passed since the last attempt, or at once where there was none;
/// one that is up is not tried.
pub proof fn law_cycle_keeps_the_transport(w: ControlWorker, up: bool, now: u64)
    requires
        w.last_connect_attempt matches Some(last) ==> last <= now,
    ensures
        POLL_TIMEOUT_MS == 500,
        (w.cycle_start() is Poll) == w.connected,
        (w.cycle_start() is Wait) == !w.connected,
        w.after_cycle(up) == (ControlWorker { connected: w.after_cycle(up).connected, ..w }),
        w.after_cycle(up).connected <==> w.connected && up,
        w.cycle_end(up, now).disconnected <==> w.connected && !w.after_cycle(up).connected,
        !up ==> !w.after_cycle(up).cycle_end(false, now).disconnected,
        w.cycle_end(up, now).reconnect <==> !(w.connected && up) && (match w.last_connect_attempt {
            Some(last) => now >= last + 1000,
            None => true,
        }),
{
}

/// A response that could not be sent ends the connection and changes nothing else:
/// the next cycle waits, and tries again as soon as the last attempt is a second
/// ago.
pub proof fn law_failed_response_ends_the_connection(w: ControlWorker, up: bool, now: u64)
    requires
        w.last_connect_attempt matches Some(last) ==> last <= now,
    ensures
        !w.after_send_failed().connected,
        w.after_send_failed().dispatchers == w.dispatchers,
        w.after_send_failed().last_connect_attempt == w.last_connect_attempt,
        w.after_send_failed().down_logged == w.down_logged,
        w.after_send_failed().cycle_start() is Wait,
        w.after_send_failed().cycle_end(up, now).reconnect <==> (w.last_connect_attempt matches Some(
            last,
        ) ==> now >= last + 1000),
{
}

} // verus!
