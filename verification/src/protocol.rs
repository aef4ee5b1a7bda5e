//! The alarm driver's syscall protocol, as verified decision logic.
//!
//! The kernel is reached through four primitives: a command (driver
//! number, command id, two argument words, answered with a success
//! word or an error code), installing an upcall subscription on a
//! slot, replacing that subscription with a null one, and yielding
//! until some upcall is delivered. None of those can run here, so the
//! protocol is split: this module decides, the caller performs.
//!
//! For the one-shot queries the split is a pair of functions: one
//! builds the [`CommandRequest`] to issue, the other interprets the
//! kernel's reply. For the relative sleep it is a state machine:
//! [`sleep_action`] names the primitive to perform in each
//! [`SleepState`], and [`sleep_step`] consumes the resulting
//! [`SleepEvent`] to move to the next state. A driver loop starts at
//! [`SleepState::QueryFrequency`] and performs actions until the state
//! is [`SleepState::Done`].
//!
//! Error codes are the kernel's own, passed through verbatim as `u32`.

use vstd::prelude::*;
use crate::time::{Convert, Hz, Ticks};

verus! {

/// Driver number of the alarm driver.
pub const DRIVER_NUM: u32 = 0;

/// Command id: check that the alarm driver is registered.
pub const COMMAND_EXISTS: u32 = 0;

/// Command id: read the tick frequency.
pub const COMMAND_FREQUENCY: u32 = 1;

/// Command id: read the current tick counter.
pub const COMMAND_TIME: u32 = 2;

/// Command id: stop a pending alarm (not used by the sleep protocol).
pub const COMMAND_STOP: u32 = 3;

/// Command id: arm the alarm a relative number of ticks from now.
pub const COMMAND_SET_RELATIVE: u32 = 5;

/// Command id: arm the alarm at an absolute tick (not used by the
/// sleep protocol).
pub const COMMAND_SET_ABSOLUTE: u32 = 6;

/// Subscribe slot of the alarm upcall.
pub const SUBSCRIBE_CALLBACK: u32 = 0;

/// One command invocation: the driver to route to, the command id, and
/// the two 32-bit argument words.
#[derive(Copy, Clone, Debug, PartialEq, Eq, Structural)]
pub struct CommandRequest {
    pub driver: u32,
    pub command_id: u32,
    pub arg0: u32,
    pub arg1: u32,
}

/// The command that checks the alarm driver's presence.
pub fn exists_request() -> (c: CommandRequest)
    ensures
        c == (CommandRequest { driver: DRIVER_NUM, command_id: COMMAND_EXISTS, arg0: 0, arg1: 0 }),
{
    CommandRequest { driver: DRIVER_NUM, command_id: COMMAND_EXISTS, arg0: 0, arg1: 0 }
}

/// Interprets the kernel's reply to the presence check: the success
/// payload is ignored, an error code is passed through.
pub fn exists_reply(reply: Result<u32, u32>) -> (r: Result<(), u32>)
    ensures
        r == (match reply {
            Ok(_) => Result::<(), u32>::Ok(()),
            Err(e) => Result::<(), u32>::Err(e),
        }),
{
    match reply {
        Ok(_) => Ok(()),
        Err(e) => Err(e),
    }
}

/// The command that reads the tick frequency.
pub fn frequency_request() -> (c: CommandRequest)
    ensures
        c == (CommandRequest {
            driver: DRIVER_NUM,
            command_id: COMMAND_FREQUENCY,
            arg0: 0,
            arg1: 0,
        }),
{
    CommandRequest { driver: DRIVER_NUM, command_id: COMMAND_FREQUENCY, arg0: 0, arg1: 0 }
}

/// Interprets the kernel's reply to the frequency query: the success
/// payload is the tick rate, an error code is passed through.
pub fn frequency_reply(reply: Result<u32, u32>) -> (r: Result<Hz, u32>)
    ensures
        r == (match reply {
            Ok(f) => Result::<Hz, u32>::Ok(Hz(f)),
            Err(e) => Result::<Hz, u32>::Err(e),
        }),
{
    match reply {
        Ok(f) => Ok(Hz(f)),
        Err(e) => Err(e),
    }
}

/// The command that reads the current tick counter.
pub fn time_request() -> (c: CommandRequest)
    ensures
        c == (CommandRequest { driver: DRIVER_NUM, command_id: COMMAND_TIME, arg0: 0, arg1: 0 }),
{
    CommandRequest { driver: DRIVER_NUM, command_id: COMMAND_TIME, arg0: 0, arg1: 0 }
}

/// Interprets the kernel's reply to the time query: the success
/// payload is the current tick counter, an error code is passed
/// through.
pub fn time_reply(reply: Result<u32, u32>) -> (r: Result<Ticks, u32>)
    ensures
        r == (match reply {
            Ok(t) => Result::<Ticks, u32>::Ok(Ticks(t)),
            Err(e) => Result::<Ticks, u32>::Err(e),
        }),
{
    match reply {
        Ok(t) => Ok(Ticks(t)),
        Err(e) => Err(e),
    }
}

/// Where the relative-sleep protocol stands. Each state (except
/// `Done`) names the syscall the driver loop must perform next; the
/// loop feeds the outcome back through [`sleep_step`].
#[derive(Copy, Clone, Debug, PartialEq, Eq)]
pub enum SleepState {
    /// Ask the driver for its tick frequency.
    QueryFrequency,
    /// Install the alarm upcall, targeting a fresh, empty observation
    /// cell; `ticks` is the converted deadline.
    Subscribing { ticks: u32 },
    /// Arm the alarm `ticks` ticks from now.
    Arming { ticks: u32 },
    /// Suspend until some upcall is delivered, then look at the
    /// observation cell.
    Waiting,
    /// Replace the subscription with a null one, then finish with
    /// `outcome`.
    Unsubscribing { outcome: Result<(), u32> },
    /// The protocol is over; the kernel holds no pointer to the
    /// observation cell.
    Done { outcome: Result<(), u32> },
}

/// What the kernel answered to the syscall that the current state
/// asked for.
#[derive(Copy, Clone, Debug, PartialEq, Eq)]
pub enum SleepEvent {
    /// Reply to a command: the success word, or an error code.
    CommandReply(Result<u32, u32>),
    /// Reply to installing the subscription.
    SubscribeReply(Result<(), u32>),
    /// A yield returned; `fired` says whether the observation cell was
    /// populated, that is whether the upcall delivered was our alarm.
    Wake { fired: bool },
    /// The subscription was replaced with a null one.
    Unsubscribed,
}

/// The syscall that the driver loop must perform to move the protocol
/// onward.
#[derive(Copy, Clone, Debug, PartialEq, Eq)]
pub enum SleepAction {
    /// Issue the command and feed back [`SleepEvent::CommandReply`].
    IssueCommand(CommandRequest),
    /// Install the alarm upcall on the given driver and subscribe
    /// slot, targeting the observation cell, and feed back
    /// [`SleepEvent::SubscribeReply`].
    InstallSubscription { driver: u32, slot: u32 },
    /// Yield until an upcall is delivered and feed back
    /// [`SleepEvent::Wake`].
    YieldWait,
    /// Install a null subscription on the given driver and slot and
    /// feed back [`SleepEvent::Unsubscribed`].
    RemoveSubscription { driver: u32, slot: u32 },
    /// Nothing is left to perform; the outcome is final.
    Finish(Result<(), u32>),
}

/// The next state of the sleep protocol: sleeping for the duration
/// `time`, standing at `state`, upon the kernel's `event`. An event
/// that cannot answer the state's own syscall changes nothing.
pub open spec fn sleep_step_spec<T: Convert>(time: T, state: SleepState, event: SleepEvent) -> SleepState {
    match (state, event) {
        (SleepState::QueryFrequency, SleepEvent::CommandReply(Ok(f))) => SleepState::Subscribing {
            ticks: time.ticks_at(Hz(f)),
        },
        (SleepState::QueryFrequency, SleepEvent::CommandReply(Err(e))) => SleepState::Done {
            outcome: Err(e),
        },
        (SleepState::Subscribing { ticks }, SleepEvent::SubscribeReply(Ok(_))) => SleepState::Arming {
            ticks,
        },
        (SleepState::Subscribing { .. }, SleepEvent::SubscribeReply(Err(e))) => SleepState::Done {
            outcome: Err(e),
        },
        (SleepState::Arming { .. }, SleepEvent::CommandReply(Ok(_))) => SleepState::Waiting,
        (SleepState::Arming { .. }, SleepEvent::CommandReply(Err(e))) => SleepState::Unsubscribing {
            outcome: Err(e),
        },
        (SleepState::Waiting, SleepEvent::Wake { fired }) => if fired {
            SleepState::Unsubscribing { outcome: Ok(()) }
        } else {
            SleepState::Waiting
        },
        (SleepState::Unsubscribing { outcome }, SleepEvent::Unsubscribed) => SleepState::Done {
            outcome,
        },
        (s, _) => s,
    }
}

/// Moves the sleep protocol one step onward. The frequency reply is
/// converted to a deadline with [`Convert::to_ticks`]; everything else
/// is routing: errors are passed through, and every path that has a
/// subscription installed finishes only through
/// [`SleepState::Unsubscribing`].
pub fn sleep_step<T: Convert + Copy>(time: T, state: SleepState, event: SleepEvent) -> (next: SleepState)
    ensures
        next == sleep_step_spec(time, state, event),
{
    match (state, event) {
        (SleepState::QueryFrequency, SleepEvent::CommandReply(Ok(f))) => {
            let ticks = time.to_ticks(Hz(f));
            SleepState::Subscribing { ticks: ticks.0 }
        },
        (SleepState::QueryFrequency, SleepEvent::CommandReply(Err(e))) => SleepState::Done {
            outcome: Err(e),
        },
        (SleepState::Subscribing { ticks }, SleepEvent::SubscribeReply(Ok(_))) => SleepState::Arming {
            ticks,
        },
        (SleepState::Subscribing { .. }, SleepEvent::SubscribeReply(Err(e))) => SleepState::Done {
            outcome: Err(e),
        },
        (SleepState::Arming { .. }, SleepEvent::CommandReply(Ok(_))) => SleepState::Waiting,
        (SleepState::Arming { .. }, SleepEvent::CommandReply(Err(e))) => SleepState::Unsubscribing {
            outcome: Err(e),
        },
        (SleepState::Waiting, SleepEvent::Wake { fired }) => if fired {
            SleepState::Unsubscribing { outcome: Ok(()) }
        } else {
            SleepState::Waiting
        },
        (SleepState::Unsubscribing { outcome }, SleepEvent::Unsubscribed) => SleepState::Done {
            outcome,
        },
        (s, _) => s,
    }
}

/// The syscall owed in `state`.
pub open spec fn sleep_action_spec(state: SleepState) -> SleepAction {
    match state {
        SleepState::QueryFrequency => SleepAction::IssueCommand(
            CommandRequest { driver: DRIVER_NUM, command_id: COMMAND_FREQUENCY, arg0: 0, arg1: 0 },
        ),
        SleepState::Subscribing { .. } => SleepAction::InstallSubscription {
            driver: DRIVER_NUM,
            slot: SUBSCRIBE_CALLBACK,
        },
        SleepState::Arming { ticks } => SleepAction::IssueCommand(
            CommandRequest {
                driver: DRIVER_NUM,
                command_id: COMMAND_SET_RELATIVE,
                arg0: ticks,
                arg1: 0,
            },
        ),
        SleepState::Waiting => SleepAction::YieldWait,
        SleepState::Unsubscribing { .. } => SleepAction::RemoveSubscription {
            driver: DRIVER_NUM,
            slot: SUBSCRIBE_CALLBACK,
        },
        SleepState::Done { outcome } => SleepAction::Finish(outcome),
    }
}

/// Names the syscall that the driver loop must perform in `state`: the
/// frequency query first, then the subscription, then arming the alarm
/// with the converted tick count, then yielding until the upcall
/// fires, and a null subscription before anything is final.
pub fn sleep_action(state: SleepState) -> (a: SleepAction)
    ensures
        a == sleep_action_spec(state),
{
    match state {
        SleepState::QueryFrequency => SleepAction::IssueCommand(
            CommandRequest { driver: DRIVER_NUM, command_id: COMMAND_FREQUENCY, arg0: 0, arg1: 0 },
        ),
        SleepState::Subscribing { .. } => SleepAction::InstallSubscription {
            driver: DRIVER_NUM,
            slot: SUBSCRIBE_CALLBACK,
        },
        SleepState::Arming { ticks } => SleepAction::IssueCommand(
            CommandRequest {
                driver: DRIVER_NUM,
                command_id: COMMAND_SET_RELATIVE,
                arg0: ticks,
                arg1: 0,
            },
        ),
        SleepState::Waiting => SleepAction::YieldWait,
        SleepState::Unsubscribing { .. } => SleepAction::RemoveSubscription {
            driver: DRIVER_NUM,
            slot: SUBSCRIBE_CALLBACK,
        },
        SleepState::Done { outcome } => SleepAction::Finish(outcome),
    }
}

/// The state in which every sleep begins.
pub fn sleep_start() -> (s: SleepState)
    ensures
        s == SleepState::QueryFrequency,
{
    SleepState::QueryFrequency
}

/// Whether the kernel holds a pointer to the observation cell in
/// `state`, when the protocol has been driven faithfully from
/// [`SleepState::QueryFrequency`].
pub open spec fn subscription_installed(state: SleepState) -> bool {
    match state {
        SleepState::Arming { .. } => true,
        SleepState::Waiting => true,
        SleepState::Unsubscribing { .. } => true,
        _ => false,
    }
}

/// Whether `event` can answer the syscall that [`sleep_action_spec`]
/// owes in `state`. A faithful driver loop only ever feeds fitting
/// events.
pub open spec fn event_fits(state: SleepState, event: SleepEvent) -> bool {
    match (state, event) {
        (SleepState::QueryFrequency, SleepEvent::CommandReply(_)) => true,
        (SleepState::Subscribing { .. }, SleepEvent::SubscribeReply(_)) => true,
        (SleepState::Arming { .. }, SleepEvent::CommandReply(_)) => true,
        (SleepState::Waiting, SleepEvent::Wake { .. }) => true,
        (SleepState::Unsubscribing { .. }, SleepEvent::Unsubscribed) => true,
        _ => false,
    }
}

/// The kernel's subscription slot after the driver loop performs the
/// syscall owed in `state` and observes `event`: a successful
/// subscribe fills it, a null subscribe empties it, nothing else
/// touches it.
pub open spec fn slot_after(installed: bool, state: SleepState, event: SleepEvent) -> bool {
    match (state, event) {
        (SleepState::Subscribing { .. }, SleepEvent::SubscribeReply(Ok(_))) => true,
        (SleepState::Unsubscribing { .. }, SleepEvent::Unsubscribed) => false,
        _ => installed,
    }
}

/// Scope cleanup: a protocol state tracks the kernel's subscription
/// slot exactly, and the slot is empty whenever the protocol is over.
/// So on every path -- success, an arm failure, or a subscribe that
/// never succeeded -- `sleep_for` ends with no subscription registered
/// and the kernel holding no pointer to the observation cell.
pub proof fn lemma_scope_cleanup<T: Convert>(time: T, installed: bool, state: SleepState, event: SleepEvent)
    requires
        event_fits(state, event),
        installed == subscription_installed(state),
    ensures
        slot_after(installed, state, event) == subscription_installed(
            sleep_step_spec(time, state, event),
        ),
        sleep_step_spec(time, state, event) is Done ==> !slot_after(installed, state, event),
{
}

/// Yield-loop robustness: a wake that did not populate the observation
/// cell leaves the protocol waiting. A spurious upcall never ends the
/// sleep.
pub proof fn lemma_spurious_wake_keeps_waiting<T: Convert>(time: T)
    ensures
        sleep_step_spec(time, SleepState::Waiting, SleepEvent::Wake { fired: false })
            == SleepState::Waiting,
{
}

/// Error propagation: whichever syscall of the protocol fails, its
/// error code reaches the final outcome verbatim, directly where no
/// subscription is installed, and through the unsubscribe step where
/// one is.
pub proof fn lemma_error_passed_through<T: Convert>(time: T, e: u32)
    ensures
        sleep_step_spec(time, SleepState::QueryFrequency, SleepEvent::CommandReply(Err(e)))
            == (SleepState::Done { outcome: Result::<(), u32>::Err(e) }),
        forall|t: u32|
            sleep_step_spec(
                time,
                SleepState::Subscribing { ticks: t },
                SleepEvent::SubscribeReply(Err(e)),
            ) == (SleepState::Done { outcome: Result::<(), u32>::Err(e) }),
        forall|t: u32|
            sleep_step_spec(
                time,
                SleepState::Arming { ticks: t },
                SleepEvent::CommandReply(Err(e)),
            ) == (SleepState::Unsubscribing { outcome: Result::<(), u32>::Err(e) }),
        sleep_step_spec(
            time,
            SleepState::Unsubscribing { outcome: Result::<(), u32>::Err(e) },
            SleepEvent::Unsubscribed,
        ) == (SleepState::Done { outcome: Result::<(), u32>::Err(e) }),
{
}

} // verus!
