//! The decisions of the source element while it runs: what to do with each
//! MQTT message, and when its wait loop ends. The caller performs each
//! action and reports back what it saw.
use vstd::prelude::*;
use crate::element::ElementStreamFormat;
use crate::text::{payload_text, utf8_lossy};

verus! {

/// Where the wait loop stands.
#[derive(Clone, Copy, Debug, PartialEq, Eq, Structural)]
pub enum RunState {
    /// About to look at the run flag.
    AwaitFlag,
    /// About to take the next message from the input channel.
    AwaitInput,
    /// Finished: the MQTT client is to be shut down.
    Stopped,
}

/// What the caller saw.
#[derive(Debug)]
pub enum RunEvent {
    /// The run flag, alive or not.
    Flag(bool),
    /// What the input channel gave: a message, or `None` where receiving failed.
    Input(Option<ElementStreamFormat>),
}

/// What the caller is to do next.
#[derive(Clone, Copy, Debug, PartialEq, Eq, Structural)]
pub enum RunAction {
    CheckFlag,
    ReceiveInput,
    Shutdown,
    Nothing,
}

/// Whether an event tells the loop to end.
pub open spec fn is_end_data(event: RunEvent) -> bool {
    event matches RunEvent::Input(Some(ElementStreamFormat::EndDataMessage(_)))
}

/// One step of the wait loop.
pub open spec fn spec_step(state: RunState, has_input: bool, event: RunEvent) -> (RunState, RunAction) {
    match state {
        RunState::AwaitFlag => match event {
            RunEvent::Flag(alive) => if !alive {
                (RunState::Stopped, RunAction::Shutdown)
            } else if has_input {
                (RunState::AwaitInput, RunAction::ReceiveInput)
            } else {
                (RunState::AwaitFlag, RunAction::CheckFlag)
            },
            RunEvent::Input(_) => (RunState::AwaitFlag, RunAction::CheckFlag),
        },
        RunState::AwaitInput => match event {
            RunEvent::Input(_) => if is_end_data(event) {
                (RunState::Stopped, RunAction::Shutdown)
            } else {
                (RunState::AwaitFlag, RunAction::CheckFlag)
            },
            RunEvent::Flag(_) => (RunState::AwaitInput, RunAction::ReceiveInput),
        },
        RunState::Stopped => (RunState::Stopped, RunAction::Nothing),
    }
}

/// Where the loop begins, and its first action.
pub fn start() -> (r: (RunState, RunAction))
    ensures
        r == (RunState::AwaitFlag, RunAction::CheckFlag),
{
    (RunState::AwaitFlag, RunAction::CheckFlag)
}

/// The next state and action, given what the caller saw. `has_input` says
/// whether the element has an input channel; without one the loop only
/// watches the run flag. An event that does not answer the pending action
/// repeats that action.
pub fn step(state: RunState, has_input: bool, event: &RunEvent) -> (r: (RunState, RunAction))
    ensures
        r == spec_step(state, has_input, *event),
        state == RunState::AwaitFlag && *event == RunEvent::Flag(false) ==> r == (RunState::Stopped, RunAction::Shutdown),
        state == RunState::AwaitFlag && *event == RunEvent::Flag(true) ==> r == (if has_input {
            (RunState::AwaitInput, RunAction::ReceiveInput)
        } else {
            (RunState::AwaitFlag, RunAction::CheckFlag)
        }),
        state == RunState::AwaitInput && (*event matches RunEvent::Input(Some(ElementStreamFormat::EndDataMessage(_))))
            ==> r == (RunState::Stopped, RunAction::Shutdown),
        state == RunState::AwaitInput && (*event is Input) && !(*event matches RunEvent::Input(
            Some(ElementStreamFormat::EndDataMessage(_)),
        )) ==> r == (RunState::AwaitFlag, RunAction::CheckFlag),
        state == RunState::AwaitFlag && (*event is Input) ==> r == (RunState::AwaitFlag, RunAction::CheckFlag),
        state == RunState::AwaitInput && (*event is Flag) ==> r == (RunState::AwaitInput, RunAction::ReceiveInput),
        state == RunState::Stopped ==> r == (RunState::Stopped, RunAction::Nothing),
{
    match state {
        RunState::AwaitFlag => match event {
            RunEvent::Flag(alive) => {
                if !*alive {
                    (RunState::Stopped, RunAction::Shutdown)
                } else if has_input {
                    (RunState::AwaitInput, RunAction::ReceiveInput)
                } else {
                    (RunState::AwaitFlag, RunAction::CheckFlag)
                }
            },
            RunEvent::Input(_) => (RunState::AwaitFlag, RunAction::CheckFlag),
        },
        RunState::AwaitInput => match event {
            RunEvent::Input(Some(ElementStreamFormat::EndDataMessage(_))) => (RunState::Stopped, RunAction::Shutdown),
            RunEvent::Input(_) => (RunState::AwaitFlag, RunAction::CheckFlag),
            RunEvent::Flag(_) => (RunState::AwaitInput, RunAction::ReceiveInput),
        },
        RunState::Stopped => (RunState::Stopped, RunAction::Nothing),
    }
}

/// The state after a sequence of events, starting from `state`.
pub open spec fn run_events(state: RunState, has_input: bool, events: Seq<RunEvent>) -> RunState
    decreases events.len(),
{
    if events.len() == 0 {
        state
    } else {
        run_events(spec_step(state, has_input, events[0]).0, has_input, events.drop_first())
    }
}

/// Any end-of-data message on the input, whatever its id, ends the loop and
/// shuts the client down.
pub proof fn lemma_end_data_stops(has_input: bool, id: u64)
    ensures
        spec_step(RunState::AwaitInput, has_input, RunEvent::Input(Some(ElementStreamFormat::EndDataMessage(id))))
            == (RunState::Stopped, RunAction::Shutdown),
{
}

/// After any input that is not end-of-data (a message of another kind, or a
/// failed receive) the loop goes back to the run flag: the flag is looked at
/// between any two reads of the input channel.
pub proof fn lemma_flag_checked_between_reads(has_input: bool, received: Option<ElementStreamFormat>)
    requires
        !(received matches Some(ElementStreamFormat::EndDataMessage(_))),
    ensures
        spec_step(RunState::AwaitInput, has_input, RunEvent::Input(received)) == (RunState::AwaitFlag, RunAction::CheckFlag),
{
}

/// A dead run flag ends the loop and shuts the client down; a live one leads
/// to a read of the input channel where the element has one, and to another
/// look at the flag where it has none.
pub proof fn lemma_flag_decides(has_input: bool, alive: bool)
    ensures
        !alive ==> spec_step(RunState::AwaitFlag, has_input, RunEvent::Flag(alive)) == (RunState::Stopped, RunAction::Shutdown),
        alive && has_input ==> spec_step(RunState::AwaitFlag, has_input, RunEvent::Flag(alive)) == (RunState::AwaitInput, RunAction::ReceiveInput),
        alive && !has_input ==> spec_step(RunState::AwaitFlag, has_input, RunEvent::Flag(alive)) == (RunState::AwaitFlag, RunAction::CheckFlag),
{
}

/// Once stopped, the loop stays stopped and asks for nothing more.
pub proof fn lemma_stopped_is_final(has_input: bool, event: RunEvent)
    ensures
        spec_step(RunState::Stopped, has_input, event) == (RunState::Stopped, RunAction::Nothing),
{
}

/// The client is shut down exactly when the loop comes to an end, and the
/// loop ends only on a dead run flag or on an end-of-data message.
pub proof fn lemma_shutdown_iff_stopping(state: RunState, has_input: bool, event: RunEvent)
    ensures
        (spec_step(state, has_input, event).1 == RunAction::Shutdown) <==> (state != RunState::Stopped
            && spec_step(state, has_input, event).0 == RunState::Stopped),
        state != RunState::Stopped && spec_step(state, has_input, event).0 == RunState::Stopped ==> (
            (state == RunState::AwaitFlag && event == RunEvent::Flag(false))
            || (state == RunState::AwaitInput && is_end_data(event))),
{
}

/// The input channel is read only by an element that has one: a loop that
/// starts out waiting on the flag never waits on input without it.
pub proof fn lemma_receive_needs_input(state: RunState, has_input: bool, event: RunEvent)
    requires
        state == RunState::AwaitInput ==> has_input,
    ensures
        spec_step(state, has_input, event).0 == RunState::AwaitInput ==> has_input,
        spec_step(state, has_input, event).1 == RunAction::ReceiveInput ==> has_input,
{
}

/// A loop that is never shown a dead flag nor an end-of-data message keeps
/// running, however many events it sees.
pub proof fn lemma_runs_until_told(state: RunState, has_input: bool, events: Seq<RunEvent>)
    requires
        state != RunState::Stopped,
        forall|i: int| 0 <= i < events.len() ==> events[i] != RunEvent::Flag(false) && !is_end_data(#[trigger] events[i]),
    ensures
        run_events(state, has_input, events) != RunState::Stopped,
    decreases events.len(),
{
    if events.len() > 0 {
        let e = events[0];
        assert(e != RunEvent::Flag(false) && !is_end_data(e));
        let rest = events.drop_first();
        assert forall|i: int| 0 <= i < rest.len() implies rest[i] != RunEvent::Flag(false) && !is_end_data(#[trigger] rest[i]) by {
            assert(rest[i] == events[i + 1]);
        }
        lemma_runs_until_told(spec_step(state, has_input, e).0, has_input, rest);
    }
}

/// What the element makes of an MQTT message's payload: where it has an
/// output channel, a string message with id 0 that holds the payload as text;
/// without one, nothing.
pub fn on_message(payload: &[u8], has_output: bool) -> (r: Option<ElementStreamFormat>)
    ensures
        r is Some <==> has_output,
        r matches Some(m) ==> (m matches ElementStreamFormat::StringMessage(id, v) && id == 0 && v@.len() == 1 && v@[0]@
            == utf8_lossy(payload@)),
{
    if has_output {
        let s = payload_text(payload);
        let mut v: Vec<String> = Vec::new();
        v.push(s);
        Some(ElementStreamFormat::StringMessage(0, v))
    } else {
        None
    }
}

} // verus!
