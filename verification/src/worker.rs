//! The decisions of the background worker, which polls DCS for the aircraft
//! being flown and tells the window what it found.
use crate::client::ClientError;
use crate::dcs::{aircraft_by_name, spec_aircraft_by_name};
use crate::gui::{state_after, state_after_all, ConnectionState, GuiState, Message};
use vstd::prelude::*;

verus! {

/// How long the worker waits between two polls, in milliseconds.
pub const POLL_INTERVAL_MS: u64 = 500;

/// The messages that the worker sends to the window after one poll.
pub open spec fn poll_messages(result: Result<Seq<char>, ()>) -> Seq<Message> {
    match result {
        Ok(name) => seq![
            Message::SetConnectionState(ConnectionState::Connected),
            Message::SetAircraftType(spec_aircraft_by_name(name)),
        ],
        Err(_) => seq![Message::SetConnectionState(ConnectionState::Disconnected)],
    }
}

/// The messages that the worker sends over a run of polls, first to last.
pub open spec fn run_messages(results: Seq<Result<Seq<char>, ()>>) -> Seq<Message>
    decreases results.len(),
{
    if results.len() == 0 {
        Seq::empty()
    } else {
        run_messages(results.drop_last()) + poll_messages(results.last())
    }
}

/// Over any run of polls, every message about the aircraft comes right after a
/// message that the connection is up; the run never starts with one.
pub proof fn lemma_aircraft_follows_connection(results: Seq<Result<Seq<char>, ()>>)
    ensures
        forall|i: int|
            0 <= i < run_messages(results).len() && (#[trigger] run_messages(results)[i]) is SetAircraftType
                ==> 0 < i && run_messages(results)[i - 1] == Message::SetConnectionState(ConnectionState::Connected),
    decreases results.len(),
{
    if results.len() > 0 {
        let before = results.drop_last();
        lemma_aircraft_follows_connection(before);
        let earlier = run_messages(before);
        let batch = poll_messages(results.last());
        let all = run_messages(results);
        assert(all == earlier + batch);
        assert forall|i: int| 0 <= i < all.len() && (#[trigger] all[i]) is SetAircraftType implies 0 < i
            && all[i - 1] == Message::SetConnectionState(ConnectionState::Connected) by {
            if i < earlier.len() {
                assert(all[i] == earlier[i]);
                assert(all[i - 1] == earlier[i - 1]);
            } else {
                assert(all[i] == batch[i - earlier.len()]);
                assert(i - earlier.len() == 1);
                assert(all[i - 1] == batch[0]);
            }
        }
    }
}

/// What the worker does next.
#[derive(Debug, Clone, Copy, PartialEq, Eq, Structural)]
pub enum WorkerAction {
    /// The window has closed: the worker ends.
    Stop,
    /// Ask DCS once for the aircraft name, tell the window, then wait.
    PollAircraftName,
}

/// Decides the worker's next step from whether the window has closed: the
/// worker ends exactly then, and otherwise polls once.
pub fn next_action(done: bool) -> (action: WorkerAction)
    ensures
        action == (if done { WorkerAction::Stop } else { WorkerAction::PollAircraftName }),
{
    if done {
        WorkerAction::Stop
    } else {
        WorkerAction::PollAircraftName
    }
}

/// The outcome of a poll with the name taken by its view and the error forgotten.
pub open spec fn poll_view(result: Result<String, ClientError>) -> Result<Seq<char>, ()> {
    match result {
        Ok(name) => Ok(name@),
        Err(_) => Err(()),
    }
}

/// After the window has taken in the messages of a poll that got an answer, it
/// shows a connection and the aircraft that the answer names; after a poll that
/// failed, it shows no connection and still the aircraft it showed before.
pub proof fn lemma_poll_outcome_shown(state: GuiState, result: Result<Seq<char>, ()>)
    ensures
        result matches Ok(name) ==> state_after_all(state, poll_messages(result)) == (GuiState {
            connection_state: ConnectionState::Connected,
            aircraft_type: spec_aircraft_by_name(name),
        }),
        result is Err ==> state_after_all(state, poll_messages(result)) == (GuiState {
            connection_state: ConnectionState::Disconnected,
            aircraft_type: state.aircraft_type,
        }),
{
    let messages = poll_messages(result);
    assert(messages.len() > 0);
    let rest = messages.drop_last();
    assert(state_after_all(state, messages) == state_after(state_after_all(state, rest), messages.last()));
    match result {
        Ok(name) => {
            assert(rest.len() == 1);
            assert(rest.drop_last() =~= Seq::<Message>::empty());
            assert(state_after_all(state, rest.drop_last()) == state);
            assert(state_after_all(state, rest) == state_after(state, rest.last()));
            assert(rest.last() == Message::SetConnectionState(ConnectionState::Connected));
            assert(messages.last() == Message::SetAircraftType(spec_aircraft_by_name(name)));
        },
        Err(_) => {
            assert(rest =~= Seq::<Message>::empty());
            assert(messages.last() == Message::SetConnectionState(ConnectionState::Disconnected));
        },
    }
}

/// Decides what the window is told after asking DCS for the aircraft name:
/// an answer means a connection and the aircraft it names, a failure means
/// that the connection is lost.
pub fn messages_for_poll(result: Result<String, ClientError>) -> (messages: Vec<Message>)
    ensures
        messages@ == poll_messages(poll_view(result)),
{
    let mut messages: Vec<Message> = Vec::new();
    match result {
        Ok(name) => {
            let aircraft = aircraft_by_name(name);
            messages.push(Message::SetConnectionState(ConnectionState::Connected));
            messages.push(Message::SetAircraftType(aircraft));
        },
        Err(_) => {
            messages.push(Message::SetConnectionState(ConnectionState::Disconnected));
        },
    }
    proof {
        assert(messages@ =~= poll_messages(poll_view(result)));
    }
    messages
}

} // verus!
