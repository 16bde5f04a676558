//! What the window shows: the connection to DCS and the aircraft being flown,
//! and how the messages of the worker change them.
use crate::dcs::Aircraft;
use vstd::prelude::*;

verus! {

/// Whether the client reaches the DCS gRPC server.
#[derive(Debug, Clone, Copy, PartialEq, Eq, Structural)]
pub enum ConnectionState {
    Disconnected,
    Connected,
}

/// A change that the worker asks the window to show.
#[derive(Debug, Clone, Copy, PartialEq, Eq, Structural)]
pub enum Message {
    SetConnectionState(ConnectionState),
    SetAircraftType(Aircraft),
}

/// What the window shows.
#[derive(Debug, Clone, Copy, PartialEq, Eq, Structural)]
pub struct GuiState {
    pub connection_state: ConnectionState,
    pub aircraft_type: Aircraft,
}

/// The state after the window has taken in `message`.
pub open spec fn state_after(state: GuiState, message: Message) -> GuiState {
    match message {
        Message::SetConnectionState(connection_state) => GuiState { connection_state, ..state },
        Message::SetAircraftType(aircraft_type) => GuiState { aircraft_type, ..state },
    }
}

/// The state after the window has taken in `messages`, first to last.
pub open spec fn state_after_all(state: GuiState, messages: Seq<Message>) -> GuiState
    decreases messages.len(),
{
    if messages.len() == 0 {
        state
    } else {
        state_after(state_after_all(state, messages.drop_last()), messages.last())
    }
}

/// The label of the connection line for a state of the connection.
pub open spec fn connection_text(connected: bool) -> Seq<char> {
    if connected {
        "Connected"@
    } else {
        "Disconnected"@
    }
}

/// A message about the connection sets the connection and leaves the aircraft
/// as it was.
pub proof fn lemma_connection_message_keeps_aircraft(state: GuiState, connection: ConnectionState)
    ensures
        state_after(state, Message::SetConnectionState(connection)).connection_state == connection,
        state_after(state, Message::SetConnectionState(connection)).aircraft_type == state.aircraft_type,
{
}

/// A message about the aircraft sets the aircraft and leaves the connection as
/// it was.
pub proof fn lemma_aircraft_message_keeps_connection(state: GuiState, aircraft: Aircraft)
    ensures
        state_after(state, Message::SetAircraftType(aircraft)).aircraft_type == aircraft,
        state_after(state, Message::SetAircraftType(aircraft)).connection_state == state.connection_state,
{
}

/// Taking in the same message twice shows what taking it in once shows.
pub proof fn lemma_message_idempotent(state: GuiState, message: Message)
    ensures
        state_after(state_after(state, message), message) == state_after(state, message),
{
}

/// An empty batch changes nothing.
pub proof fn lemma_empty_batch(state: GuiState)
    ensures
        state_after_all(state, Seq::empty()) == state,
{
}

/// A batch that ends with an aircraft message shows that aircraft, whatever
/// came before and whatever the connection, and the connection that the rest of
/// the batch left.
pub proof fn lemma_batch_ending_with_aircraft(state: GuiState, messages: Seq<Message>, aircraft: Aircraft)
    ensures
        state_after_all(state, messages.push(Message::SetAircraftType(aircraft))) == (GuiState {
            connection_state: state_after_all(state, messages).connection_state,
            aircraft_type: aircraft,
        }),
{
    assert(messages.push(Message::SetAircraftType(aircraft)).drop_last() =~= messages);
}

/// A batch that ends with a connection message shows that connection, and the
/// aircraft that the rest of the batch left.
pub proof fn lemma_batch_ending_with_connection(state: GuiState, messages: Seq<Message>, connection: ConnectionState)
    ensures
        state_after_all(state, messages.push(Message::SetConnectionState(connection))) == (GuiState {
            connection_state: connection,
            aircraft_type: state_after_all(state, messages).aircraft_type,
        }),
{
    assert(messages.push(Message::SetConnectionState(connection)).drop_last() =~= messages);
}

/// Taking in messages in two batches, as two frames do, shows what taking them
/// in as one batch shows.
pub proof fn lemma_batches_compose(state: GuiState, first: Seq<Message>, second: Seq<Message>)
    ensures
        state_after_all(state_after_all(state, first), second) == state_after_all(state, first + second),
    decreases second.len(),
{
    if second.len() == 0 {
        assert(first + second =~= first);
    } else {
        lemma_batches_compose(state, first, second.drop_last());
        assert((first + second).drop_last() =~= first + second.drop_last());
    }
}

impl GuiState {
    /// Whether the window shows a connection to DCS.
    pub open spec fn connected(self) -> bool {
        self.connection_state == ConnectionState::Connected
    }

    /// Takes in one message of the worker.
    pub fn handle_message(&mut self, message: Message)
        ensures
            *final(self) == state_after(*old(self), message),
    {
        match message {
            Message::SetConnectionState(state) => {
                self.connection_state = state;
            },
            Message::SetAircraftType(aircraft_type) => {
                self.aircraft_type = aircraft_type;
            },
        }
    }

    /// Takes in the messages that the worker has sent since the last frame,
    /// oldest first.
    pub fn handle_messages(&mut self, messages: Vec<Message>)
        ensures
            *final(self) == state_after_all(*old(self), messages@),
    {
        let ghost start = *self;
        let n = messages.len();
        let mut i: usize = 0;
        while i < n
            invariant
                n == messages.len(),
                0 <= i <= n,
                *self == state_after_all(start, messages@.take(i as int)),
            decreases n - i,
        {
            assert(messages@.take(i + 1).drop_last() =~= messages@.take(i as int));
            self.handle_message(messages[i]);
            i = i + 1;
        }
        assert(messages@.take(n as int) =~= messages@);
    }

    /// Returns whether the window shows a connection to DCS.
    pub fn is_connected(&self) -> (connected: bool)
        ensures
            connected == self.connected(),
    {
        match self.connection_state {
            ConnectionState::Connected => true,
            ConnectionState::Disconnected => false,
        }
    }

    /// Returns the label of the connection line of the window.
    pub fn connection_label(&self) -> (label: &'static str)
        ensures
            label@ == connection_text(self.connected()),
    {
        if self.is_connected() {
            "Connected"
        } else {
            "Disconnected"
        }
    }

    /// Accepts a message for the window and, as it stands, leaves the state as
    /// it was.
    pub fn send_message(&mut self, message: Message)
        ensures
            *final(self) == *old(self),
    {
    }
}

impl Default for GuiState {
    /// A window that shows no connection and no known aircraft.
    fn default() -> (state: GuiState)
        ensures
            state == (GuiState { connection_state: ConnectionState::Disconnected, aircraft_type: Aircraft::Unknown }),
    {
        GuiState { connection_state: ConnectionState::Disconnected, aircraft_type: Aircraft::Unknown }
    }
}

} // verus!
