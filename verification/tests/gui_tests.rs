use dtc_client::dcs::Aircraft;
use dtc_client::gui::{ConnectionState, GuiState, Message};

fn state(connection_state: ConnectionState, aircraft_type: Aircraft) -> GuiState {
    GuiState { connection_state, aircraft_type }
}

#[test]
fn default_shows_nothing_known() {
    let s = GuiState::default();
    assert_eq!(s, state(ConnectionState::Disconnected, Aircraft::Unknown));
    assert!(!s.is_connected());
    assert_eq!(s.connection_label(), "Disconnected");
}

#[test]
fn connection_message_sets_connection_only() {
    let mut s = state(ConnectionState::Disconnected, Aircraft::AH_64D);
    s.handle_message(Message::SetConnectionState(ConnectionState::Connected));
    assert_eq!(s, state(ConnectionState::Connected, Aircraft::AH_64D));
    assert!(s.is_connected());
    assert_eq!(s.connection_label(), "Connected");
}

#[test]
fn aircraft_message_sets_aircraft_only() {
    let mut s = state(ConnectionState::Connected, Aircraft::Unknown);
    s.handle_message(Message::SetAircraftType(Aircraft::F_16Cb50));
    assert_eq!(s, state(ConnectionState::Connected, Aircraft::F_16Cb50));
}

#[test]
fn same_message_twice_is_same_as_once() {
    let message = Message::SetAircraftType(Aircraft::FA_18C);
    let mut once = state(ConnectionState::Disconnected, Aircraft::Unknown);
    once.handle_message(message);
    let mut twice = once;
    twice.handle_message(message);
    assert_eq!(once, twice);
}

#[test]
fn messages_are_taken_in_order() {
    let mut s = GuiState::default();
    s.handle_messages(vec![
        Message::SetConnectionState(ConnectionState::Connected),
        Message::SetAircraftType(Aircraft::F_16Cb50),
        Message::SetConnectionState(ConnectionState::Disconnected),
        Message::SetAircraftType(Aircraft::AH_64D),
    ]);
    assert_eq!(s, state(ConnectionState::Disconnected, Aircraft::AH_64D));
}

#[test]
fn no_messages_change_nothing() {
    let mut s = state(ConnectionState::Connected, Aircraft::FA_18C);
    s.handle_messages(Vec::new());
    assert_eq!(s, state(ConnectionState::Connected, Aircraft::FA_18C));
}

#[test]
fn two_batches_show_what_one_batch_shows() {
    let first = vec![
        Message::SetAircraftType(Aircraft::F_16Cb50),
        Message::SetConnectionState(ConnectionState::Connected),
    ];
    let second = vec![Message::SetAircraftType(Aircraft::Unknown)];
    let mut split = GuiState::default();
    split.handle_messages(first.clone());
    split.handle_messages(second.clone());
    let mut joined = GuiState::default();
    let mut all = first;
    all.extend(second);
    joined.handle_messages(all);
    assert_eq!(split, joined);
}

#[test]
fn send_message_leaves_state() {
    let mut s = state(ConnectionState::Connected, Aircraft::F_16Cb50);
    s.send_message(Message::SetConnectionState(ConnectionState::Disconnected));
    assert_eq!(s, state(ConnectionState::Connected, Aircraft::F_16Cb50));
}
