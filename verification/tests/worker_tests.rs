use dtc_client::client::{aircraft_name_from_self_data, self_data_from_json, ClientError};
use dtc_client::dcs::Aircraft;
use dtc_client::gui::{ConnectionState, GuiState, Message};
use dtc_client::worker::{messages_for_poll, next_action, WorkerAction, POLL_INTERVAL_MS};

fn json_error() -> serde_json::Error {
    serde_json::from_str::<serde_json::Value>("{").unwrap_err()
}

#[test]
fn answered_poll_reports_connection_and_aircraft() {
    let messages = messages_for_poll(Ok(String::from("F-16C_50")));
    assert_eq!(
        messages,
        vec![
            Message::SetConnectionState(ConnectionState::Connected),
            Message::SetAircraftType(Aircraft::F_16Cb50),
        ]
    );
}

#[test]
fn answered_poll_with_other_name_reports_unknown_aircraft() {
    let messages = messages_for_poll(Ok(String::from("Su-25T")));
    assert_eq!(
        messages,
        vec![
            Message::SetConnectionState(ConnectionState::Connected),
            Message::SetAircraftType(Aircraft::Unknown),
        ]
    );
}

#[test]
fn failed_poll_reports_lost_connection() {
    let grpc = messages_for_poll(Err(ClientError::Grpc(tonic::Status::unavailable("down"))));
    assert_eq!(grpc, vec![Message::SetConnectionState(ConnectionState::Disconnected)]);
    let json = messages_for_poll(Err(ClientError::Json(json_error())));
    assert_eq!(json, vec![Message::SetConnectionState(ConnectionState::Disconnected)]);
}

#[test]
fn window_shows_outcome_of_poll() {
    let mut window = GuiState { connection_state: ConnectionState::Disconnected, aircraft_type: Aircraft::AH_64D };
    window.handle_messages(messages_for_poll(Ok(String::from("F-16C_50"))));
    assert_eq!(window, GuiState { connection_state: ConnectionState::Connected, aircraft_type: Aircraft::F_16Cb50 });
    window.handle_messages(messages_for_poll(Err(ClientError::Json(json_error()))));
    assert_eq!(window, GuiState { connection_state: ConnectionState::Disconnected, aircraft_type: Aircraft::F_16Cb50 });
}

#[test]
fn poll_interval_is_half_a_second() {
    assert_eq!(POLL_INTERVAL_MS, 500);
}

#[test]
fn aircraft_name_keeps_json_quotes() {
    let name = aircraft_name_from_self_data("{\"Name\":\"F-16C_50\",\"Country\":2}").unwrap();
    assert_eq!(name, "\"F-16C_50\"");
}

#[test]
fn aircraft_name_of_other_json_values() {
    assert_eq!(aircraft_name_from_self_data("{\"Country\":2}").unwrap(), "null");
    assert_eq!(aircraft_name_from_self_data("[1,2]").unwrap(), "null");
    assert_eq!(aircraft_name_from_self_data("{\"Name\":5}").unwrap(), "5");
    assert_eq!(aircraft_name_from_self_data("{\"Name\":{\"a\": true}}").unwrap(), "{\"a\":true}");
}

#[test]
fn invalid_self_data_is_a_json_error() {
    assert!(matches!(aircraft_name_from_self_data("{\"Name\":"), Err(ClientError::Json(_))));
    assert!(matches!(aircraft_name_from_self_data(""), Err(ClientError::Json(_))));
}

#[test]
fn quoted_name_is_not_recognised() {
    let name = aircraft_name_from_self_data("{\"Name\":\"F-16C_50\"}").unwrap();
    let messages = messages_for_poll(Ok(name));
    assert_eq!(messages[1], Message::SetAircraftType(Aircraft::Unknown));
}

#[test]
fn worker_stops_only_when_done() {
    assert_eq!(next_action(true), WorkerAction::Stop);
    assert_eq!(next_action(false), WorkerAction::PollAircraftName);
}

#[test]
fn aircraft_messages_follow_connection_over_a_run() {
    let mut sent: Vec<Message> = Vec::new();
    let results: Vec<Result<String, ClientError>> = vec![
        Err(ClientError::Json(json_error())),
        Ok(String::from("F-16C_50")),
        Ok(String::from("Su-25T")),
        Err(ClientError::Grpc(tonic::Status::unavailable("down"))),
        Ok(String::from("F-16C_50")),
    ];
    for result in results {
        sent.extend(messages_for_poll(result));
    }
    assert_eq!(sent.len(), 8);
    for (i, message) in sent.iter().enumerate() {
        if let Message::SetAircraftType(_) = message {
            assert!(i > 0);
            assert_eq!(sent[i - 1], Message::SetConnectionState(ConnectionState::Connected));
        }
    }
}

#[test]
fn self_data_parses_as_json_value() {
    let value = self_data_from_json("{\"Name\":\"F-16C_50\",\"Heading\":1}").unwrap();
    assert_eq!(value["Name"], serde_json::Value::String(String::from("F-16C_50")));
    assert!(matches!(self_data_from_json("{\"Name\""), Err(ClientError::Json(_))));
    assert!(self_data_from_json("null").is_ok());
}

#[test]
fn name_read_fails_exactly_where_self_data_parse_fails() {
    for text in ["{}", "{\"Name\":1}", "[", "", "nul", "\"x\""] {
        assert_eq!(self_data_from_json(text).is_ok(), aircraft_name_from_self_data(text).is_ok());
    }
}
