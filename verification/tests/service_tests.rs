use dtc_client::client::{self_data_from_json, ClientError};
use dtc_client::service::{eval_permission, mission_datetime};
use tonic::Code;

#[test]
fn mission_datetime_gives_the_text() {
    assert_eq!(mission_datetime(2022, 3, 4, 3661).unwrap(), "2022-03-04T01:01:01Z");
}

#[test]
fn mission_datetime_reports_internal_status() {
    let status = mission_datetime(2023, 2, 29, 0).unwrap_err();
    assert_eq!(status.code(), Code::Internal);
    assert_eq!(status.message(), "received invalid date: day was not in range");
    let status = mission_datetime(2022, 13, 1, 0).unwrap_err();
    assert_eq!(status.message(), "received invalid month: month was not in range");
    let status = mission_datetime(-1, 1, 1, 0).unwrap_err();
    assert_eq!(
        status.message(),
        "failed to format date as ISO 8601 string: The year component cannot be formatted into the requested format."
    );
}

#[test]
fn eval_permission_denies_when_disabled() {
    assert!(eval_permission(true).is_ok());
    let status = eval_permission(false).unwrap_err();
    assert_eq!(status.code(), Code::PermissionDenied);
    assert_eq!(status.message(), "eval operation is disabled");
}

#[test]
fn self_data_value_is_the_parsed_text() {
    let text = "{\"Name\":\"FA-18C_hornet\",\"LatLongAlt\":{\"Alt\":1200}}";
    let value = self_data_from_json(text).unwrap();
    assert_eq!(value, serde_json::from_str::<serde_json::Value>(text).unwrap());
    assert_ne!(value, serde_json::from_str::<serde_json::Value>("{}").unwrap());
    assert!(matches!(self_data_from_json("{,}"), Err(ClientError::Json(_))));
}
