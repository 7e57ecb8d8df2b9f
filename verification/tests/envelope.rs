use postal_rs::envelope::{
    check_responce, check_status, handle_message_deliveries, handle_message_details, handle_send,
    Responce, ResponceError, SendResult,
};
use postal_rs::error::PostalError;
use postal_rs::json::JsonValue;

#[test]
fn send_success_envelope_yields_one_result_per_recipient() {
    let body = "{\"status\":\"success\",\"time\":1.0,\"flags\":{},\"data\":{\"message_id\":\"m1\",\
                \"messages\":{\"a@example.com\":{\"id\":7,\"token\":\"t\"}}}}";
    let r = handle_send(200, body).expect("a well-formed success envelope decodes");
    assert_eq!(r, vec![SendResult { to: "a@example.com".to_owned(), id: 7 }]);
}

#[test]
fn send_success_envelope_with_two_recipients() {
    let body = "{\"status\":\"success\",\"time\":1.0,\"flags\":{},\"data\":{\"message_id\":\"m1\",\
                \"messages\":{\"a@example.com\":{\"id\":7,\"token\":\"t\"},\
                \"b@example.com\":{\"id\":8,\"token\":\"u\"}}}}";
    let r = handle_send(200, body).expect("a well-formed success envelope decodes");
    assert_eq!(
        r,
        vec![
            SendResult { to: "a@example.com".to_owned(), id: 7 },
            SendResult { to: "b@example.com".to_owned(), id: 8 },
        ]
    );
}

#[test]
fn error_envelope_yields_service_error() {
    let body = "{\"status\":\"error\",\"time\":1.0,\"flags\":{},\"data\":{\
                \"code\":\"InvalidRecipients\",\"message\":\"bad to\"}}";
    let r = handle_send(200, body);
    assert_eq!(
        r,
        Err(PostalError::ServiceError {
            code: "InvalidRecipients".to_owned(),
            message: "bad to".to_owned(),
        })
    );
    let d = handle_message_details(200, body);
    assert_eq!(
        d.unwrap_err(),
        PostalError::ServiceError {
            code: "InvalidRecipients".to_owned(),
            message: "bad to".to_owned(),
        }
    );
}

#[test]
fn status_503_is_service_unavailable_whatever_the_body() {
    assert_eq!(handle_send(503, "complete garbage"), Err(PostalError::ServiceUnavailable));
    assert_eq!(handle_send(503, "{}"), Err(PostalError::ServiceUnavailable));
}

#[test]
fn status_500_is_internal_server_error_whatever_the_body() {
    assert_eq!(handle_send(500, "also garbage"), Err(PostalError::InternalServerError));
    assert_eq!(
        handle_message_deliveries(500, "{\"status\":\"success\"}").unwrap_err(),
        PostalError::InternalServerError
    );
}

#[test]
fn redirect_statuses_expect_an_alternative_url() {
    assert_eq!(handle_send(301, ""), Err(PostalError::ExpectedAlternativeUrl));
    assert_eq!(handle_send(308, ""), Err(PostalError::ExpectedAlternativeUrl));
}

#[test]
fn undocumented_status_is_a_malformed_response() {
    assert_eq!(handle_send(404, ""), Err(PostalError::MalformedResponse));
    assert_eq!(handle_send(201, ""), Err(PostalError::MalformedResponse));
}

#[test]
fn parameter_error_envelope_fails_loudly() {
    let body = "{\"status\":\"parameterError\"}";
    assert_eq!(handle_send(200, body), Err(PostalError::MalformedResponse));
}

#[test]
fn unknown_status_tag_is_a_malformed_response() {
    let body = "{\"status\":\"partial\",\"time\":1.0,\"flags\":{},\"data\":{}}";
    assert_eq!(handle_send(200, body), Err(PostalError::MalformedResponse));
}

#[test]
fn unparsable_body_is_a_malformed_response() {
    assert_eq!(handle_send(200, "not json at all"), Err(PostalError::MalformedResponse));
}

#[test]
fn success_without_documented_payload_is_malformed_for_send() {
    let body = "{\"status\":\"success\",\"time\":1.0,\"flags\":{},\"data\":{\"other\":1}}";
    assert_eq!(handle_send(200, body), Err(PostalError::MalformedResponse));
}

#[test]
fn details_payload_is_handed_over_as_entries() {
    let body = "{\"status\":\"success\",\"time\":1.0,\"flags\":{},\"data\":{\
                \"id\":9,\"status\":\"Sent\"}}";
    let entries = handle_message_details(200, body).expect("an object payload decodes");
    assert_eq!(entries.len(), 2);
    assert_eq!(entries[0].0, "id".to_owned());
    assert!(matches!(entries[0].1, JsonValue::UInt(9)));
    assert_eq!(entries[1].0, "status".to_owned());
    assert!(matches!(&entries[1].1, JsonValue::Str(s) if s == "Sent"));
}

#[test]
fn deliveries_payload_is_one_record_per_delivery() {
    let body = "{\"status\":\"success\",\"time\":1.0,\"flags\":{},\"data\":[\
                {\"id\":1},{}]}";
    let records = handle_message_deliveries(200, body).expect("an array of objects decodes");
    assert_eq!(records.len(), 2);
    assert_eq!(records[0].len(), 1);
    assert_eq!(records[0][0].0, "id".to_owned());
    assert!(matches!(records[0][0].1, JsonValue::UInt(1)));
    assert!(records[1].is_empty());
}

#[test]
fn deliveries_payload_that_is_no_array_is_malformed() {
    let body = "{\"status\":\"success\",\"time\":1.0,\"flags\":{},\"data\":{}}";
    assert_eq!(handle_message_deliveries(200, body).unwrap_err(), PostalError::MalformedResponse);
}

#[test]
fn check_status_triage_table() {
    assert!(check_status(200).is_ok());
    assert_eq!(check_status(500), Err(PostalError::InternalServerError));
    assert_eq!(check_status(301), Err(PostalError::ExpectedAlternativeUrl));
    assert_eq!(check_status(308), Err(PostalError::ExpectedAlternativeUrl));
    assert_eq!(check_status(503), Err(PostalError::ServiceUnavailable));
    assert_eq!(check_status(418), Err(PostalError::MalformedResponse));
}

#[test]
fn check_responce_unwraps_each_shape() {
    let ok = check_responce(Responce::Success { data: JsonValue::Null });
    assert!(matches!(ok, Ok(JsonValue::Null)));
    let err = check_responce(Responce::Error {
        data: ResponceError { code: "C".to_owned(), message: "m".to_owned() },
    });
    assert_eq!(
        err.unwrap_err(),
        PostalError::ServiceError { code: "C".to_owned(), message: "m".to_owned() }
    );
    let param = check_responce(Responce::ParameterError);
    assert_eq!(param.unwrap_err(), PostalError::MalformedResponse);
}

#[test]
fn describe_names_each_error() {
    assert_eq!(
        PostalError::ServiceError { code: "C".to_owned(), message: "m".to_owned() }.describe(),
        "service error (C): m".to_owned()
    );
    assert_eq!(
        PostalError::Transport("timed out".to_owned()).describe(),
        "transport failure: timed out".to_owned()
    );
    assert_eq!(
        PostalError::InvalidAddress.describe(),
        "the address is not a valid absolute URL".to_owned()
    );
}
