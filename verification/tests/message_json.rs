use postal_rs::json::{render_json, JsonValue};
use postal_rs::message::{message_from_json, Message};

#[test]
fn serialized_message_omits_absent_fields() {
    let m = Message::default()
        .from("f@example.com".to_owned())
        .subject("hello".to_owned());
    let text = render_json(&m.to_json());
    assert_eq!(text, "{\"from\":\"f@example.com\",\"subject\":\"hello\"}".to_owned());
    assert!(!text.contains("\"to\""));
    assert!(!text.contains("bounce"));
}

#[test]
fn empty_message_serializes_to_an_empty_object() {
    assert_eq!(render_json(&Message::default().to_json()), "{}".to_owned());
}

#[test]
fn full_message_round_trips_through_its_json_form() {
    let m = Message {
        to: Some(vec!["a@example.com".to_owned(), "b@example.com".to_owned()]),
        cc: Some(vec!["c@example.com".to_owned()]),
        bcc: Some(vec![]),
        from: Some("f@example.com".to_owned()),
        sender: Some("s@example.com".to_owned()),
        subject: Some("subject".to_owned()),
        tag: Some("tag".to_owned()),
        reply_to: Some("r@example.com".to_owned()),
        plain_body: Some("plain".to_owned()),
        html_body: Some("<b>html</b>".to_owned()),
        attachments: Some(vec![vec![0, 1, 255], vec![]]),
        headers: Some(12345),
        bounce: Some(true),
    };
    let back = message_from_json(&m.to_json()).expect("the serialized form decodes");
    assert_eq!(back, m);
}

#[test]
fn partial_message_round_trips_through_its_json_form() {
    let m = Message::default()
        .to(vec!["x@example.com".to_owned()])
        .text("body".to_owned());
    let back = message_from_json(&m.to_json()).expect("the serialized form decodes");
    assert_eq!(back, m);
}

#[test]
fn decoding_an_empty_object_yields_the_empty_message() {
    let v = JsonValue::Obj(vec![]);
    assert_eq!(message_from_json(&v), Some(Message::default()));
}

#[test]
fn decoding_a_wrongly_typed_field_fails() {
    let v = JsonValue::Obj(vec![("to".to_owned(), JsonValue::UInt(5))]);
    assert_eq!(message_from_json(&v), None);
    let w = JsonValue::Obj(vec![("bounce".to_owned(), JsonValue::Str("yes".to_owned()))]);
    assert_eq!(message_from_json(&w), None);
}

#[test]
fn decoding_anything_but_an_object_fails() {
    assert_eq!(message_from_json(&JsonValue::Null), None);
    assert_eq!(message_from_json(&JsonValue::Arr(vec![])), None);
}

#[test]
fn attachments_serialize_as_arrays_of_numbers() {
    let m = Message {
        attachments: Some(vec![vec![1, 2]]),
        ..Message::default()
    };
    assert_eq!(render_json(&m.to_json()), "{\"attachments\":[[1,2]]}".to_owned());
}
