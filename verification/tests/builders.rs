use postal_rs::message::{Message, RawMessage};
use postal_rs::interest::DetailsInterest;
use postal_rs::json::{render_json, JsonValue};

#[test]
fn message_default_has_every_field_absent() {
    let m = Message::default();
    assert!(m.to.is_none());
    assert!(m.cc.is_none());
    assert!(m.bcc.is_none());
    assert!(m.from.is_none());
    assert!(m.sender.is_none());
    assert!(m.subject.is_none());
    assert!(m.tag.is_none());
    assert!(m.reply_to.is_none());
    assert!(m.plain_body.is_none());
    assert!(m.html_body.is_none());
    assert!(m.attachments.is_none());
    assert!(m.headers.is_none());
    assert!(m.bounce.is_none());
}

#[test]
fn message_setters_set_exactly_one_field() {
    let m = Message::default()
        .to(vec!["example@gmail.com".to_owned()])
        .from("test@yourserver.io".to_owned())
        .subject("Hello World".to_owned())
        .text("A test message".to_owned())
        .html("<p>hi</p>".to_owned());
    assert_eq!(m.to, Some(vec!["example@gmail.com".to_owned()]));
    assert_eq!(m.from, Some("test@yourserver.io".to_owned()));
    assert_eq!(m.subject, Some("Hello World".to_owned()));
    assert_eq!(m.plain_body, Some("A test message".to_owned()));
    assert_eq!(m.html_body, Some("<p>hi</p>".to_owned()));
    assert!(m.cc.is_none());
    assert!(m.bcc.is_none());
    assert!(m.sender.is_none());
    assert!(m.tag.is_none());
    assert!(m.reply_to.is_none());
    assert!(m.attachments.is_none());
    assert!(m.headers.is_none());
    assert!(m.bounce.is_none());
}

#[test]
fn raw_message_new_keeps_fields_and_leaves_bounce_absent() {
    let r = RawMessage::new(
        vec!["a@example.com".to_owned(), "b@example.com".to_owned()],
        "sender@example.com".to_owned(),
        "QmFzZTY0".to_owned(),
    );
    assert_eq!(r.mail_from, "sender@example.com".to_owned());
    assert_eq!(r.rcpt_to, vec!["a@example.com".to_owned(), "b@example.com".to_owned()]);
    assert_eq!(r.data, "QmFzZTY0".to_owned());
    assert!(r.bounce.is_none());
}

#[test]
fn with_status_twice_renders_as_once() {
    let once = DetailsInterest::new(42).with_status();
    let twice = DetailsInterest::new(42).with_status().with_status();
    assert_eq!(render_json(&once.to_json()), render_json(&twice.to_json()));
}

#[test]
fn expansions_list_is_absent_with_zero_flags() {
    let i = DetailsInterest::new(7);
    assert!(i.build_expansions_list().is_none());
}

#[test]
fn expansions_list_keeps_declared_order() {
    let i = DetailsInterest::new(7).with_raw_message().with_status();
    let l = i.build_expansions_list().expect("two flags are set");
    assert_eq!(l.len(), 2);
    assert!(matches!(&l[0], JsonValue::Str(s) if s == "status"));
    assert!(matches!(&l[1], JsonValue::Str(s) if s == "raw_message"));
}

#[test]
fn expansions_list_holds_each_set_flag_once() {
    let i = DetailsInterest::new(7)
        .with_status()
        .with_details()
        .with_inspection()
        .with_plain_body()
        .with_html_body()
        .with_headers()
        .with_raw_message();
    let l = i.build_expansions_list().expect("all flags are set");
    let names: Vec<String> = l
        .iter()
        .map(|v| match v {
            JsonValue::Str(s) => s.clone(),
            _ => panic!("expansion entries are strings"),
        })
        .collect();
    assert_eq!(
        names,
        vec![
            "status".to_owned(),
            "details".to_owned(),
            "inspection".to_owned(),
            "plain_body".to_owned(),
            "html_body".to_owned(),
            "headers".to_owned(),
            "raw_message".to_owned(),
        ]
    );
}
