use postal_rs::client::Client;
use postal_rs::error::PostalError;
use postal_rs::interest::DetailsInterest;
use postal_rs::message::{Message, RawMessage};

#[test]
fn a_text_that_is_no_url_is_rejected() {
    let r = Client::new("not a url", "token".to_owned());
    assert!(matches!(r, Err(PostalError::InvalidAddress)));
}

#[test]
fn an_absolute_url_is_accepted() {
    let r = Client::new("https://postal.example.com", "token".to_owned());
    assert!(r.is_ok());
}

#[test]
fn prepare_send_resolves_path_and_serializes_the_message() {
    let c = Client::new("https://postal.example.com", "api-token".to_owned()).unwrap();
    let m = Message::default().from("f@example.com".to_owned());
    let p = c.prepare_send(&m).expect("the send path joins onto an absolute base");
    assert_eq!(p.url, "https://postal.example.com/api/v1/send/message".to_owned());
    assert_eq!(p.token, "api-token".to_owned());
    assert_eq!(p.body, "{\"from\":\"f@example.com\"}".to_owned());
}

#[test]
fn prepare_send_raw_resolves_the_raw_path() {
    let c = Client::new("https://postal.example.com", "t".to_owned()).unwrap();
    let m = RawMessage::new(
        vec!["a@example.com".to_owned()],
        "f@example.com".to_owned(),
        "RGF0YQ==".to_owned(),
    );
    let p = c.prepare_send_raw(&m).expect("the raw path joins onto an absolute base");
    assert_eq!(p.url, "https://postal.example.com/api/v1/send/raw".to_owned());
    assert_eq!(
        p.body,
        "{\"data\":\"RGF0YQ==\",\"mail_from\":\"f@example.com\",\
         \"rcpt_to\":[\"a@example.com\"]}"
            .to_owned()
    );
}

#[test]
fn prepare_message_details_renders_the_interest() {
    let c = Client::new("https://postal.example.com", "t".to_owned()).unwrap();
    let i = DetailsInterest::new(42).with_status();
    let p = c.prepare_message_details(&i).expect("the details path joins");
    assert_eq!(p.url, "https://postal.example.com/api/v1/messages/message".to_owned());
    assert_eq!(p.body, "{\"_expansions\":[\"status\"],\"id\":42}".to_owned());
}

#[test]
fn prepare_message_deliveries_carries_the_hash() {
    let c = Client::new("https://postal.example.com", "t".to_owned()).unwrap();
    let p = c.prepare_message_deliveries(9).expect("the deliveries path joins");
    assert_eq!(p.url, "https://postal.example.com/api/v1/messages/deliveries".to_owned());
    assert_eq!(p.body, "{\"id\":9}".to_owned());
}

#[test]
fn a_base_that_carries_no_path_fails_the_join() {
    let c = Client::new("mailto:x@example.com", "t".to_owned()).unwrap();
    let r = c.prepare_message_deliveries(1);
    assert!(matches!(r, Err(PostalError::InvalidAddress)));
}
