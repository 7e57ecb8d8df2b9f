use postal_rs::interest::DetailsInterest;
use postal_rs::json::render_json;

#[test]
fn zero_flags_render_omits_expansions() {
    let i = DetailsInterest::new(42);
    assert_eq!(render_json(&i.to_json()), "{\"id\":42}".to_owned());
}

#[test]
fn set_flags_render_in_declared_order() {
    let i = DetailsInterest::new(42).with_details().with_status();
    assert_eq!(
        render_json(&i.to_json()),
        "{\"_expansions\":[\"status\",\"details\"],\"id\":42}".to_owned()
    );
}

#[test]
fn one_flag_renders_exactly_once() {
    let i = DetailsInterest::new(1).with_headers();
    assert_eq!(
        render_json(&i.to_json()),
        "{\"_expansions\":[\"headers\"],\"id\":1}".to_owned()
    );
}

#[test]
fn attachments_flag_is_never_rendered() {
    let mut i = DetailsInterest::new(3).with_status();
    i.attachments = Some(());
    let text = render_json(&i.to_json());
    assert!(!text.contains("attachments"));
    assert_eq!(text, "{\"_expansions\":[\"status\"],\"id\":3}".to_owned());
}
