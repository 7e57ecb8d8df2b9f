use postal_rs::json::{parse_json, render_json, JsonValue};

#[test]
fn parsing_reads_the_value_shape() {
    let v = parse_json("{\"a\":7,\"b\":[true,null,\"s\"]}").expect("well-formed JSON parses");
    match &v {
        JsonValue::Obj(o) => {
            assert_eq!(o.len(), 2);
            assert_eq!(o[0].0, "a".to_owned());
            assert!(matches!(o[0].1, JsonValue::UInt(7)));
            assert_eq!(o[1].0, "b".to_owned());
            match &o[1].1 {
                JsonValue::Arr(a) => {
                    assert!(matches!(a[0], JsonValue::Bool(true)));
                    assert!(matches!(a[1], JsonValue::Null));
                    assert!(matches!(&a[2], JsonValue::Str(s) if s == "s"));
                },
                _ => panic!("b is an array"),
            }
        },
        _ => panic!("the body is an object"),
    }
}

#[test]
fn parsing_rejects_what_is_no_json() {
    assert!(parse_json("{\"a\":").is_none());
    assert!(parse_json("").is_none());
}

#[test]
fn a_number_that_fits_no_u64_keeps_its_text() {
    let v = parse_json("1.5").expect("a lone number parses");
    assert!(matches!(&v, JsonValue::Num(t) if t == "1.5"));
    assert_eq!(render_json(&v), "1.5".to_owned());
}

#[test]
fn a_float_survives_a_decode_encode_cycle() {
    let v = parse_json("{\"time\":1.0,\"n\":-3}").expect("well-formed JSON parses");
    assert_eq!(render_json(&v), "{\"n\":-3,\"time\":1.0}".to_owned());
}

#[test]
fn duplicate_keeps_the_rendered_form() {
    let v = parse_json("{\"a\":[1,{\"b\":\"c\"}]}").expect("well-formed JSON parses");
    assert_eq!(render_json(&v.duplicate()), render_json(&v));
}
