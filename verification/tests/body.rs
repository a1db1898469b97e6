use active_tx::{TransactionBody, TxBuilderError};
use serde_json::Value;

fn parse(json: &str) -> Value {
    serde_json::from_str(json).unwrap()
}

fn string(text: &str) -> Value {
    Value::String(text.to_string())
}

#[test]
fn body_has_the_required_fields() {
    let mut body = TransactionBody::new(string("c"), string("ns"), parse(r#"{"a": "b"}"#));
    let json = body.build();
    assert_eq!(json, parse(r#"{"$contract": "c", "$namespace": "ns", "$i": {"a": "b"}}"#));
    assert_eq!(json.to_string(), r#"{"$contract":"c","$i":{"a":"b"},"$namespace":"ns"}"#);
    assert_eq!(body.get().unwrap(), json);
}

#[test]
fn body_has_the_optional_fields_that_were_added() {
    let mut body = TransactionBody::new(string("c"), string("ns"), parse("{}"));
    body.add("entry", string("e")).add("readonly", parse(r#"{"r": "1"}"#));
    let json = body.build();
    assert_eq!(
        json.to_string(),
        r#"{"$contract":"c","$entry":"e","$i":{},"$namespace":"ns","$r":{"r":"1"}}"#
    );
    body.add("output", parse(r#"{"o": "2"}"#));
    // what was built stays until the body is built again
    assert_eq!(body.get().unwrap(), json);
    let json = body.build();
    assert_eq!(
        json.to_string(),
        r#"{"$contract":"c","$entry":"e","$i":{},"$namespace":"ns","$o":{"o":"2"},"$r":{"r":"1"}}"#
    );
    assert_eq!(body.get().unwrap(), json);
}

#[test]
fn body_add_replaces_an_earlier_value() {
    let mut body = TransactionBody::new(string("c"), string("ns"), parse("{}"));
    body.add("entry", string("first")).add("entry", string("second"));
    assert_eq!(
        body.build().to_string(),
        r#"{"$contract":"c","$entry":"second","$i":{},"$namespace":"ns"}"#
    );
}

#[test]
fn body_does_not_look_at_the_shape_of_its_fields() {
    let mut body = TransactionBody::new(parse("1"), parse("[true]"), parse("null"));
    assert_eq!(
        body.build().to_string(),
        r#"{"$contract":1,"$i":null,"$namespace":[true]}"#
    );
}

#[test]
fn body_get_fails_before_build() {
    let mut body = TransactionBody::new(string("c"), string("ns"), parse("{}"));
    assert_eq!(body.get().unwrap_err(), TxBuilderError::TxBodyError(4000));
    body.add("entry", string("e"));
    assert_eq!(body.get().unwrap_err(), TxBuilderError::TxBodyError(4000));
}

#[test]
fn body_copy_holds_the_same() {
    let mut body = TransactionBody::new(string("c"), string("ns"), parse("{}"));
    body.add("output", parse(r#"{"o": "2"}"#));
    let mut unbuilt_copy = body.clone();
    assert_eq!(unbuilt_copy.get().unwrap_err(), TxBuilderError::TxBodyError(4000));
    let json = body.build();
    let mut copy = body.clone();
    assert_eq!(copy.get().unwrap(), json);
    assert_eq!(unbuilt_copy.build(), json);
}
