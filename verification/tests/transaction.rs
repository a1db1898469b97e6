use active_tx::{
    Key, PacketBuilder, PacketData, PacketValue, Signees, TransactionBuilder, TxBuilderError,
};
use activeledger::key::{EllipticCurve, Pkcs8pem, RSA};
use serde_json::Value;

fn text(value: &str) -> PacketValue {
    PacketBuilder::from_string(value)
}

fn object(members: Vec<(&str, PacketValue)>) -> PacketValue {
    PacketValue::Object(members.into_iter().map(|(k, v)| (k.to_string(), v)).collect())
}

fn built(value: PacketValue) -> PacketData {
    PacketBuilder::new(value).build().unwrap()
}

fn parse(json: &str) -> Value {
    serde_json::from_str(json).unwrap()
}

fn pair(id: &str, signature: &str) -> (String, String) {
    (id.to_string(), signature.to_string())
}

fn signee(streamid: &str, key: Key) -> Signees {
    let mut signees = Signees::new();
    signees.add(key, streamid);
    signees
}

fn broken_ec(name: &str) -> EllipticCurve {
    EllipticCurve::create_from_pem(name, &Pkcs8pem::new("not a key", "not a key"))
}

fn broken_rsa(name: &str) -> RSA {
    RSA::create_from_pem(name, &Pkcs8pem::new("not a key", "not a key"))
}

#[test]
fn tx_min() {
    let input = object(vec![("input", text("data"))]);

    let built_input = PacketBuilder::new(input).build().unwrap();

    let mut transaction_builder = TransactionBuilder::new("namespace", "contract");

    let streamid = "test";
    let key = Key::Ec(EllipticCurve::new(streamid).unwrap());

    let mut signees = Signees::new();
    signees.add(key, streamid);

    let tx = transaction_builder
        .input(built_input)
        .unwrap()
        .build(signees)
        .unwrap();

    println!("\nMin:\n{}\n", tx);

    let json = parse(&tx);
    assert_eq!(
        json["$tx"],
        parse(r#"{"$contract": "contract", "$namespace": "namespace", "$i": {"input": "data"}}"#)
    );
    assert_eq!(json.as_object().unwrap().len(), 2);
    assert_eq!(json["$sigs"].as_object().unwrap().len(), 1);
    assert!(!json["$sigs"]["test"].as_str().unwrap().is_empty());
}

#[test]
fn tx_all() {
    let input = object(vec![("input", text("data"))]);
    let output = object(vec![("output", text("data"))]);
    let readonly = object(vec![("readonly", text("data"))]);

    let streamid = "test";
    let key = EllipticCurve::new(streamid).unwrap();

    let streamid2 = "test2";
    let key2 = EllipticCurve::new(streamid2).unwrap();

    let mut signees = Signees::new();
    signees.add(Key::Ec(key), streamid);
    signees.add(Key::Ec(key2), streamid2);

    let built_input = PacketBuilder::new(input).build().unwrap();
    let built_output = PacketBuilder::new(output).build().unwrap();
    let built_readonly = PacketBuilder::new(readonly).build().unwrap();

    let mut transaction_builder = TransactionBuilder::new("namespace", "contract");

    let tx = transaction_builder
        .entry("entry")
        .territoriality("terry")
        .selfsign()
        .input(built_input)
        .unwrap()
        .output(built_output)
        .unwrap()
        .readonly(built_readonly)
        .unwrap()
        .build(signees)
        .unwrap();

    println!("\nAll:\n{}\n", tx);

    let json = parse(&tx);
    assert_eq!(
        json["$tx"],
        parse(
            r#"{"$contract": "contract", "$namespace": "namespace", "$entry": "entry",
                "$i": {"input": "data"}, "$o": {"output": "data"}, "$r": {"readonly": "data"}}"#
        )
    );
    assert_eq!(json["$territoriality"], Value::String("terry".to_string()));
    assert_eq!(json["$selfsign"], Value::String("true".to_string()));
    assert_eq!(json.as_object().unwrap().len(), 4);
    let sigs = json["$sigs"].as_object().unwrap();
    assert_eq!(sigs.len(), 2);
    assert!(!sigs["test"].as_str().unwrap().is_empty());
    assert!(!sigs["test2"].as_str().unwrap().is_empty());
}

#[test]
fn build_returns_the_signed_envelope() {
    let key = EllipticCurve::new("s1").unwrap();
    let input = built(object(vec![("s1", object(vec![("a", text("b"))]))]));
    let mut builder = TransactionBuilder::new("ns", "c");
    let tx = builder
        .input(input)
        .unwrap()
        .build(signee("s1", Key::Ec(key.clone())))
        .unwrap();

    let json = parse(&tx);
    assert_eq!(json["$tx"]["$contract"], Value::String("c".to_string()));
    assert_eq!(json["$tx"]["$namespace"], Value::String("ns".to_string()));
    assert_eq!(json["$tx"]["$i"], parse(r#"{"s1": {"a": "b"}}"#));
    assert_eq!(json["$tx"].as_object().unwrap().len(), 3);
    let signature = json["$sigs"]["s1"].as_str().unwrap();
    assert!(!signature.is_empty());

    // the signature is one over the text of the `$tx` object
    let signed_text = r#"{"$contract":"c","$i":{"s1":{"a":"b"}},"$namespace":"ns"}"#;
    assert_eq!(json["$tx"].to_string(), signed_text);
    assert!(key.verify(signed_text, signature).unwrap());
    assert!(!key.verify("something else", signature).unwrap_or(false));

    assert_eq!(builder.get().unwrap(), tx);
    assert_eq!(builder.get_json().unwrap(), json);
}

#[test]
fn build_signs_with_an_rsa_key() {
    let key = RSA::new("rsa stream").unwrap();
    let mut builder = TransactionBuilder::new("ns", "c");
    let tx = builder
        .input(built(object(vec![("k", text("v"))])))
        .unwrap()
        .build(signee("rsa stream", Key::Rsa(key.clone())))
        .unwrap();
    let json = parse(&tx);
    let signature = json["$sigs"]["rsa stream"].as_str().unwrap();
    assert!(key.verify(&json["$tx"].to_string(), signature).unwrap());
}

#[test]
fn build_with_makes_the_envelope_from_given_signatures() {
    let mut builder = TransactionBuilder::new("ns", "c");
    builder
        .input(built(object(vec![("s1", object(vec![("a", text("b"))]))])))
        .unwrap();
    let tx = builder.build_with(&vec![pair("s1", "c2ln")]).unwrap();
    assert_eq!(
        tx,
        r#"{"$sigs":{"s1":"c2ln"},"$tx":{"$contract":"c","$i":{"s1":{"a":"b"}},"$namespace":"ns"}}"#
    );
    assert_eq!(builder.get().unwrap(), tx);
    assert_eq!(builder.get_json().unwrap(), parse(&tx));
}

#[test]
fn build_with_places_every_field_that_is_set() {
    let mut builder = TransactionBuilder::new_blank();
    builder
        .namespace("space")
        .contract("deal")
        .entry("start")
        .territoriality("here")
        .selfsign()
        .input(built(object(vec![("in", text("1"))])))
        .unwrap()
        .output(built(object(vec![("out", text("2"))])))
        .unwrap()
        .readonly(built(object(vec![("ro", text("3"))])))
        .unwrap();
    let tx = builder.build_with(&vec![pair("b", "sig b"), pair("a", "sig a")]).unwrap();
    assert_eq!(
        tx,
        concat_all(&[
            r#"{"$selfsign":"true","$sigs":{"a":"sig a","b":"sig b"},"$territoriality":"here","#,
            r#""$tx":{"$contract":"deal","$entry":"start","$i":{"in":"1"},"$namespace":"space","#,
            r#""$o":{"out":"2"},"$r":{"ro":"3"}}}"#,
        ])
    );
}

fn concat_all(parts: &[&str]) -> String {
    let mut all = String::new();
    for part in parts {
        all.push_str(part);
    }
    all
}

#[test]
fn optional_fields_appear_only_when_set() {
    let mut builder = TransactionBuilder::new("ns", "c");
    builder
        .input(built(object(vec![])))
        .unwrap()
        .output(built(object(vec![("o", text("1"))])))
        .unwrap();
    let json = parse(&builder.build_with(&vec![]).unwrap());
    let tx = json["$tx"].as_object().unwrap();
    assert!(tx.contains_key("$o"));
    assert!(!tx.contains_key("$entry"));
    assert!(!tx.contains_key("$r"));
    let envelope = json.as_object().unwrap();
    assert!(!envelope.contains_key("$territoriality"));
    assert!(!envelope.contains_key("$selfsign"));
}

#[test]
fn build_without_signees_has_empty_sigs() {
    let mut builder = TransactionBuilder::new("ns", "c");
    builder.input(built(object(vec![("a", text("b"))]))).unwrap();
    let tx = builder.build(Signees::new()).unwrap();
    assert_eq!(tx, r#"{"$sigs":{},"$tx":{"$contract":"c","$i":{"a":"b"},"$namespace":"ns"}}"#);
}

#[test]
fn setters_replace_an_earlier_value() {
    let mut builder = TransactionBuilder::new("old ns", "old c");
    builder
        .namespace("ns")
        .contract("c")
        .entry("old entry")
        .entry("entry")
        .territoriality("old")
        .territoriality("new")
        .selfsign()
        .selfsign()
        .input(built(object(vec![("first", text("1"))])))
        .unwrap()
        .input(built(object(vec![("second", text("2"))])))
        .unwrap();
    let tx = builder.build_with(&vec![]).unwrap();
    assert_eq!(
        tx,
        concat_all(&[
            r#"{"$selfsign":"true","$sigs":{},"$territoriality":"new","#,
            r#""$tx":{"$contract":"c","$entry":"entry","$i":{"second":"2"},"$namespace":"ns"}}"#,
        ])
    );
}

#[test]
fn input_may_be_json_of_any_kind() {
    let json = parse(r#"{"n": 1, "b": true, "z": null}"#);
    let data = PacketBuilder::new_json(json).build().unwrap();
    let mut builder = TransactionBuilder::new("ns", "c");
    builder.input(data).unwrap();
    let tx = builder.build_with(&vec![]).unwrap();
    assert_eq!(
        tx,
        r#"{"$sigs":{},"$tx":{"$contract":"c","$i":{"b":true,"n":1,"z":null},"$namespace":"ns"}}"#
    );
}

#[test]
fn build_fails_without_contract() {
    let mut builder = TransactionBuilder::new_blank();
    builder
        .namespace("ns")
        .input(built(object(vec![("a", text("b"))])))
        .unwrap();
    let key = Key::Ec(EllipticCurve::new("s").unwrap());
    assert_eq!(
        builder.build(signee("s", key)).unwrap_err(),
        TxBuilderError::TxBuildError(5006)
    );
    assert_eq!(
        builder.build_with(&vec![]).unwrap_err(),
        TxBuilderError::TxBuildError(5006)
    );
}

#[test]
fn build_fails_without_namespace() {
    let mut builder = TransactionBuilder::new_blank();
    builder
        .contract("c")
        .input(built(object(vec![("a", text("b"))])))
        .unwrap();
    let key = Key::Ec(EllipticCurve::new("s").unwrap());
    assert_eq!(
        builder.build(signee("s", key)).unwrap_err(),
        TxBuilderError::TxBuildError(5007)
    );
    assert_eq!(
        builder.build_with(&vec![]).unwrap_err(),
        TxBuilderError::TxBuildError(5007)
    );
}

#[test]
fn build_fails_without_input() {
    let mut builder = TransactionBuilder::new("ns", "c");
    let key = Key::Ec(EllipticCurve::new("s").unwrap());
    assert_eq!(
        builder.build(signee("s", key)).unwrap_err(),
        TxBuilderError::TxBuildError(5008)
    );
    assert_eq!(
        builder.build_with(&vec![]).unwrap_err(),
        TxBuilderError::TxBuildError(5008)
    );
}

#[test]
fn missing_fields_are_reported_contract_first() {
    let mut builder = TransactionBuilder::new_blank();
    assert_eq!(builder.build_with(&vec![]).unwrap_err(), TxBuilderError::TxBuildError(5006));
    builder.contract("c");
    assert_eq!(builder.build_with(&vec![]).unwrap_err(), TxBuilderError::TxBuildError(5007));
    builder.namespace("ns");
    assert_eq!(builder.build_with(&vec![]).unwrap_err(), TxBuilderError::TxBuildError(5008));
    // a failed build can be repeated once the field is there
    builder.input(built(object(vec![]))).unwrap();
    assert_eq!(
        builder.build_with(&vec![]).unwrap(),
        r#"{"$sigs":{},"$tx":{"$contract":"c","$i":{},"$namespace":"ns"}}"#
    );
}

#[test]
fn get_fails_before_a_build() {
    let mut builder = TransactionBuilder::new("ns", "c");
    assert_eq!(builder.get().unwrap_err(), TxBuilderError::TxBuildError(5000));
    assert_eq!(builder.get_json().unwrap_err(), TxBuilderError::TxBuildError(5000));
    builder.input(built(object(vec![]))).unwrap();
    assert_eq!(builder.get().unwrap_err(), TxBuilderError::TxBuildError(5000));
    let _ = TransactionBuilder::new_blank().build_with(&vec![]);
    assert_eq!(
        TransactionBuilder::new_blank().get().unwrap_err(),
        TxBuilderError::TxBuildError(5000)
    );
}

#[test]
fn get_returns_the_same_each_time() {
    let mut builder = TransactionBuilder::new("ns", "c");
    builder.input(built(object(vec![("a", text("b"))]))).unwrap();
    let key = Key::Ec(EllipticCurve::new("s").unwrap());
    let tx = builder.build(signee("s", key)).unwrap();
    let first = builder.get().unwrap();
    let first_json = builder.get_json().unwrap();
    let second = builder.get().unwrap();
    let second_json = builder.get_json().unwrap();
    assert_eq!(first, tx);
    assert_eq!(first, second);
    assert_eq!(first_json, second_json);
    assert_eq!(first_json, parse(&first));
}

#[test]
fn sign_fails_before_a_build() {
    let mut builder = TransactionBuilder::new("ns", "c");
    builder.input(built(object(vec![("a", text("b"))]))).unwrap();
    let key = Key::Ec(EllipticCurve::new("s").unwrap());
    assert_eq!(
        builder.sign(signee("s", key)).err().unwrap(),
        TxBuilderError::TxBuildError(5000)
    );
    assert_eq!(
        builder.sign_with(&vec![pair("s", "sig")]).err().unwrap(),
        TxBuilderError::TxBuildError(5000)
    );
    assert_eq!(builder.get().unwrap_err(), TxBuilderError::TxBuildError(5000));
}

#[test]
fn sign_adds_a_signature_and_keeps_the_others() {
    let key1 = EllipticCurve::new("one").unwrap();
    let key2 = EllipticCurve::new("two").unwrap();
    let mut builder = TransactionBuilder::new("ns", "c");
    builder.input(built(object(vec![("a", text("b"))]))).unwrap();
    let before = parse(&builder.build(signee("s1", Key::Ec(key1.clone()))).unwrap());
    let first = before["$sigs"]["s1"].as_str().unwrap().to_string();

    builder.sign(signee("s2", Key::Ec(key2.clone()))).unwrap();
    let after = builder.get_json().unwrap();

    let sigs = after["$sigs"].as_object().unwrap();
    assert_eq!(sigs.len(), 2);
    assert_eq!(sigs["s1"].as_str().unwrap(), first);
    assert_eq!(after["$tx"], before["$tx"]);
    let signed_text = after["$tx"].to_string();
    assert!(key1.verify(&signed_text, sigs["s1"].as_str().unwrap()).unwrap());
    assert!(key2.verify(&signed_text, sigs["s2"].as_str().unwrap()).unwrap());
    assert_eq!(after.as_object().unwrap().len(), 2);
}

#[test]
fn sign_with_files_signatures_in_order() {
    let mut builder = TransactionBuilder::new("ns", "c");
    builder
        .territoriality("t")
        .input(built(object(vec![("a", text("b"))])))
        .unwrap();
    builder.build_with(&vec![pair("s1", "one"), pair("s2", "two")]).unwrap();
    builder
        .sign_with(&vec![pair("s3", "three"), pair("s1", "uno"), pair("s3", "tres")])
        .unwrap();
    assert_eq!(
        builder.get().unwrap(),
        concat_all(&[
            r#"{"$sigs":{"s1":"uno","s2":"two","s3":"tres"},"$territoriality":"t","#,
            r#""$tx":{"$contract":"c","$i":{"a":"b"},"$namespace":"ns"}}"#,
        ])
    );
}

#[test]
fn later_signature_for_a_stream_replaces_the_earlier() {
    let mut builder = TransactionBuilder::new("ns", "c");
    builder.input(built(object(vec![]))).unwrap();
    let tx = builder.build_with(&vec![pair("s", "first"), pair("s", "second")]).unwrap();
    assert_eq!(
        tx,
        r#"{"$sigs":{"s":"second"},"$tx":{"$contract":"c","$i":{},"$namespace":"ns"}}"#
    );
}

#[test]
fn sign_signs_the_body_that_was_built() {
    let key = EllipticCurve::new("k").unwrap();
    let mut builder = TransactionBuilder::new("ns", "c");
    builder.input(built(object(vec![("a", text("b"))]))).unwrap();
    builder.build_with(&vec![]).unwrap();
    // fields set after the build are not part of the body that gets signed
    builder.entry("late").contract("other");
    builder.sign(signee("s", Key::Ec(key.clone()))).unwrap();
    let json = builder.get_json().unwrap();
    let signed_text = r#"{"$contract":"c","$i":{"a":"b"},"$namespace":"ns"}"#;
    assert_eq!(json["$tx"].to_string(), signed_text);
    assert!(key.verify(signed_text, json["$sigs"]["s"].as_str().unwrap()).unwrap());
}

#[test]
fn signatures_are_kept_over_a_second_build() {
    let mut builder = TransactionBuilder::new("ns", "c");
    builder.input(built(object(vec![]))).unwrap();
    builder.build_with(&vec![pair("s1", "one")]).unwrap();
    builder.entry("e");
    let tx = builder.build_with(&vec![pair("s2", "two")]).unwrap();
    assert_eq!(
        tx,
        concat_all(&[
            r#"{"$sigs":{"s1":"one","s2":"two"},"#,
            r#""$tx":{"$contract":"c","$entry":"e","$i":{},"$namespace":"ns"}}"#,
        ])
    );
}

#[test]
fn a_key_that_cannot_sign_fails_the_build_and_changes_nothing() {
    let good = EllipticCurve::new("good").unwrap();
    let mut builder = TransactionBuilder::new("ns", "c");
    builder.input(built(object(vec![("a", text("b"))]))).unwrap();

    let mut signees = Signees::new();
    signees.add(Key::Ec(good.clone()), "good");
    signees.add(Key::Ec(broken_ec("bad")), "bad");
    assert_eq!(builder.build(signees).unwrap_err(), TxBuilderError::KeyError(7000));
    assert_eq!(builder.get().unwrap_err(), TxBuilderError::TxBuildError(5000));
    assert_eq!(
        builder.sign_with(&vec![]).err().unwrap(),
        TxBuilderError::TxBuildError(5000)
    );

    let json = parse(&builder.build(signee("other", Key::Ec(good))).unwrap());
    let sigs = json["$sigs"].as_object().unwrap();
    assert_eq!(sigs.len(), 1);
    assert!(sigs.contains_key("other"));
}

#[test]
fn an_rsa_key_that_cannot_sign_fails_with_its_own_error() {
    let mut builder = TransactionBuilder::new("ns", "c");
    builder.input(built(object(vec![]))).unwrap();
    assert_eq!(
        builder.build(signee("s", Key::Rsa(broken_rsa("bad")))).unwrap_err(),
        TxBuilderError::KeyError(7001)
    );
}

#[test]
fn a_key_that_cannot_sign_fails_sign_and_changes_nothing() {
    let good = EllipticCurve::new("good").unwrap();
    let mut builder = TransactionBuilder::new("ns", "c");
    builder.input(built(object(vec![]))).unwrap();
    let tx = builder.build_with(&vec![pair("s1", "one")]).unwrap();

    let mut signees = Signees::new();
    signees.add(Key::Ec(good), "good");
    signees.add(Key::Rsa(broken_rsa("bad")), "bad");
    assert_eq!(builder.sign(signees).err().unwrap(), TxBuilderError::KeyError(7001));
    assert_eq!(builder.get().unwrap(), tx);
    builder.sign_with(&vec![]).unwrap();
    assert_eq!(builder.get().unwrap(), tx);
}
