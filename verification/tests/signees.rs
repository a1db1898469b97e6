use active_tx::{Key, Signees};
use activeledger::key::{EllipticCurve, RSA};

fn name_of(key: &Key) -> String {
    match key {
        Key::Ec(key) => key.name.clone(),
        Key::Rsa(key) => key.name.clone(),
    }
}

#[test]
fn new_registry_is_empty() {
    assert!(Signees::new().get().is_empty());
}

#[test]
fn add_keeps_the_order_and_the_keys() {
    let mut signees = Signees::new();
    signees
        .add(Key::Ec(EllipticCurve::new("first key").unwrap()), "stream 1")
        .add(Key::Rsa(RSA::new("second key").unwrap()), "stream 2");
    let all = signees.get();
    assert_eq!(all.len(), 2);
    assert_eq!(all[0].streamid, "stream 1");
    assert_eq!(name_of(&all[0].key), "first key");
    assert!(matches!(all[0].key, Key::Ec(_)));
    assert_eq!(all[1].streamid, "stream 2");
    assert_eq!(name_of(&all[1].key), "second key");
    assert!(matches!(all[1].key, Key::Rsa(_)));
}

#[test]
fn add_keeps_a_stream_id_that_is_there_already() {
    let mut signees = Signees::new();
    signees.add(Key::Ec(EllipticCurve::new("a").unwrap()), "same");
    signees.add(Key::Ec(EllipticCurve::new("b").unwrap()), "same");
    let all = signees.get();
    assert_eq!(all.len(), 2);
    assert_eq!(all[0].streamid, "same");
    assert_eq!(all[1].streamid, "same");
    assert_eq!(name_of(&all[0].key), "a");
    assert_eq!(name_of(&all[1].key), "b");
}

#[test]
fn add_selfsign_files_a_key_under_its_own_name() {
    let mut signees = Signees::new();
    signees
        .add_selfsign(Key::Ec(EllipticCurve::new("ec name").unwrap()))
        .add_selfsign(Key::Rsa(RSA::new("rsa name").unwrap()));
    let all = signees.get();
    assert_eq!(all.len(), 2);
    assert_eq!(all[0].streamid, "ec name");
    assert_eq!(name_of(&all[0].key), "ec name");
    assert_eq!(all[1].streamid, "rsa name");
    assert_eq!(name_of(&all[1].key), "rsa name");
}

#[test]
fn get_returns_a_copy() {
    let key = EllipticCurve::new("k").unwrap();
    let pem = key.get_pem().unwrap();
    let mut signees = Signees::new();
    signees.add(Key::Ec(key), "s");
    let mut first = signees.get();
    first.clear();
    let second = signees.get();
    assert_eq!(second.len(), 1);
    match &second[0].key {
        Key::Ec(copy) => {
            let copy_pem = copy.get_pem().unwrap();
            assert_eq!(copy_pem.private, pem.private);
            assert_eq!(copy_pem.public, pem.public);
        }
        Key::Rsa(_) => panic!("the key changed its kind"),
    }
    let copy = signees.clone();
    assert_eq!(copy.get().len(), 1);
    assert_eq!(copy.get()[0].streamid, "s");
}
