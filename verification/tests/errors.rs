use active_tx::{TxBuilderError, TxBuilderErrorHandler};

#[test]
fn build_error_descriptions() {
    assert_eq!(
        TxBuilderErrorHandler::get_build_error(&1000),
        "Error building the transaction packet"
    );
    assert_eq!(TxBuilderErrorHandler::get_build_error(&1001), "Unknown Error");
    assert_eq!(TxBuilderErrorHandler::get_build_error(&0), "Unknown Error");
}

#[test]
fn json_error_descriptions() {
    assert_eq!(TxBuilderErrorHandler::get_json_error(&2000), "Error converting array to JSON");
    assert_eq!(TxBuilderErrorHandler::get_json_error(&2001), "Error converting object to JSON");
    assert_eq!(TxBuilderErrorHandler::get_json_error(&2002), "Unknown Error");
}

#[test]
fn packet_error_descriptions() {
    assert_eq!(
        TxBuilderErrorHandler::get_packet_error(&3000),
        "Error getting string from packet data"
    );
    assert_eq!(
        TxBuilderErrorHandler::get_packet_error(&3001),
        "Error getting JSON from packet data"
    );
    assert_eq!(TxBuilderErrorHandler::get_packet_error(&2999), "Unknown Error");
}

#[test]
fn txbody_error_descriptions() {
    assert_eq!(TxBuilderErrorHandler::get_txbody_error(&4000), "No transaction body");
    assert_eq!(TxBuilderErrorHandler::get_txbody_error(&0), "Unknown Error");
}

#[test]
fn txbuild_error_descriptions() {
    let expected = [
        "No transaction data",
        "Error fetching input from PacketData",
        "Error fetching output from PacketData",
        "Error fetching readonly from PacketData",
        "No packet data to sign",
        "Packet data not built yet",
        "Contract not set",
        "Namespace not set",
        "Input not set",
    ];
    for (i, text) in expected.iter().enumerate() {
        let code = 5000 + i as u16;
        assert_eq!(TxBuilderErrorHandler::get_txbuild_error(&code), *text);
    }
    assert_eq!(TxBuilderErrorHandler::get_txbuild_error(&5009), "Unknown Error");
    assert_eq!(TxBuilderErrorHandler::get_txbuild_error(&4999), "Unknown Error");
}

#[test]
fn txgenerate_error_descriptions() {
    assert_eq!(TxBuilderErrorHandler::get_txgenerate_error(&6000), "Error generating RSA key");
    assert_eq!(
        TxBuilderErrorHandler::get_txgenerate_error(&6001),
        "Error generating Elliptic Curve key"
    );
    assert_eq!(TxBuilderErrorHandler::get_txgenerate_error(&6002), "Unknown Error");
}

#[test]
fn key_error_descriptions() {
    assert_eq!(
        TxBuilderErrorHandler::get_key_error(&7000),
        "Error signing data with Elliptic Curve key"
    );
    assert_eq!(TxBuilderErrorHandler::get_key_error(&7001), "Error signing data with RSA key");
    assert_eq!(TxBuilderErrorHandler::get_key_error(&7002), "Error getting keys PEM");
    assert_eq!(TxBuilderErrorHandler::get_key_error(&7003), "Unknown Error");
}

#[test]
fn errors_render_code_and_description() {
    assert_eq!(
        TxBuilderError::BuildError(1000).to_string(),
        " Error - 1000 : Error building the transaction packet"
    );
    assert_eq!(
        TxBuilderError::JsonError(2001).to_string(),
        " Error - 2001 : Error converting object to JSON"
    );
    assert_eq!(
        TxBuilderError::PacketError(3000).to_string(),
        " Error - 3000 : Error getting string from packet data"
    );
    assert_eq!(
        TxBuilderError::TxBodyError(4000).to_string(),
        " Error - 4000 : No transaction body"
    );
    assert_eq!(
        TxBuilderError::TxBuildError(5006).to_string(),
        " Error - 5006 : Contract not set"
    );
    assert_eq!(
        TxBuilderError::TxGenerateError(6001).to_string(),
        " Error - 6001 : Error generating Elliptic Curve key"
    );
    assert_eq!(
        TxBuilderError::KeyError(7002).to_string(),
        " Error - 7002 : Error getting keys PEM"
    );
}

#[test]
fn codes_render_in_decimal_without_leading_zeros() {
    assert_eq!(TxBuilderError::TxBodyError(0).to_string(), " Error - 0 : Unknown Error");
    assert_eq!(TxBuilderError::TxBodyError(7).to_string(), " Error - 7 : Unknown Error");
    assert_eq!(TxBuilderError::TxBodyError(10).to_string(), " Error - 10 : Unknown Error");
    assert_eq!(TxBuilderError::TxBodyError(409).to_string(), " Error - 409 : Unknown Error");
    assert_eq!(TxBuilderError::KeyError(65535).to_string(), " Error - 65535 : Unknown Error");
    for code in [1u16, 9, 11, 99, 100, 101, 999, 1234, 9999, 10000, 54321, 65534] {
        assert_eq!(
            TxBuilderError::BuildError(code).to_string(),
            format!(" Error - {} : Unknown Error", code)
        );
    }
}

#[test]
fn a_code_of_another_family_is_unknown() {
    assert_eq!(TxBuilderError::BuildError(5006).to_string(), " Error - 5006 : Unknown Error");
    assert_eq!(TxBuilderError::KeyError(1000).to_string(), " Error - 1000 : Unknown Error");
}

#[test]
fn errors_compare_by_family_and_code() {
    assert_eq!(TxBuilderError::KeyError(7000), TxBuilderError::KeyError(7000));
    assert_ne!(TxBuilderError::KeyError(7000), TxBuilderError::KeyError(7001));
    assert_ne!(TxBuilderError::KeyError(7000), TxBuilderError::BuildError(7000));
}
