use chia_rpc::{
    decode_response, decode_response_bytes, node, unsigned_value, wallet, ClientError, Field, RpcRequest,
};

fn single(r: Result<Option<Vec<Field>>, ClientError>) -> Field {
    match r {
        Ok(Some(mut vals)) => {
            assert_eq!(vals.len(), 1);
            vals.pop().unwrap()
        }
        Ok(None) => panic!("no values"),
        Err(e) => panic!("unexpected {:?}", e),
    }
}

#[test]
fn network_space_is_read_from_the_space_member() {
    let req = node::get_network_space("\"0x1\"".to_string(), "\"0x2\"".to_string());
    let body = r#"{"success": true, "space": 123456789}"#;
    let space = single(decode_response(&req, body));
    assert!(matches!(space, Field::Unsigned(123456789)));
    assert_eq!(unsigned_value(&space, body).unwrap(), 123456789);
}

#[test]
fn coin_record_lookup_reads_failure_as_absent() {
    let req = node::get_coin_record_by_name("\"0xaa\"".to_string());
    assert!(matches!(decode_response(&req, r#"{"success": false}"#), Ok(None)));
}

#[test]
fn other_endpoints_read_failure_as_remote_failure() {
    let reqs: Vec<RpcRequest> = vec![
        node::get_network_space("\"0x1\"".to_string(), "\"0x2\"".to_string()),
        node::get_blockchain_state(),
        node::get_block_record_by_height(3),
        node::push_tx("{}".to_string()),
        wallet::get_wallets(),
        wallet::log_in(7),
    ];
    for req in reqs {
        match decode_response(&req, r#"{"success": false}"#) {
            Err(ClientError::RemoteOperationFailed { endpoint }) => assert_eq!(endpoint, req.endpoint),
            other => panic!("unexpected {:?}", other.err()),
        }
    }
}

#[test]
fn text_that_is_not_json_is_a_parse_error() {
    let req = node::get_blockchain_state();
    for body in ["", "not json", "{\"success\": tru", "<html>500</html>"] {
        match decode_response(&req, body) {
            Err(ClientError::JsonParse { body: b, cause }) => {
                assert_eq!(b, body);
                assert!(!cause.is_empty());
            }
            other => panic!("unexpected {:?}", other.err()),
        }
    }
}

#[test]
fn json_that_is_not_an_object_is_a_parse_error() {
    let req = node::get_blockchain_state();
    for body in ["[1, 2]", "\"success\"", "12", "true"] {
        assert!(matches!(decode_response(&req, body), Err(ClientError::JsonParse { .. })));
    }
}

#[test]
fn answer_without_boolean_success_is_a_parse_error() {
    let req = node::get_coin_record_by_name("\"0xaa\"".to_string());
    for body in ["{}", r#"{"coin_record": null}"#, r#"{"success": "true"}"#, r#"{"success": 1}"#] {
        match decode_response(&req, body) {
            Err(ClientError::JsonParse { body: b, .. }) => assert_eq!(b, body),
            other => panic!("unexpected {:?}", other.err()),
        }
    }
}

#[test]
fn failure_needs_no_payload() {
    let req = node::get_block_record(String::from("\"0x01\""));
    assert!(matches!(
        decode_response(&req, r#"{"success": false, "error": "not found"}"#),
        Err(ClientError::RemoteOperationFailed { .. })
    ));
}

#[test]
fn fields_come_in_declared_order() {
    let req = node::get_additions_and_removals("\"0x1\"".to_string());
    let body = r#"{"removals": [], "success": true, "additions": [1, 2]}"#;
    match decode_response(&req, body) {
        Ok(Some(vals)) => {
            assert_eq!(vals.len(), 2);
            assert!(matches!(&vals[0], Field::Array(a) if a.len() == 2));
            assert!(matches!(&vals[1], Field::Array(a) if a.is_empty()));
        }
        other => panic!("unexpected {:?}", other.err()),
    }
}

#[test]
fn missing_result_member_is_a_parse_error() {
    let req = wallet::get_sync_status();
    let body = r#"{"success": true, "synced": true, "syncing": false}"#;
    match decode_response(&req, body) {
        Err(ClientError::JsonParse { body: b, .. }) => assert_eq!(b, body),
        other => panic!("unexpected {:?}", other.err()),
    }
}

#[test]
fn answer_without_blockchain_state_is_a_parse_error() {
    let req = node::get_blockchain_state();
    let body = r#"{"success": true}"#;
    assert!(matches!(decode_response(&req, body), Err(ClientError::JsonParse { .. })));
}

#[test]
fn booleans_are_kept() {
    let req = wallet::get_sync_status();
    let body = r#"{"success": true, "synced": true, "syncing": false, "genesis_initialized": true}"#;
    match decode_response(&req, body) {
        Ok(Some(vals)) => {
            assert_eq!(vals.len(), 3);
            assert!(matches!(vals[0], Field::Bool(true)));
            assert!(matches!(vals[1], Field::Bool(true)));
            assert!(matches!(vals[2], Field::Bool(false)));
        }
        other => panic!("unexpected {:?}", other.err()),
    }
}

#[test]
fn numbers_by_kind() {
    let req = node::get_initial_freeze_period();
    let body = r#"{"success": true, "initial_freeze_end_timestamp": -5}"#;
    let v = single(decode_response(&req, body));
    assert!(matches!(&v, Field::Number(n) if n.as_i64() == Some(-5)));
    assert!(matches!(unsigned_value(&v, body), Err(ClientError::JsonParse { .. })));
    let body = r#"{"success": true, "initial_freeze_end_timestamp": 1.5}"#;
    let v = single(decode_response(&req, body));
    assert!(matches!(v, Field::Number(_)));
    assert!(unsigned_value(&v, body).is_err());
    let body = r#"{"success": true, "initial_freeze_end_timestamp": 18446744073709551615}"#;
    let v = single(decode_response(&req, body));
    assert_eq!(unsigned_value(&v, body).unwrap(), u64::MAX);
    let body = r#"{"success": true, "initial_freeze_end_timestamp": "12"}"#;
    let v = single(decode_response(&req, body));
    assert!(unsigned_value(&v, body).is_err());
}

#[test]
fn field_kinds_are_kept() {
    let req = node::get_network_info();
    let body = r#"{"success": true, "network_name": "mainnet", "network_prefix": null}"#;
    match decode_response(&req, body) {
        Ok(Some(vals)) => {
            assert!(matches!(&vals[0], Field::Text(s) if s == "mainnet"));
            assert!(matches!(vals[1], Field::Null));
        }
        other => panic!("unexpected {:?}", other.err()),
    }
}

#[test]
fn found_coin_record_is_handed_out() {
    let req = node::get_coin_record_by_name("\"0xaa\"".to_string());
    let body = r#"{"success": true, "coin_record": {"spent": false}}"#;
    assert!(matches!(single(decode_response(&req, body)), Field::Object(o) if o.len() == 1));
}

#[test]
fn bytes_are_decoded_as_text() {
    let req = wallet::log_in(7);
    let body = br#"{"success": true, "fingerprint": 7}"#.to_vec();
    assert!(matches!(single(decode_response_bytes(&req, body)), Field::Unsigned(7)));
}

#[test]
fn bytes_that_are_not_utf8_are_a_parse_error() {
    let req = wallet::log_in(7);
    let body = vec![b'{', 0xff, b'}'];
    match decode_response_bytes(&req, body) {
        Err(ClientError::JsonParse { body: b, .. }) => assert_eq!(b, "{\u{fffd}}"),
        other => panic!("unexpected {:?}", other.err()),
    }
}
