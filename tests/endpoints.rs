use chia_rpc::{node, wallet, ClientError, ParamValue, RpcRequest, SpaceByHeight, SpaceStep};

fn names(req: &RpcRequest) -> Vec<&str> {
    req.params.iter().map(|p| p.name.as_str()).collect()
}

#[test]
fn signage_point_with_both_hashes_is_refused() {
    let r = node::get_recent_signage_point_or_eos(Some("\"0x1\"".to_string()), Some("\"0x2\"".to_string()));
    assert!(matches!(r, Err(ClientError::InvalidArgument { .. })));
}

#[test]
fn signage_point_with_neither_hash_is_refused() {
    let r = node::get_recent_signage_point_or_eos(None, None);
    assert!(matches!(r, Err(ClientError::InvalidArgument { .. })));
}

#[test]
fn signage_point_by_one_hash() {
    let req = node::get_recent_signage_point_or_eos(Some("\"0x1\"".to_string()), None).unwrap();
    assert_eq!(req.endpoint, "get_recent_signage_point_or_eos");
    assert_eq!(names(&req), vec!["sp_hash"]);
    assert_eq!(req.fields, vec!["signage_point", "eos", "time_received", "reverted"]);
    let req = node::get_recent_signage_point_or_eos(None, Some("\"0x2\"".to_string())).unwrap();
    assert_eq!(names(&req), vec!["challenge_hash"]);
    assert!(matches!(&req.params[0].value, ParamValue::Encoded(h) if h == "\"0x2\""));
}

#[test]
fn endpoint_names_and_fields() {
    let cases: Vec<(RpcRequest, &str, Vec<&str>)> = vec![
        (node::get_blockchain_state(), "get_blockchain_state", vec!["blockchain_state"]),
        (node::get_unfinished_block_headers(), "get_unfinished_block_headers", vec!["headers"]),
        (node::get_initial_freeze_period(), "get_initial_freeze_period", vec!["initial_freeze_end_timestamp"]),
        (node::get_network_info(), "get_network_info", vec!["network_name", "network_prefix"]),
        (node::get_all_mempool_tx_ids(), "get_all_mempool_tx_ids", vec!["tx_ids"]),
        (node::get_all_mempool_items(), "get_all_mempool_items", vec!["mempool_items"]),
        (node::get_mempool_item_by_tx_id("t1"), "get_mempool_item_by_tx_id", vec!["mempool_item"]),
        (node::get_block_records(1, 2), "get_block_records", vec!["block_records"]),
        (node::get_puzzle_and_solution("\"0x3\"".to_string(), 9), "get_puzzle_and_solution", vec!["coin_solution"]),
        (wallet::log_in_and_skip(5), "log_in_and_skip", vec!["fingerprint"]),
        (wallet::get_wallet_balance(2), "get_wallet_balance", vec!["wallets"]),
        (wallet::get_transaction(2, "tx".to_string()), "get_transaction", vec!["transaction"]),
        (wallet::send_transaction_multi(2, "[]".to_string(), 1), "send_transaction_multi", vec!["transaction"]),
        (wallet::create_signed_transaction(2, "[]".to_string(), "[]".to_string(), 1), "create_signed_transaction", vec!["signed_tx"]),
    ];
    for (req, endpoint, fields) in cases {
        assert_eq!(req.endpoint, endpoint);
        assert_eq!(req.fields, fields);
        assert!(!req.absent_on_failure);
        assert!(req.has_distinct_fields());
    }
}

#[test]
fn coin_record_lookup_is_the_one_absent_on_failure() {
    let req = node::get_coin_record_by_name("\"0x9\"".to_string());
    assert!(req.absent_on_failure);
    assert_eq!(names(&req), vec!["name"]);
}

#[test]
fn coin_record_queries_take_heights() {
    let req = node::get_coin_records_by_puzzle_hash("\"0x4\"".to_string(), true, 10, 20);
    assert_eq!(names(&req), vec!["puzzle_hash", "include_spent_coins", "start_height", "end_height"]);
    assert!(matches!(req.params[1].value, ParamValue::Flag(true)));
    assert!(matches!(req.params[2].value, ParamValue::Unsigned(10)));
    assert!(matches!(req.params[3].value, ParamValue::Unsigned(20)));
    let req = node::get_coin_records_by_puzzle_hashes("[]".to_string(), false, 0, 1);
    assert_eq!(names(&req)[0], "puzzle_hashes");
}

#[test]
fn repeated_fields_are_noticed() {
    let mut req = wallet::get_sync_status();
    assert!(req.has_distinct_fields());
    req.fields[2] = "synced".to_string();
    assert!(!req.has_distinct_fields());
}

fn expect_call(step: SpaceStep) -> (SpaceByHeight, RpcRequest) {
    match step {
        SpaceStep::Call(s, req) => (s, req),
        SpaceStep::Done(r) => panic!("finished early: {:?}", r),
    }
}

/// Drives a measurement against answers given in turn, recording the calls made.
fn run(older: u32, newer: u32, answers: Vec<Result<&str, ClientError>>, space: Result<u64, ClientError>) -> (Vec<RpcRequest>, Result<u64, ClientError>) {
    let mut calls = Vec::new();
    let mut answers = answers.into_iter();
    let mut space = Some(space);
    let mut step = SpaceByHeight::start(older, newer);
    loop {
        match step {
            SpaceStep::Done(r) => return (calls, r),
            SpaceStep::Call(state, req) => {
                calls.push(req);
                step = match state {
                    SpaceByHeight::Measuring => state.on_space(space.take().unwrap()),
                    _ => state.on_block_record(answers.next().unwrap().map(|h| h.to_string())),
                };
            }
        }
    }
}

#[test]
fn space_by_height_makes_three_calls_in_order() {
    let (calls, r) = run(10, 20, vec![Ok("\"0xa\""), Ok("\"0xb\"")], Ok(42));
    assert_eq!(r.unwrap(), 42);
    assert_eq!(calls.len(), 3);
    assert_eq!(calls[0].endpoint, "get_block_record_by_height");
    assert!(matches!(calls[0].params[0].value, ParamValue::Unsigned(10)));
    assert_eq!(calls[1].endpoint, "get_block_record_by_height");
    assert!(matches!(calls[1].params[0].value, ParamValue::Unsigned(20)));
    assert_eq!(calls[2].endpoint, "get_network_space");
    assert!(matches!(&calls[2].params[0].value, ParamValue::Encoded(h) if h == "\"0xa\""));
    assert!(matches!(&calls[2].params[1].value, ParamValue::Encoded(h) if h == "\"0xb\""));
}

#[test]
fn space_by_height_stops_at_first_failure() {
    let failed = ClientError::BadStatus { status: 500, url: "u".to_string() };
    let (calls, r) = run(10, 20, vec![Err(failed)], Ok(42));
    assert_eq!(calls.len(), 1);
    assert!(matches!(r, Err(ClientError::BadStatus { status: 500, .. })));
}

#[test]
fn space_by_height_stops_at_second_failure() {
    let failed = ClientError::Network { message: "reset".to_string() };
    let (calls, r) = run(1, 2, vec![Ok("\"0xa\""), Err(failed)], Ok(42));
    assert_eq!(calls.len(), 2);
    assert!(matches!(r, Err(ClientError::Network { .. })));
}

#[test]
fn space_by_height_reports_failed_measurement() {
    let failed = ClientError::RemoteOperationFailed { endpoint: "get_network_space".to_string() };
    let (calls, r) = run(1, 2, vec![Ok("\"0xa\""), Ok("\"0xb\"")], Err(failed));
    assert_eq!(calls.len(), 3);
    assert!(matches!(r, Err(ClientError::RemoteOperationFailed { .. })));
}
