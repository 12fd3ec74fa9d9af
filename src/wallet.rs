//! The wallet service's endpoints: for each, the request that calls it.
//! Coin and payment lists are passed as their JSON text.
use vstd::prelude::*;
use vstd::string::*;

use crate::request::{
    fields1, fields3, no_params, param, params1, params2, params3, params4, request, ArgView,
    ParamValue, RequestView, RpcRequest,
};

verus! {

/// Logs in to the wallet with fingerprint `wallet_fingerprint`; the answer is the fingerprint.
pub fn log_in(wallet_fingerprint: u32) -> (r: RpcRequest)
    ensures
        r@ == (RequestView {
            endpoint: "log_in"@,
            params: seq![("wallet_fingerprint"@, ArgView::Unsigned(wallet_fingerprint as nat))],
            fields: seq!["fingerprint"@],
            absent_on_failure: false,
        }),
        r.well_formed(),
{
    request(
        "log_in",
        params1(
            param("wallet_fingerprint", ParamValue::Unsigned(wallet_fingerprint as u64)),
        ),
        fields1("fingerprint"),
    )
}

/// Logs in to the wallet with fingerprint `wallet_fingerprint`, skipping the import of
/// backups; the answer is the fingerprint.
pub fn log_in_and_skip(wallet_fingerprint: u32) -> (r: RpcRequest)
    ensures
        r@ == (RequestView {
            endpoint: "log_in_and_skip"@,
            params: seq![("wallet_fingerprint"@, ArgView::Unsigned(wallet_fingerprint as nat))],
            fields: seq!["fingerprint"@],
            absent_on_failure: false,
        }),
        r.well_formed(),
{
    request(
        "log_in_and_skip",
        params1(
            param("wallet_fingerprint", ParamValue::Unsigned(wallet_fingerprint as u64)),
        ),
        fields1("fingerprint"),
    )
}

/// The wallets of the logged-in key.
pub fn get_wallets() -> (r: RpcRequest)
    ensures
        r@ == (RequestView {
            endpoint: "get_wallets"@,
            params: seq![],
            fields: seq!["wallets"@],
            absent_on_failure: false,
        }),
        r.well_formed(),
{
    request(
        "get_wallets",
        no_params(),
        fields1("wallets"),
    )
}

/// The balance of wallet `wallet_id`.
pub fn get_wallet_balance(wallet_id: u32) -> (r: RpcRequest)
    ensures
        r@ == (RequestView {
            endpoint: "get_wallet_balance"@,
            params: seq![("wallet_id"@, ArgView::Unsigned(wallet_id as nat))],
            fields: seq!["wallets"@],
            absent_on_failure: false,
        }),
        r.well_formed(),
{
    request(
        "get_wallet_balance",
        params1(
            param("wallet_id", ParamValue::Unsigned(wallet_id as u64)),
        ),
        fields1("wallets"),
    )
}

/// Whether the wallet has its genesis block, is synced, and is syncing.
pub fn get_sync_status() -> (r: RpcRequest)
    ensures
        r@ == (RequestView {
            endpoint: "get_sync_status"@,
            params: seq![],
            fields: seq!["genesis_initialized"@, "synced"@, "syncing"@],
            absent_on_failure: false,
        }),
        r.well_formed(),
{
    proof {
        reveal_strlit("genesis_initialized");
        reveal_strlit("synced");
        reveal_strlit("syncing");
        assert("genesis_initialized"@.len() != "synced"@.len());
        assert("genesis_initialized"@.len() != "syncing"@.len());
        assert("synced"@.len() != "syncing"@.len());
    }
    request(
        "get_sync_status",
        no_params(),
        fields3("genesis_initialized", "synced", "syncing"),
    )
}

/// Sends `amount` from wallet `wallet_id` to `address`, paying `fee`.
pub fn send_transaction(wallet_id: u32, amount: u64, address: String, fee: u64) -> (r: RpcRequest)
    ensures
        r@ == (RequestView {
            endpoint: "send_transaction"@,
            params: seq![
                ("wallet_id"@, ArgView::Unsigned(wallet_id as nat)),
                ("amount"@, ArgView::Unsigned(amount as nat)),
                ("address"@, ArgView::Text(address@)),
                ("fee"@, ArgView::Unsigned(fee as nat)),
            ],
            fields: seq!["transaction"@],
            absent_on_failure: false,
        }),
        r.well_formed(),
{
    request(
        "send_transaction",
        params4(
            param("wallet_id", ParamValue::Unsigned(wallet_id as u64)),
            param("amount", ParamValue::Unsigned(amount)),
            param("address", ParamValue::Text(address)),
            param("fee", ParamValue::Unsigned(fee)),
        ),
        fields1("transaction"),
    )
}

/// Sends the payments `additions` (a JSON array) from wallet `wallet_id`, paying `fee`.
pub fn send_transaction_multi(wallet_id: u32, additions: String, fee: u64) -> (r: RpcRequest)
    ensures
        r@ == (RequestView {
            endpoint: "send_transaction_multi"@,
            params: seq![
                ("wallet_id"@, ArgView::Unsigned(wallet_id as nat)),
                ("additions"@, ArgView::Encoded(additions@)),
                ("fee"@, ArgView::Unsigned(fee as nat)),
            ],
            fields: seq!["transaction"@],
            absent_on_failure: false,
        }),
        r.well_formed(),
{
    request(
        "send_transaction_multi",
        params3(
            param("wallet_id", ParamValue::Unsigned(wallet_id as u64)),
            param("additions", ParamValue::Encoded(additions)),
            param("fee", ParamValue::Unsigned(fee)),
        ),
        fields1("transaction"),
    )
}

/// The transaction `transaction_id` of wallet `wallet_id`.
pub fn get_transaction(wallet_id: u32, transaction_id: String) -> (r: RpcRequest)
    ensures
        r@ == (RequestView {
            endpoint: "get_transaction"@,
            params: seq![
                ("wallet_id"@, ArgView::Unsigned(wallet_id as nat)),
                ("transaction_id"@, ArgView::Text(transaction_id@)),
            ],
            fields: seq!["transaction"@],
            absent_on_failure: false,
        }),
        r.well_formed(),
{
    request(
        "get_transaction",
        params2(
            param("wallet_id", ParamValue::Unsigned(wallet_id as u64)),
            param("transaction_id", ParamValue::Text(transaction_id)),
        ),
        fields1("transaction"),
    )
}

/// A signed transaction of wallet `wallet_id` that creates the coins `additions` from the coins
/// `coins` (both JSON arrays), paying `fee`.
pub fn create_signed_transaction(wallet_id: u32, additions: String, coins: String, fee: u64) -> (r: RpcRequest)
    ensures
        r@ == (RequestView {
            endpoint: "create_signed_transaction"@,
            params: seq![
                ("wallet_id"@, ArgView::Unsigned(wallet_id as nat)),
                ("additions"@, ArgView::Encoded(additions@)),
                ("coins"@, ArgView::Encoded(coins@)),
                ("fee"@, ArgView::Unsigned(fee as nat)),
            ],
            fields: seq!["signed_tx"@],
            absent_on_failure: false,
        }),
        r.well_formed(),
{
    request(
        "create_signed_transaction",
        params4(
            param("wallet_id", ParamValue::Unsigned(wallet_id as u64)),
            param("additions", ParamValue::Encoded(additions)),
            param("coins", ParamValue::Encoded(coins)),
            param("fee", ParamValue::Unsigned(fee)),
        ),
        fields1("signed_tx"),
    )
}


} // verus!
