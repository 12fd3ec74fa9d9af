//! The full node's endpoints: for each, the request that calls it.
//! Hashes, coin lists and spend bundles are passed as their JSON text.
use vstd::prelude::*;
use vstd::string::*;

use crate::error::ClientError;
use crate::request::{
    fields1, fields2, fields4, no_params, param, params1, params2, params3, params4, request,
    ArgView, ParamValue, RequestView, RpcRequest,
};

verus! {

/// The state of the chain.
pub fn get_blockchain_state() -> (r: RpcRequest)
    ensures
        r@ == (RequestView {
            endpoint: "get_blockchain_state"@,
            params: seq![],
            fields: seq!["blockchain_state"@],
            absent_on_failure: false,
        }),
        r.well_formed(),
{
    request("get_blockchain_state", no_params(), fields1("blockchain_state"))
}

/// The full block with header hash `header_hash`.
pub fn get_block(header_hash: String) -> (r: RpcRequest)
    ensures
        r@ == (RequestView {
            endpoint: "get_block"@,
            params: seq![("header_hash"@, ArgView::Encoded(header_hash@))],
            fields: seq!["block"@],
            absent_on_failure: false,
        }),
        r.well_formed(),
{
    request(
        "get_block",
        params1(param("header_hash", ParamValue::Encoded(header_hash))),
        fields1("block"),
    )
}

/// The coins added and removed by the block with header hash `header_hash`.
pub fn get_additions_and_removals(header_hash: String) -> (r: RpcRequest)
    ensures
        r@ == (RequestView {
            endpoint: "get_additions_and_removals"@,
            params: seq![("header_hash"@, ArgView::Encoded(header_hash@))],
            fields: seq!["additions"@, "removals"@],
            absent_on_failure: false,
        }),
        r.well_formed(),
{
    proof {
        reveal_strlit("additions");
        reveal_strlit("removals");
        assert("additions"@[0] != "removals"@[0]);
    }
    request(
        "get_additions_and_removals",
        params1(param("header_hash", ParamValue::Encoded(header_hash))),
        fields2("additions", "removals"),
    )
}

/// The full blocks at heights `start` (included) to `end` (excluded); `exclude_header_hash`
/// leaves out their header hashes. The flag is sent as a JSON boolean; whether the service
/// instead needs the strings `"True"` and `"False"` there is an open question to settle against
/// the live service.
pub fn get_blocks(start: u32, end: u32, exclude_header_hash: bool) -> (r: RpcRequest)
    ensures
        r@ == (RequestView {
            endpoint: "get_blocks"@,
            params: seq![
                ("start"@, ArgView::Unsigned(start as nat)),
                ("end"@, ArgView::Unsigned(end as nat)),
                ("exclude_header_hash"@, ArgView::Flag(exclude_header_hash)),
            ],
            fields: seq!["blocks"@],
            absent_on_failure: false,
        }),
        r.well_formed(),
{
    request(
        "get_blocks",
        params3(
            param("start", ParamValue::Unsigned(start as u64)),
            param("end", ParamValue::Unsigned(end as u64)),
            param("exclude_header_hash", ParamValue::Flag(exclude_header_hash)),
        ),
        fields1("blocks"),
    )
}

/// The block record at height `height`.
pub fn get_block_record_by_height(height: u32) -> (r: RpcRequest)
    ensures
        r@ == (RequestView {
            endpoint: "get_block_record_by_height"@,
            params: seq![("height"@, ArgView::Unsigned(height as nat))],
            fields: seq!["block_record"@],
            absent_on_failure: false,
        }),
        r.well_formed(),
{
    request(
        "get_block_record_by_height",
        params1(
            param("height", ParamValue::Unsigned(height as u64)),
        ),
        fields1("block_record"),
    )
}

/// The block record with header hash `header_hash`.
pub fn get_block_record(header_hash: String) -> (r: RpcRequest)
    ensures
        r@ == (RequestView {
            endpoint: "get_block_record"@,
            params: seq![("header_hash"@, ArgView::Encoded(header_hash@))],
            fields: seq!["block_record"@],
            absent_on_failure: false,
        }),
        r.well_formed(),
{
    request(
        "get_block_record",
        params1(
            param("header_hash", ParamValue::Encoded(header_hash)),
        ),
        fields1("block_record"),
    )
}

/// The block records at heights `start` (included) to `end` (excluded).
pub fn get_block_records(start: u32, end: u32) -> (r: RpcRequest)
    ensures
        r@ == (RequestView {
            endpoint: "get_block_records"@,
            params: seq![
                ("start"@, ArgView::Unsigned(start as nat)),
                ("end"@, ArgView::Unsigned(end as nat)),
            ],
            fields: seq!["block_records"@],
            absent_on_failure: false,
        }),
        r.well_formed(),
{
    request(
        "get_block_records",
        params2(
            param("start", ParamValue::Unsigned(start as u64)),
            param("end", ParamValue::Unsigned(end as u64)),
        ),
        fields1("block_records"),
    )
}

/// The headers of the blocks not yet finished.
pub fn get_unfinished_block_headers() -> (r: RpcRequest)
    ensures
        r@ == (RequestView {
            endpoint: "get_unfinished_block_headers"@,
            params: seq![],
            fields: seq!["headers"@],
            absent_on_failure: false,
        }),
        r.well_formed(),
{
    request(
        "get_unfinished_block_headers",
        no_params(),
        fields1("headers"),
    )
}

/// The estimated space of the network between two blocks, given by header hash.
pub fn get_network_space(older_block_header_hash: String, newer_block_header_hash: String) -> (r: RpcRequest)
    ensures
        r@ == (RequestView {
            endpoint: "get_network_space"@,
            params: seq![
                ("older_block_header_hash"@, ArgView::Encoded(older_block_header_hash@)),
                ("newer_block_header_hash"@, ArgView::Encoded(newer_block_header_hash@)),
            ],
            fields: seq!["space"@],
            absent_on_failure: false,
        }),
        r.well_formed(),
{
    request(
        "get_network_space",
        params2(
            param("older_block_header_hash", ParamValue::Encoded(older_block_header_hash)),
            param("newer_block_header_hash", ParamValue::Encoded(newer_block_header_hash)),
        ),
        fields1("space"),
    )
}

/// The timestamp at which the initial freeze period ends.
pub fn get_initial_freeze_period() -> (r: RpcRequest)
    ensures
        r@ == (RequestView {
            endpoint: "get_initial_freeze_period"@,
            params: seq![],
            fields: seq!["initial_freeze_end_timestamp"@],
            absent_on_failure: false,
        }),
        r.well_formed(),
{
    request(
        "get_initial_freeze_period",
        no_params(),
        fields1("initial_freeze_end_timestamp"),
    )
}

/// The network's name and address prefix.
pub fn get_network_info() -> (r: RpcRequest)
    ensures
        r@ == (RequestView {
            endpoint: "get_network_info"@,
            params: seq![],
            fields: seq!["network_name"@, "network_prefix"@],
            absent_on_failure: false,
        }),
        r.well_formed(),
{
    proof {
        reveal_strlit("network_name");
        reveal_strlit("network_prefix");
        assert("network_name"@.len() != "network_prefix"@.len());
    }
    request(
        "get_network_info",
        no_params(),
        fields2("network_name", "network_prefix"),
    )
}

/// The coin records with puzzle hash `puzzle_hash` between two heights.
pub fn get_coin_records_by_puzzle_hash(puzzle_hash: String, include_spent_coins: bool, start_height: u32, end_height: u32) -> (r: RpcRequest)
    ensures
        r@ == (RequestView {
            endpoint: "get_coin_records_by_puzzle_hash"@,
            params: seq![
                ("puzzle_hash"@, ArgView::Encoded(puzzle_hash@)),
                ("include_spent_coins"@, ArgView::Flag(include_spent_coins)),
                ("start_height"@, ArgView::Unsigned(start_height as nat)),
                ("end_height"@, ArgView::Unsigned(end_height as nat)),
            ],
            fields: seq!["coin_records"@],
            absent_on_failure: false,
        }),
        r.well_formed(),
{
    request(
        "get_coin_records_by_puzzle_hash",
        params4(
            param("puzzle_hash", ParamValue::Encoded(puzzle_hash)),
            param("include_spent_coins", ParamValue::Flag(include_spent_coins)),
            param("start_height", ParamValue::Unsigned(start_height as u64)),
            param("end_height", ParamValue::Unsigned(end_height as u64)),
        ),
        fields1("coin_records"),
    )
}

/// The coin records with one of the puzzle hashes of `puzzle_hashes` (a JSON array) between
/// two heights.
pub fn get_coin_records_by_puzzle_hashes(puzzle_hashes: String, include_spent_coins: bool, start_height: u32, end_height: u32) -> (r: RpcRequest)
    ensures
        r@ == (RequestView {
            endpoint: "get_coin_records_by_puzzle_hashes"@,
            params: seq![
                ("puzzle_hashes"@, ArgView::Encoded(puzzle_hashes@)),
                ("include_spent_coins"@, ArgView::Flag(include_spent_coins)),
                ("start_height"@, ArgView::Unsigned(start_height as nat)),
                ("end_height"@, ArgView::Unsigned(end_height as nat)),
            ],
            fields: seq!["coin_records"@],
            absent_on_failure: false,
        }),
        r.well_formed(),
{
    request(
        "get_coin_records_by_puzzle_hashes",
        params4(
            param("puzzle_hashes", ParamValue::Encoded(puzzle_hashes)),
            param("include_spent_coins", ParamValue::Flag(include_spent_coins)),
            param("start_height", ParamValue::Unsigned(start_height as u64)),
            param("end_height", ParamValue::Unsigned(end_height as u64)),
        ),
        fields1("coin_records"),
    )
}

/// The coin records whose parent is one of `parent_ids` (a JSON array) between two heights.
pub fn get_coin_records_by_parent_ids(parent_ids: String, include_spent_coins: bool, start_height: u32, end_height: u32) -> (r: RpcRequest)
    ensures
        r@ == (RequestView {
            endpoint: "get_coin_records_by_parent_ids"@,
            params: seq![
                ("parent_ids"@, ArgView::Encoded(parent_ids@)),
                ("include_spent_coins"@, ArgView::Flag(include_spent_coins)),
                ("start_height"@, ArgView::Unsigned(start_height as nat)),
                ("end_height"@, ArgView::Unsigned(end_height as nat)),
            ],
            fields: seq!["coin_records"@],
            absent_on_failure: false,
        }),
        r.well_formed(),
{
    request(
        "get_coin_records_by_parent_ids",
        params4(
            param("parent_ids", ParamValue::Encoded(parent_ids)),
            param("include_spent_coins", ParamValue::Flag(include_spent_coins)),
            param("start_height", ParamValue::Unsigned(start_height as u64)),
            param("end_height", ParamValue::Unsigned(end_height as u64)),
        ),
        fields1("coin_records"),
    )
}

/// The coin record named `name`; an answer of `success: false` means that there is none.
pub fn get_coin_record_by_name(name: String) -> (r: RpcRequest)
    ensures
        r@ == (RequestView {
            endpoint: "get_coin_record_by_name"@,
            params: seq![("name"@, ArgView::Encoded(name@))],
            fields: seq!["coin_record"@],
            absent_on_failure: true,
        }),
        r.well_formed(),
{
    let mut r = request(
        "get_coin_record_by_name",
        params1(
            param("name", ParamValue::Encoded(name)),
        ),
        fields1("coin_record"),
    );
    r.absent_on_failure = true;
    r
}

/// Submits the spend bundle `spend_bundle`; the answer is its status. Nothing keeps a bundle
/// from being sent twice.
pub fn push_tx(spend_bundle: String) -> (r: RpcRequest)
    ensures
        r@ == (RequestView {
            endpoint: "push_tx"@,
            params: seq![("spend_bundle"@, ArgView::Encoded(spend_bundle@))],
            fields: seq!["status"@],
            absent_on_failure: false,
        }),
        r.well_formed(),
{
    request(
        "push_tx",
        params1(
            param("spend_bundle", ParamValue::Encoded(spend_bundle)),
        ),
        fields1("status"),
    )
}

/// The puzzle and solution of the coin `coin_id`, spent at `height`.
pub fn get_puzzle_and_solution(coin_id: String, height: u32) -> (r: RpcRequest)
    ensures
        r@ == (RequestView {
            endpoint: "get_puzzle_and_solution"@,
            params: seq![
                ("coin_id"@, ArgView::Encoded(coin_id@)),
                ("height"@, ArgView::Unsigned(height as nat)),
            ],
            fields: seq!["coin_solution"@],
            absent_on_failure: false,
        }),
        r.well_formed(),
{
    request(
        "get_puzzle_and_solution",
        params2(
            param("coin_id", ParamValue::Encoded(coin_id)),
            param("height", ParamValue::Unsigned(height as u64)),
        ),
        fields1("coin_solution"),
    )
}

/// The ids of the transactions in the mempool.
pub fn get_all_mempool_tx_ids() -> (r: RpcRequest)
    ensures
        r@ == (RequestView {
            endpoint: "get_all_mempool_tx_ids"@,
            params: seq![],
            fields: seq!["tx_ids"@],
            absent_on_failure: false,
        }),
        r.well_formed(),
{
    request(
        "get_all_mempool_tx_ids",
        no_params(),
        fields1("tx_ids"),
    )
}

/// The items of the mempool, by transaction id.
pub fn get_all_mempool_items() -> (r: RpcRequest)
    ensures
        r@ == (RequestView {
            endpoint: "get_all_mempool_items"@,
            params: seq![],
            fields: seq!["mempool_items"@],
            absent_on_failure: false,
        }),
        r.well_formed(),
{
    request(
        "get_all_mempool_items",
        no_params(),
        fields1("mempool_items"),
    )
}

/// The mempool item of transaction `tx_id`.
pub fn get_mempool_item_by_tx_id(tx_id: &str) -> (r: RpcRequest)
    ensures
        r@ == (RequestView {
            endpoint: "get_mempool_item_by_tx_id"@,
            params: seq![("tx_id"@, ArgView::Text(tx_id@))],
            fields: seq!["mempool_item"@],
            absent_on_failure: false,
        }),
        r.well_formed(),
{
    request(
        "get_mempool_item_by_tx_id",
        params1(
            param("tx_id", ParamValue::Text(String::from_str(tx_id))),
        ),
        fields1("mempool_item"),
    )
}


/// All the full blocks at heights `start` (included) to `end` (excluded), without their header
/// hashes.
pub fn get_all_blocks(start: u32, end: u32) -> (r: RpcRequest)
    ensures
        r@ == (RequestView {
            endpoint: "get_blocks"@,
            params: seq![
                ("start"@, ArgView::Unsigned(start as nat)),
                ("end"@, ArgView::Unsigned(end as nat)),
                ("exclude_header_hash"@, ArgView::Flag(true)),
            ],
            fields: seq!["blocks"@],
            absent_on_failure: false,
        }),
        r.well_formed(),
{
    get_blocks(start, end, true)
}

/// The most recent signage point or end of sub-slot, found by the signage point hash `sp_hash`
/// or by the challenge hash `challenge_hash`. Exactly one of the two is given; both or neither is
/// an `InvalidArgument`, and no request is made.
pub fn get_recent_signage_point_or_eos(
    sp_hash: Option<String>,
    challenge_hash: Option<String>,
) -> (r: Result<RpcRequest, ClientError>)
    ensures
        r is Err <==> sp_hash is Some == challenge_hash is Some,
        r matches Err(e) ==> e is InvalidArgument,
        r matches Ok(req) ==> req.well_formed() && req@.endpoint == "get_recent_signage_point_or_eos"@
            && req@.fields == seq!["signage_point"@, "eos"@, "time_received"@, "reverted"@]
            && !req@.absent_on_failure,
        r matches Ok(req) ==> match (sp_hash, challenge_hash) {
            (Some(h), None) => req@.params == seq![("sp_hash"@, ArgView::Encoded(h@))],
            (None, Some(h)) => req@.params == seq![("challenge_hash"@, ArgView::Encoded(h@))],
            _ => false,
        },
{
    proof {
        reveal_strlit("signage_point");
        reveal_strlit("eos");
        reveal_strlit("time_received");
        reveal_strlit("reverted");
        assert("signage_point"@.len() != "eos"@.len());
        assert("signage_point"@[0] != "time_received"@[0]);
        assert("signage_point"@.len() != "reverted"@.len());
        assert("eos"@.len() != "time_received"@.len());
        assert("eos"@.len() != "reverted"@.len());
        assert("time_received"@.len() != "reverted"@.len());
    }
    let fields = fields4("signage_point", "eos", "time_received", "reverted");
    match (sp_hash, challenge_hash) {
        (Some(h), None) => Ok(
            request(
                "get_recent_signage_point_or_eos",
                params1(param("sp_hash", ParamValue::Encoded(h))),
                fields,
            ),
        ),
        (None, Some(h)) => Ok(
            request(
                "get_recent_signage_point_or_eos",
                params1(param("challenge_hash", ParamValue::Encoded(h))),
                fields,
            ),
        ),
        (Some(_), Some(_)) => Err(
            ClientError::InvalidArgument {
                message: String::from_str(
                    "get_recent_signage_point_or_eos takes one of sp_hash and challenge_hash, not both",
                ),
            },
        ),
        (None, None) => Err(
            ClientError::InvalidArgument {
                message: String::from_str(
                    "get_recent_signage_point_or_eos takes one of sp_hash and challenge_hash",
                ),
            },
        ),
    }
}

} // verus!
