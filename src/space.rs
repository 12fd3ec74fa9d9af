//! The network space between two heights: two block record lookups, one after the other, then
//! the space between their header hashes. Each step says which call comes next, or the result.
use vstd::prelude::*;

use crate::error::ClientError;
use crate::node::{get_block_record_by_height, get_network_space};
use crate::request::{ArgView, RequestView, RpcRequest};

verus! {

/// Where a measurement of the network space by height stands.
pub enum SpaceByHeight {
    /// Waiting for the block record at the older height.
    ResolvingOlder { older_height: u32, newer_height: u32 },
    /// Waiting for the block record at the newer height; the older one's header hash is known.
    ResolvingNewer { older_hash: String, newer_height: u32 },
    /// Waiting for the space between the two header hashes.
    Measuring,
}

/// What to do next: make a call and wait in the given state, or stop with the result.
pub enum SpaceStep {
    Call(SpaceByHeight, RpcRequest),
    Done(Result<u64, ClientError>),
}

/// What a step stands for.
pub enum SpaceStepView {
    Call(SpaceByHeight, RequestView),
    Done(Result<u64, ClientError>),
}

impl View for SpaceStep {
    type V = SpaceStepView;

    open spec fn view(&self) -> SpaceStepView {
        match self {
            SpaceStep::Call(s, req) => SpaceStepView::Call(*s, req@),
            SpaceStep::Done(r) => SpaceStepView::Done(*r),
        }
    }
}

/// The request for the block record at `height`.
pub open spec fn record_at_height(height: u32) -> RequestView {
    RequestView {
        endpoint: "get_block_record_by_height"@,
        params: seq![("height"@, ArgView::Unsigned(height as nat))],
        fields: seq!["block_record"@],
        absent_on_failure: false,
    }
}

/// The request for the space between the blocks with header hashes `older` and `newer`.
pub open spec fn space_between(older: Seq<char>, newer: Seq<char>) -> RequestView {
    RequestView {
        endpoint: "get_network_space"@,
        params: seq![
            ("older_block_header_hash"@, ArgView::Encoded(older)),
            ("newer_block_header_hash"@, ArgView::Encoded(newer)),
        ],
        fields: seq!["space"@],
        absent_on_failure: false,
    }
}

/// The first step: look up the block record at the older height.
pub open spec fn begin(older_height: u32, newer_height: u32) -> SpaceStepView {
    SpaceStepView::Call(
        SpaceByHeight::ResolvingOlder { older_height, newer_height },
        record_at_height(older_height),
    )
}

/// The step after a block record lookup answered with `header_hash` (as JSON text) or failed.
/// An answer of this kind while measuring is out of turn.
pub open spec fn after_record(s: SpaceByHeight, header_hash: Result<String, ClientError>) -> SpaceStepView {
    match header_hash {
        Err(e) => SpaceStepView::Done(Err(e)),
        Ok(h) => match s {
            SpaceByHeight::ResolvingOlder { newer_height, .. } => SpaceStepView::Call(
                SpaceByHeight::ResolvingNewer { older_hash: h, newer_height },
                record_at_height(newer_height),
            ),
            SpaceByHeight::ResolvingNewer { older_hash, .. } => SpaceStepView::Call(
                SpaceByHeight::Measuring,
                space_between(older_hash@, h@),
            ),
            SpaceByHeight::Measuring => SpaceStepView::Done(Err(ClientError::InvalidArgument { message: h })),
        },
    }
}

/// The step after the space lookup: its answer is the result.
pub open spec fn after_space(space: Result<u64, ClientError>) -> SpaceStepView {
    SpaceStepView::Done(space)
}

impl SpaceByHeight {
    /// Starts measuring the space between the blocks at `older_height` and `newer_height`.
    pub fn start(older_height: u32, newer_height: u32) -> (r: SpaceStep)
        ensures
            r@ == begin(older_height, newer_height),
    {
        SpaceStep::Call(
            SpaceByHeight::ResolvingOlder { older_height, newer_height },
            get_block_record_by_height(older_height),
        )
    }

    /// Takes the answer to a block record lookup: the header hash of the record, as JSON text,
    /// or the error the lookup ended in.
    pub fn on_block_record(self, header_hash: Result<String, ClientError>) -> (r: SpaceStep)
        requires
            !(self is Measuring),
        ensures
            r@ == after_record(self, header_hash),
    {
        match header_hash {
            Err(e) => SpaceStep::Done(Err(e)),
            Ok(h) => match self {
                SpaceByHeight::ResolvingOlder { newer_height, .. } => SpaceStep::Call(
                    SpaceByHeight::ResolvingNewer { older_hash: h, newer_height },
                    get_block_record_by_height(newer_height),
                ),
                SpaceByHeight::ResolvingNewer { older_hash, .. } => SpaceStep::Call(
                    SpaceByHeight::Measuring,
                    get_network_space(older_hash, h),
                ),
                SpaceByHeight::Measuring => SpaceStep::Done(Err(ClientError::InvalidArgument { message: h })),
            },
        }
    }

    /// Takes the answer to the space lookup, which is the result.
    pub fn on_space(self, space: Result<u64, ClientError>) -> (r: SpaceStep)
        requires
            self is Measuring,
        ensures
            r@ == after_space(space),
    {
        SpaceStep::Done(space)
    }
}

/// Measuring the space between two heights makes three calls, one after the other: the block
/// record at the older height, then the block record at the newer height, then the space between
/// the two header hashes, whose answer is the result. A failed lookup ends the measurement with
/// its error, and no later call is made.
pub proof fn lemma_space_by_height_calls(
    older_height: u32,
    newer_height: u32,
    older_hash: String,
    newer_hash: String,
    space: Result<u64, ClientError>,
    e: ClientError,
)
    ensures
        begin(older_height, newer_height) == SpaceStepView::Call(
            SpaceByHeight::ResolvingOlder { older_height, newer_height },
            record_at_height(older_height),
        ),
        after_record(
            SpaceByHeight::ResolvingOlder { older_height, newer_height },
            Ok(older_hash),
        ) == SpaceStepView::Call(
            SpaceByHeight::ResolvingNewer { older_hash, newer_height },
            record_at_height(newer_height),
        ),
        after_record(SpaceByHeight::ResolvingNewer { older_hash, newer_height }, Ok(newer_hash))
            == SpaceStepView::Call(SpaceByHeight::Measuring, space_between(older_hash@, newer_hash@)),
        after_space(space) == SpaceStepView::Done(space),
        after_record(SpaceByHeight::ResolvingOlder { older_height, newer_height }, Err(e))
            == SpaceStepView::Done(Err(e)),
        after_record(SpaceByHeight::ResolvingNewer { older_hash, newer_height }, Err(e))
            == SpaceStepView::Done(Err(e)),
{
}

} // verus!
