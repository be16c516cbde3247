//! Where among the projected blocks a pending transaction stands.

use crate::apns::types::BlockPosition;
use crate::double::Double;
use crate::mempool::{FeeQuote, MempoolBlock, MempoolError};
use vstd::prelude::*;

verus! {

/// The lowest fee rate in projected block `i`, where there is such a block and it names one.
pub open spec fn min_rate(blocks: Seq<MempoolBlock>, i: int) -> Option<Double> {
    if 0 <= i < blocks.len() && blocks[i].fee_range@.len() > 0 {
        Some(blocks[i].fee_range@[0])
    } else {
        None
    }
}

/// A transaction that pays `rate` would be in projected block `i`.
pub open spec fn qualifies(rate: Double, blocks: Seq<MempoolBlock>, i: int) -> bool {
    min_rate(blocks, i) matches Some(min) && rate.at_least(min)
}

/// The first of the next two blocks in which a transaction that pays `rate` would be; neither
/// where the rate is not known, that is, not above zero.
pub open spec fn block_position(rate: Double, blocks: Seq<MempoolBlock>) -> BlockPosition {
    if rate.positive() && qualifies(rate, blocks, 0) {
        BlockPosition::NextBlock
    } else if rate.positive() && qualifies(rate, blocks, 1) {
        BlockPosition::SecondBlock
    } else {
        BlockPosition::Other
    }
}

fn meets_min(rate: Double, blocks: &Vec<MempoolBlock>, i: usize) -> (r: bool)
    ensures
        r == qualifies(rate, blocks@, i as int),
{
    if i < blocks.len() && blocks[i].fee_range.len() > 0 {
        rate.ge(blocks[i].fee_range[0])
    } else {
        false
    }
}

/// The projected block of a pending transaction: it would be in a block if its fee rate is at
/// least the lowest in that block. `Other` where the rate is zero or there are no blocks.
pub fn compute_block_position(fee_rate: Double, blocks: &Vec<MempoolBlock>) -> (r: BlockPosition)
    ensures
        r == block_position(fee_rate, blocks@),
{
    if fee_rate.is_positive() {
        if meets_min(fee_rate, blocks, 0) {
            return BlockPosition::NextBlock;
        }
        if meets_min(fee_rate, blocks, 1) {
            return BlockPosition::SecondBlock;
        }
    }
    BlockPosition::Other
}

/// The position after an answer about the projected blocks.
pub open spec fn resolved_position(
    blocks: Result<Vec<MempoolBlock>, MempoolError>,
    rate: Double,
) -> BlockPosition {
    match blocks {
        Ok(b) => block_position(rate, b@),
        Err(_) => BlockPosition::Other,
    }
}

/// The projected block of a pending transaction, given the answer about the projected blocks;
/// `Other` where that failed.
pub fn resolve_block_position(
    blocks: &Result<Vec<MempoolBlock>, MempoolError>,
    fee_rate: Double,
) -> (r: BlockPosition)
    ensures
        r == resolved_position(*blocks, fee_rate),
{
    match blocks {
        Ok(b) => compute_block_position(fee_rate, b),
        Err(_) => BlockPosition::Other,
    }
}

/// The rate of a quote; zero without one.
pub open spec fn quoted_rate(quote: Option<FeeQuote>) -> Double {
    match quote {
        Some(q) => q.rate,
        None => Double { bits: 0 },
    }
}

/// The rate of a quote; zero without one.
pub fn rate_of(quote: Option<FeeQuote>) -> (r: Double)
    ensures
        r == quoted_rate(quote),
{
    match quote {
        Some(q) => q.rate,
        None => Double::zero(),
    }
}

/// How many blocks come before a position; two for none of them.
pub open spec fn rank(p: BlockPosition) -> int {
    match p {
        BlockPosition::NextBlock => 0,
        BlockPosition::SecondBlock => 1,
        BlockPosition::Other => 2,
    }
}

/// Who pays a higher rate never waits longer.
pub proof fn higher_rate_is_no_later(higher: Double, lower: Double, blocks: Seq<MempoolBlock>)
    requires
        higher.at_least(lower),
    ensures
        rank(block_position(higher, blocks)) <= rank(block_position(lower, blocks)),
{
}

/// A transaction without a fee rate, and any transaction where there are no blocks, has no
/// position.
pub proof fn unknown_rate_has_no_position(rate: Double, blocks: Seq<MempoolBlock>)
    requires
        rate.value() == 0 || blocks.len() == 0,
    ensures
        block_position(rate, blocks) == BlockPosition::Other,
{
}

} // verus!
