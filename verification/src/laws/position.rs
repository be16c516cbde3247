//! The projected block of a pending transaction.

use crate::apns::types::BlockPosition;
use crate::double::Double;
use crate::mempool::{FeeQuote, MempoolBlock, MempoolError};
use crate::watcher::position;
use vstd::prelude::*;

verus! {

/// A transaction that pays anything is projected into the first of the next two blocks whose lowest
/// rate, the first that the block names, it pays or exceeds, and into no other. What pays nothing,
/// or a rate that is no number, is projected into neither.
pub proof fn position_is_by_lowest_rates(rate: Double, blocks: Seq<MempoolBlock>)
    ensures
        ({
            let at = position::block_position(rate, blocks);
            let in_next = blocks.len() > 0 && blocks[0].fee_range@.len() > 0 && rate.at_least(
                blocks[0].fee_range@[0],
            );
            let in_second = blocks.len() > 1 && blocks[1].fee_range@.len() > 0 && rate.at_least(
                blocks[1].fee_range@[0],
            );
            &&& rate.positive() ==> (at == BlockPosition::NextBlock <==> in_next)
            &&& rate.positive() ==> (at == BlockPosition::SecondBlock <==> !in_next && in_second)
            &&& !rate.positive() ==> at == BlockPosition::Other
        }),
{
}

/// Of the projected blocks only the lowest rates of the first two matter: not the other rates, the
/// sizes, nor any further block.
pub proof fn only_lowest_rates_matter(rate: Double, a: Seq<MempoolBlock>, b: Seq<MempoolBlock>)
    requires
        forall|i: int|
            0 <= i < 2 ==> {
                let (named, also_named) = (
                    i < a.len() && (#[trigger] a[i]).fee_range@.len() > 0,
                    i < b.len() && b[i].fee_range@.len() > 0,
                );
                &&& named == also_named
                &&& named ==> a[i].fee_range@[0] == b[i].fee_range@[0]
            },
    ensures
        position::block_position(rate, a) == position::block_position(rate, b),
{
    let (x, y) = (a[0], a[1]);
}

/// The projected blocks that were read decide the position; where they were not, or the fee is not
/// known, there is none.
pub proof fn position_needs_blocks_and_fee(
    blocks: Vec<MempoolBlock>,
    e: MempoolError,
    quote: FeeQuote,
    answer: Result<Vec<MempoolBlock>, MempoolError>,
)
    ensures
        position::resolved_position(Ok(blocks), quote.rate) == position::block_position(
            quote.rate,
            blocks@,
        ),
        position::resolved_position(Err(e), quote.rate) == BlockPosition::Other,
        position::quoted_rate(Some(quote)) == quote.rate,
        position::resolved_position(answer, position::quoted_rate(None)) == BlockPosition::Other,
{
    crate::laws::double::doubles_compare_by_their_bits(
        position::quoted_rate(None),
        position::quoted_rate(None),
    );
}

} // verus!
