//! What a watcher asks, and what comes back.

use crate::mempool::{FeeQuote, MempoolBlock, MempoolError, TxStatus};
use vstd::prelude::*;

verus! {

/// A question to the mempool API, about the transaction that is watched or in general.
#[derive(Debug, Clone, Copy, PartialEq, Eq, Structural)]
pub enum Query {
    /// The status of the transaction.
    Status,
    /// The height of the best block.
    Tip,
    /// The fee of the transaction.
    Fee,
    /// The projected blocks.
    Blocks,
}

/// What came of something that a watcher wanted done.
#[derive(Debug)]
pub enum Reply {
    /// A pause is over.
    Woke,
    Status(Result<TxStatus, MempoolError>),
    Tip(Result<u64, MempoolError>),
    Fee(Result<FeeQuote, MempoolError>),
    Blocks(Result<Vec<MempoolBlock>, MempoolError>),
    /// A notification was sent, or could not be.
    Notified,
}

impl Reply {
    /// The reply answers the question.
    pub open spec fn answers(self, query: Query) -> bool {
        match query {
            Query::Status => self is Status,
            Query::Tip => self is Tip,
            Query::Fee => self is Fee,
            Query::Blocks => self is Blocks,
        }
    }

    /// Whether the reply answers the question.
    pub fn is_answer(&self, query: Query) -> (r: bool)
        ensures
            r == self.answers(query),
    {
        match (query, self) {
            (Query::Status, Reply::Status(_)) => true,
            (Query::Tip, Reply::Tip(_)) => true,
            (Query::Fee, Reply::Fee(_)) => true,
            (Query::Blocks, Reply::Blocks(_)) => true,
            _ => false,
        }
    }
}

/// The quote in an answer about the fee; none after an error.
pub open spec fn quoted(fee: Result<FeeQuote, MempoolError>) -> Option<FeeQuote> {
    match fee {
        Ok(q) => Some(q),
        Err(_) => None,
    }
}

/// The quote in an answer about the fee; none after an error.
pub fn quote_of(fee: Result<FeeQuote, MempoolError>) -> (r: Option<FeeQuote>)
    ensures
        r == quoted(fee),
{
    match fee {
        Ok(q) => Some(q),
        Err(_) => None,
    }
}

/// The transferred value of a quote.
pub open spec fn quoted_value(quote: Option<FeeQuote>) -> Option<u64> {
    match quote {
        Some(q) => Some(q.value_sat),
        None => None,
    }
}

/// The fee of a quote.
pub open spec fn quoted_fee(quote: Option<FeeQuote>) -> Option<u64> {
    match quote {
        Some(q) => Some(q.fee_sats),
        None => None,
    }
}

/// The transferred value and the fee of a quote.
pub fn amounts(quote: Option<FeeQuote>) -> (r: (Option<u64>, Option<u64>))
    ensures
        r.0 == quoted_value(quote),
        r.1 == quoted_fee(quote),
{
    match quote {
        Some(q) => (Some(q.value_sat), Some(q.fee_sats)),
        None => (None, None),
    }
}

} // verus!
