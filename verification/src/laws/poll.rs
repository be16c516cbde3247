//! Watches: what is done after which replies, over whole runs.

use crate::apns::types::BlockPosition;
use crate::mempool::{FeeQuote, MempoolBlock, MempoolError, TxStatus};
use crate::watcher::poll;
use crate::watcher::poll::{Notice, PollAction, PollState, Watch};
use crate::watcher::position;
use crate::watcher::reply::{Query, Reply};
use vstd::prelude::*;

verus! {

/// How many pauses are over, by the replies: the number of attempts that were begun.
pub open spec fn attempts(replies: Seq<Reply>) -> nat
    decreases replies.len(),
{
    if replies.len() == 0 {
        0
    } else {
        attempts(replies.drop_last()) + (if replies.last() is Woke {
            1nat
        } else {
            0nat
        })
    }
}

/// The fee that was read, where it was.
pub open spec fn known(fee: Result<FeeQuote, MempoolError>) -> Option<FeeQuote> {
    match fee {
        Ok(q) => Some(q),
        Err(_) => None,
    }
}

/// The position that a fee and blocks that were read give; none of the next two without either.
pub open spec fn projected(
    fee: Result<FeeQuote, MempoolError>,
    blocks: Result<Vec<MempoolBlock>, MempoolError>,
) -> BlockPosition {
    match (fee, blocks) {
        (Ok(q), Ok(b)) => position::block_position(q.rate, b@),
        _ => BlockPosition::Other,
    }
}

/// The height that an alert names, zero for an unknown one.
pub open spec fn named_height(status: TxStatus) -> u64 {
    match status.block_height {
        Some(h) => h,
        None => 0,
    }
}

/// After an attempt that found no confirmation there is another pause, or after four hundred and
/// eighty of them the news that the transaction was given up.
pub open spec fn goes_on(begun: nat, action: PollAction) -> bool {
    if begun < 480 {
        action == PollAction::Sleep
    } else {
        action == PollAction::Notify(Notice::PushExpired)
    }
}

/// What the replies before a state say about it.
spec fn fits(w: Watch, states: Seq<PollState>, replies: Seq<Reply>, k: int) -> bool {
    let begun = attempts(replies.take(k));
    match states[k] {
        PollState::Sleeping { attempt } => begun == attempt - 1 && attempt <= 480,
        PollState::AwaitStatus { attempt } => begun == attempt && attempt <= 480,
        PollState::AwaitFee { attempt, confirmed } => {
            &&& begun == attempt && attempt <= 480
            &&& k >= 1
            &&& replies[k - 1] matches Reply::Status(Ok(status)) && confirmed == (
            if status.confirmed {
                Some(named_height(status))
            } else {
                None
            })
        },
        PollState::AwaitBlocks { attempt, quote } => {
            &&& begun == attempt && attempt <= 480
            &&& k >= 2
            &&& replies[k - 2] matches Reply::Status(Ok(status)) && !status.confirmed
            &&& replies[k - 1] matches Reply::Fee(fee) && quote == known(fee)
        },
        PollState::Updating { attempt } => {
            &&& begun == attempt && attempt <= 480
            &&& k >= 1
            &&& poll::action(w, states, replies, k - 1) matches PollAction::Notify(n) && n is Pending
        },
        PollState::Confirming { block_height } => {
            &&& k >= 2
            &&& replies[k - 2] matches Reply::Status(Ok(status)) && status.confirmed && block_height
                == named_height(status)
            &&& replies[k - 1] is Fee
            &&& poll::action(w, states, replies, k - 1) matches PollAction::Notify(n) && n
                is Confirmed
        },
        PollState::Expiring => {
            &&& k >= 1
            &&& poll::action(w, states, replies, k - 1) == PollAction::Notify(Notice::PushExpired)
        },
        PollState::Ending => {
            &&& k >= 1
            &&& poll::action(w, states, replies, k - 1) matches PollAction::Notify(n) && (n
                is PushConfirmed || n is Expired)
        },
        PollState::Stopped => true,
    }
}

proof fn lemma_fits(w: Watch, states: Seq<PollState>, replies: Seq<Reply>, k: int)
    requires
        poll::is_run(w, states, replies),
        0 <= k < states.len(),
    ensures
        fits(w, states, replies, k),
    decreases k,
{
    if k > 0 {
        lemma_fits(w, states, replies, k - 1);
        let r = replies[k - 1];
        assert(states[k] == poll::next(w, states[k - 1], r).0);
        assert(replies.take(k).drop_last() =~= replies.take(k - 1));
        assert(replies.take(k).last() == r);
    } else {
        assert(replies.take(0).len() == 0);
    }
}

/// What a watch does follows from the replies alone. After a pause it reads the status; after a
/// status the fee, and after an error it goes on. After the fee it tells a confirmation, or reads
/// the projected blocks while the transaction is pending. After the blocks it tells that, with this
/// attempt's fee and position. After the news of a pending transaction it goes on; after that of a
/// confirmation it tells the device where there is no activity; after that of the end of the last
/// attempt it tells the activity where there is one; and then it stops.
pub proof fn watches_follow_the_replies(
    w: Watch,
    states: Seq<PollState>,
    replies: Seq<Reply>,
    k: int,
)
    requires
        poll::is_run(w, states, replies),
        0 <= k < replies.len(),
    ensures
        ({
            let done = poll::action(w, states, replies, k);
            let begun = attempts(replies.take(k));
            match replies[k] {
                Reply::Woke => done == PollAction::Ask(Query::Status) && begun < 480,
                Reply::Status(Ok(_)) => done == PollAction::Ask(Query::Fee),
                Reply::Status(Err(_)) => goes_on(begun, done),
                Reply::Fee(fee) => k >= 1 && (replies[k - 1] matches Reply::Status(Ok(status)) && (
                if status.confirmed {
                    done == PollAction::Notify(Notice::Confirmed { quote: known(fee) })
                } else {
                    done == PollAction::Ask(Query::Blocks)
                })),
                Reply::Blocks(blocks) => k >= 2 && (replies[k - 2] matches Reply::Status(Ok(status))
                    && !status.confirmed) && (replies[k - 1] matches Reply::Fee(fee) && done
                    == PollAction::Notify(
                    Notice::Pending { quote: known(fee), position: projected(fee, blocks) },
                )),
                Reply::Notified => k >= 1 && (match poll::action(w, states, replies, k - 1) {
                    PollAction::Notify(Notice::Pending { .. }) => goes_on(begun, done),
                    PollAction::Notify(Notice::Confirmed { .. }) => if w.activity_token is None {
                        k >= 2 && (replies[k - 2] matches Reply::Status(Ok(status))
                            && status.confirmed && done == PollAction::Notify(
                            Notice::PushConfirmed { block_height: named_height(status) },
                        ))
                    } else {
                        done == PollAction::Stop
                    },
                    PollAction::Notify(Notice::PushExpired) => if w.activity_token is Some {
                        done == PollAction::Notify(Notice::Expired)
                    } else {
                        done == PollAction::Stop
                    },
                    PollAction::Notify(Notice::PushConfirmed { .. }) => done == PollAction::Stop,
                    PollAction::Notify(Notice::Expired) => done == PollAction::Stop,
                    _ => false,
                }),
                Reply::Tip(_) => false,
            }
        }),
{
    lemma_fits(w, states, replies, k);
    let r = replies[k];
    assert(poll::waits_for(states[k], r));
    crate::laws::double::doubles_compare_by_their_bits(
        position::quoted_rate(None),
        position::quoted_rate(None),
    );
}

/// Every attempt that finds the transaction pending tells it once, whatever its number: the fee is
/// read, then the projected blocks, and then the activity gets an update with what this attempt
/// read. Only then comes the next attempt, or the end of the last.
pub proof fn every_pending_attempt_is_told(
    w: Watch,
    states: Seq<PollState>,
    replies: Seq<Reply>,
    k: int,
    status: TxStatus,
)
    requires
        poll::is_run(w, states, replies),
        0 <= k < replies.len(),
        replies[k] == Reply::Status(Ok(status)),
        !status.confirmed,
    ensures
        poll::action(w, states, replies, k) == PollAction::Ask(Query::Fee),
        k + 1 < replies.len() ==> replies[k + 1] is Fee && poll::action(w, states, replies, k + 1)
            == PollAction::Ask(Query::Blocks),
        k + 2 < replies.len() ==> {
            &&& replies[k + 2] is Blocks
            &&& poll::action(w, states, replies, k + 2) == PollAction::Notify(
                Notice::Pending {
                    quote: known(replies[k + 1]->Fee_0),
                    position: projected(replies[k + 1]->Fee_0, replies[k + 2]->Blocks_0),
                },
            )
        },
        k + 3 < replies.len() ==> replies[k + 3] is Notified && goes_on(
            attempts(replies.take(k)),
            poll::action(w, states, replies, k + 3),
        ),
{
    let r0 = replies[k];
    lemma_fits(w, states, replies, k);
    watches_follow_the_replies(w, states, replies, k);
    if k + 1 < replies.len() {
        let r1 = replies[k + 1];
        lemma_fits(w, states, replies, k + 1);
        watches_follow_the_replies(w, states, replies, k + 1);
    }
    if k + 2 < replies.len() {
        let r2 = replies[k + 2];
        lemma_fits(w, states, replies, k + 2);
        watches_follow_the_replies(w, states, replies, k + 2);
    }
    if k + 3 < replies.len() {
        let r3 = replies[k + 3];
        lemma_fits(w, states, replies, k + 3);
        watches_follow_the_replies(w, states, replies, k + 3);
        assert(replies.take(k + 3).drop_last() =~= replies.take(k + 2));
        assert(replies.take(k + 2).drop_last() =~= replies.take(k + 1));
        assert(replies.take(k + 1).drop_last() =~= replies.take(k));
        assert(attempts(replies.take(k + 3)) == attempts(replies.take(k)));
    }
}

/// A watch waits for the reply to what it did last: the end of its pause, the answer to its question
/// or the end of a notification. After it stopped it waits for nothing.
pub proof fn watches_wait_for_what_they_did(w: Watch, s: PollState, r: Reply, reply: Reply)
    requires
        poll::waits_for(s, r),
    ensures
        poll::waits_for(PollState::Sleeping { attempt: 1 }, reply) <==> reply is Woke,
        ({
            let (after, action) = poll::next(w, s, r);
            poll::waits_for(after, reply) <==> match action {
                PollAction::Sleep => reply is Woke,
                PollAction::Ask(Query::Status) => reply is Status,
                PollAction::Ask(Query::Tip) => reply is Tip,
                PollAction::Ask(Query::Fee) => reply is Fee,
                PollAction::Ask(Query::Blocks) => reply is Blocks,
                PollAction::Notify(_) => reply is Notified,
                PollAction::Stop => false,
            }
        }),
{
}

} // verus!
