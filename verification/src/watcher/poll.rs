//! Polling a transaction until it is confirmed or given up.

use crate::apns::types::BlockPosition;
use crate::mempool::{FeeQuote, MempoolError, TxStatus};
use crate::watcher::position;
use crate::watcher::reply;
use crate::watcher::reply::{Query, Reply};
use vstd::prelude::*;

verus! {

/// Seconds between two looks at a transaction.
pub const POLL_INTERVAL_SECS: u64 = 30;

/// Looks at a transaction before it is given up: four hours of them.
pub const MAX_ATTEMPTS: u32 = 480;

/// A transaction that is watched, and who is told about it.
#[derive(Debug)]
pub struct Watch {
    pub txid: String,
    /// Token of the device, for alerts; may be empty.
    pub device_token: String,
    /// Token of a Live Activity that runs on the device, where there is one.
    pub activity_token: Option<String>,
    /// Whether there is a client to send notifications.
    pub apns: bool,
}

/// Something to tell about a watched transaction.
#[derive(Debug, Clone, Copy)]
pub enum Notice {
    /// To the activity: the transaction is pending.
    Pending { quote: Option<FeeQuote>, position: BlockPosition },
    /// To the activity, which ends: the transaction is confirmed.
    Confirmed { quote: Option<FeeQuote> },
    /// To the activity, which ends: the transaction was given up.
    Expired,
    /// To the device: the transaction is in the block of this height, zero for an unknown one.
    PushConfirmed { block_height: u64 },
    /// To the device: the transaction was given up.
    PushExpired,
}

/// How far a watch has come, by what it waits for.
#[derive(Debug, Clone, Copy)]
pub enum PollState {
    /// The end of the pause before an attempt.
    Sleeping { attempt: u32 },
    /// The status of the transaction.
    AwaitStatus { attempt: u32 },
    /// The fee of the transaction: in the block of this height, zero for an unknown one, or
    /// pending.
    AwaitFee { attempt: u32, confirmed: Option<u64> },
    /// The projected blocks, for a pending transaction with this quote.
    AwaitBlocks { attempt: u32, quote: Option<FeeQuote> },
    /// The news to the activity that the transaction is pending.
    Updating { attempt: u32 },
    /// The news to the activity that the transaction is confirmed.
    Confirming { block_height: u64 },
    /// The news to the device that the transaction was given up.
    Expiring,
    /// The last notification.
    Ending,
    /// Nothing more.
    Stopped,
}

/// What a watch does next.
#[derive(Debug, Clone, Copy)]
pub enum PollAction {
    /// Pause for [`POLL_INTERVAL_SECS`].
    Sleep,
    Ask(Query),
    /// Send what [`Watch::deliver`] makes of this.
    Notify(Notice),
    Stop,
}

/// The state waits for this reply.
pub open spec fn waits_for(s: PollState, r: Reply) -> bool {
    match s {
        PollState::Sleeping { .. } => r is Woke,
        PollState::AwaitStatus { .. } => r is Status,
        PollState::AwaitFee { .. } => r is Fee,
        PollState::AwaitBlocks { .. } => r is Blocks,
        PollState::Updating { .. } => r is Notified,
        PollState::Confirming { .. } => r is Notified,
        PollState::Expiring => r is Notified,
        PollState::Ending => r is Notified,
        PollState::Stopped => false,
    }
}

/// The attempt that a state belongs to, if it does, is one of those that a watch makes.
pub open spec fn in_range(s: PollState) -> bool {
    match s {
        PollState::Sleeping { attempt } => 1 <= attempt <= MAX_ATTEMPTS,
        PollState::AwaitStatus { attempt } => 1 <= attempt <= MAX_ATTEMPTS,
        PollState::AwaitFee { attempt, .. } => 1 <= attempt <= MAX_ATTEMPTS,
        PollState::AwaitBlocks { attempt, .. } => 1 <= attempt <= MAX_ATTEMPTS,
        PollState::Updating { attempt } => 1 <= attempt <= MAX_ATTEMPTS,
        _ => true,
    }
}

/// After an attempt that did not settle the matter: the next one, or the end of the last.
pub open spec fn after_attempt(attempt: u32) -> (PollState, PollAction) {
    if attempt < MAX_ATTEMPTS {
        (PollState::Sleeping { attempt: (attempt + 1) as u32 }, PollAction::Sleep)
    } else {
        (PollState::Expiring, PollAction::Notify(Notice::PushExpired))
    }
}

/// The height of the block of a confirmed transaction, zero for an unknown one; none while it is
/// pending.
pub open spec fn confirmed_at(status: TxStatus) -> Option<u64> {
    if status.confirmed {
        match status.block_height {
            Some(h) => Some(h),
            None => Some(0),
        }
    } else {
        None
    }
}

/// What a watch does with a reply.
///
/// Each attempt looks at the status. Where there is none, whatever the error, the attempt is over.
/// Else the fee is asked for. While the transaction is pending, the projected blocks are asked for
/// and the activity is told. When it is confirmed, the activity is told, or the device where there
/// is no activity, and the watch ends. After the last attempt the device is told, and the activity
/// where there is one.
pub open spec fn next(w: Watch, s: PollState, r: Reply) -> (PollState, PollAction) {
    match (s, r) {
        (PollState::Sleeping { attempt }, Reply::Woke) => (
            PollState::AwaitStatus { attempt },
            PollAction::Ask(Query::Status),
        ),
        (PollState::AwaitStatus { attempt }, Reply::Status(Ok(status))) => (
            PollState::AwaitFee { attempt, confirmed: confirmed_at(status) },
            PollAction::Ask(Query::Fee),
        ),
        (PollState::AwaitStatus { attempt }, Reply::Status(Err(_))) => after_attempt(attempt),
        (PollState::AwaitFee { attempt, confirmed: None }, Reply::Fee(fee)) => (
            PollState::AwaitBlocks { attempt, quote: reply::quoted(fee) },
            PollAction::Ask(Query::Blocks),
        ),
        (PollState::AwaitFee { confirmed: Some(block_height), .. }, Reply::Fee(fee)) => (
            PollState::Confirming { block_height },
            PollAction::Notify(Notice::Confirmed { quote: reply::quoted(fee) }),
        ),
        (PollState::AwaitBlocks { attempt, quote }, Reply::Blocks(blocks)) => (
            PollState::Updating { attempt },
            PollAction::Notify(
                Notice::Pending {
                    quote,
                    position: position::resolved_position(blocks, position::quoted_rate(quote)),
                },
            ),
        ),
        (PollState::Updating { attempt }, Reply::Notified) => after_attempt(attempt),
        (PollState::Confirming { block_height }, Reply::Notified) => if w.activity_token is None {
            (PollState::Ending, PollAction::Notify(Notice::PushConfirmed { block_height }))
        } else {
            (PollState::Stopped, PollAction::Stop)
        },
        (PollState::Expiring, Reply::Notified) => if w.activity_token is Some {
            (PollState::Ending, PollAction::Notify(Notice::Expired))
        } else {
            (PollState::Stopped, PollAction::Stop)
        },
        _ => (PollState::Stopped, PollAction::Stop),
    }
}

impl PollState {
    /// Whether the state waits for this reply.
    pub fn expects(&self, reply: &Reply) -> (r: bool)
        ensures
            r == waits_for(*self, *reply),
    {
        match self {
            PollState::Sleeping { .. } => matches!(reply, Reply::Woke),
            PollState::AwaitStatus { .. } => reply.is_answer(Query::Status),
            PollState::AwaitFee { .. } => reply.is_answer(Query::Fee),
            PollState::AwaitBlocks { .. } => reply.is_answer(Query::Blocks),
            PollState::Updating { .. } => matches!(reply, Reply::Notified),
            PollState::Confirming { .. } => matches!(reply, Reply::Notified),
            PollState::Expiring => matches!(reply, Reply::Notified),
            PollState::Ending => matches!(reply, Reply::Notified),
            PollState::Stopped => false,
        }
    }
}

fn end_attempt(attempt: u32) -> (r: (PollState, PollAction))
    ensures
        r == after_attempt(attempt),
{
    if attempt < MAX_ATTEMPTS {
        (PollState::Sleeping { attempt: attempt + 1 }, PollAction::Sleep)
    } else {
        (PollState::Expiring, PollAction::Notify(Notice::PushExpired))
    }
}

/// The first state of a watch, and the pause before its first attempt.
pub fn background_poll() -> (r: (PollState, PollAction))
    ensures
        r == (PollState::Sleeping { attempt: 1 }, PollAction::Sleep),
{
    (PollState::Sleeping { attempt: 1 }, PollAction::Sleep)
}

impl Watch {
    /// Goes on with the reply to what the watch did last.
    pub fn step(&self, state: PollState, reply: Reply) -> (r: (PollState, PollAction))
        requires
            waits_for(state, reply),
        ensures
            r == next(*self, state, reply),
    {
        match (state, reply) {
            (PollState::Sleeping { attempt }, Reply::Woke) => (
                PollState::AwaitStatus { attempt },
                PollAction::Ask(Query::Status),
            ),
            (PollState::AwaitStatus { attempt }, Reply::Status(Ok(status))) => {
                let confirmed = if status.confirmed {
                    match status.block_height {
                        Some(h) => Some(h),
                        None => Some(0),
                    }
                } else {
                    None
                };
                (PollState::AwaitFee { attempt, confirmed }, PollAction::Ask(Query::Fee))
            },
            (PollState::AwaitStatus { attempt }, Reply::Status(Err(_))) => end_attempt(attempt),
            (PollState::AwaitFee { attempt, confirmed }, Reply::Fee(fee)) => {
                let quote = reply::quote_of(fee);
                match confirmed {
                    None => (
                        PollState::AwaitBlocks { attempt, quote },
                        PollAction::Ask(Query::Blocks),
                    ),
                    Some(block_height) => (
                        PollState::Confirming { block_height },
                        PollAction::Notify(Notice::Confirmed { quote }),
                    ),
                }
            },
            (PollState::AwaitBlocks { attempt, quote }, Reply::Blocks(blocks)) => {
                let position = position::resolve_block_position(&blocks, position::rate_of(quote));
                (
                    PollState::Updating { attempt },
                    PollAction::Notify(Notice::Pending { quote, position }),
                )
            },
            (PollState::Updating { attempt }, Reply::Notified) => end_attempt(attempt),
            (PollState::Confirming { block_height }, Reply::Notified) => {
                if self.activity_token.is_none() {
                    (PollState::Ending, PollAction::Notify(Notice::PushConfirmed { block_height }))
                } else {
                    (PollState::Stopped, PollAction::Stop)
                }
            },
            (PollState::Expiring, Reply::Notified) => {
                if self.activity_token.is_some() {
                    (PollState::Ending, PollAction::Notify(Notice::Expired))
                } else {
                    (PollState::Stopped, PollAction::Stop)
                }
            },
            _ => (PollState::Stopped, PollAction::Stop),
        }
    }
}

/// A run of a watch: it starts in the first state, and each state follows from the one before by
/// a reply that it waited for.
pub open spec fn is_run(w: Watch, states: Seq<PollState>, replies: Seq<Reply>) -> bool {
    &&& states.len() == replies.len() + 1
    &&& states[0] == PollState::Sleeping { attempt: 1 }
    &&& forall|k: int|
        #![trigger replies[k]]
        0 <= k < replies.len() ==> waits_for(states[k], replies[k]) && states[k + 1] == next(
            w,
            states[k],
            replies[k],
        ).0
}

/// What a run does with reply `k`.
pub open spec fn action(w: Watch, states: Seq<PollState>, replies: Seq<Reply>, k: int) -> PollAction {
    next(w, states[k], replies[k]).1
}

/// An upper bound on the replies that a watch still waits for.
spec fn steps_left(s: PollState) -> int {
    match s {
        PollState::Sleeping { attempt } => 7 + (MAX_ATTEMPTS - attempt) * 5,
        PollState::AwaitStatus { attempt } => 6 + (MAX_ATTEMPTS - attempt) * 5,
        PollState::AwaitFee { attempt, .. } => 5 + (MAX_ATTEMPTS - attempt) * 5,
        PollState::AwaitBlocks { attempt, .. } => 4 + (MAX_ATTEMPTS - attempt) * 5,
        PollState::Updating { attempt } => 3 + (MAX_ATTEMPTS - attempt) * 5,
        PollState::Confirming { .. } => 2,
        PollState::Expiring => 2,
        PollState::Ending => 1,
        PollState::Stopped => 0,
    }
}

proof fn lemma_run_state(w: Watch, states: Seq<PollState>, replies: Seq<Reply>, k: int)
    requires
        is_run(w, states, replies),
        0 <= k < states.len(),
    ensures
        in_range(states[k]),
        k + steps_left(states[k]) <= 5 * MAX_ATTEMPTS + 2,
    decreases k,
{
    if k > 0 {
        lemma_run_state(w, states, replies, k - 1);
        let r = replies[k - 1];
        assert(states[k] == next(w, states[k - 1], r).0);
    }
}

/// Every watch ends, whatever the replies: it waits for at most five in an attempt and two after
/// the last.
pub proof fn watch_ends(w: Watch, states: Seq<PollState>, replies: Seq<Reply>)
    requires
        is_run(w, states, replies),
    ensures
        replies.len() <= 5 * MAX_ATTEMPTS + 2,
{
    lemma_run_state(w, states, replies, replies.len() as int);
}

/// A watch goes on until it has stopped: every other state waits for some reply.
pub proof fn only_stopped_waits_for_nothing(s: PollState)
    ensures
        s is Stopped <==> forall|r: Reply| !#[trigger] waits_for(s, r),
{
    assert(waits_for(s, Reply::Woke) <==> s is Sleeping);
    assert(waits_for(s, Reply::Notified) <==> s is Updating || s is Confirming || s is Expiring || s
        is Ending);
    assert(waits_for(s, Reply::Status(Err(MempoolError::NotFound))) <==> s is AwaitStatus);
    assert(waits_for(s, Reply::Fee(Err(MempoolError::NotFound))) <==> s is AwaitFee);
    assert(waits_for(s, Reply::Blocks(Err(MempoolError::NotFound))) <==> s is AwaitBlocks);
}

/// The number of pauses among the states.
pub open spec fn pauses(states: Seq<PollState>) -> nat
    decreases states.len(),
{
    if states.len() == 0 {
        0
    } else {
        pauses(states.drop_last()) + (if states.last() is Sleeping {
            1nat
        } else {
            0nat
        })
    }
}

/// The attempt that a state belongs to; the last for a state after the attempts.
spec fn reached(s: PollState) -> int {
    match s {
        PollState::Sleeping { attempt } => attempt as int,
        PollState::AwaitStatus { attempt } => attempt as int,
        PollState::AwaitFee { attempt, .. } => attempt as int,
        PollState::AwaitBlocks { attempt, .. } => attempt as int,
        PollState::Updating { attempt } => attempt as int,
        _ => MAX_ATTEMPTS as int,
    }
}

/// The state belongs to an attempt.
spec fn in_attempt(s: PollState) -> bool {
    s is Sleeping || s is AwaitStatus || s is AwaitFee || s is AwaitBlocks || s is Updating
}

proof fn lemma_pauses(w: Watch, states: Seq<PollState>, replies: Seq<Reply>, k: int)
    requires
        is_run(w, states, replies),
        0 <= k < states.len(),
    ensures
        pauses(states.take(k + 1)) <= reached(states[k]),
        in_attempt(states[k]) ==> pauses(states.take(k + 1)) == reached(states[k]),
    decreases k,
{
    assert(states.take(k + 1).drop_last() =~= states.take(k));
    if k > 0 {
        lemma_pauses(w, states, replies, k - 1);
        lemma_run_state(w, states, replies, k - 1);
        let r = replies[k - 1];
        assert(states[k] == next(w, states[k - 1], r).0);
    } else {
        assert(states.take(0) =~= Seq::<PollState>::empty());
        assert(pauses(states.take(0)) == 0);
    }
}

/// A watch pauses at most as often as it has attempts, which is four hours in all.
pub proof fn watch_lasts_four_hours(w: Watch, states: Seq<PollState>, replies: Seq<Reply>)
    requires
        is_run(w, states, replies),
    ensures
        pauses(states) <= MAX_ATTEMPTS,
        pauses(states) * POLL_INTERVAL_SECS <= 4 * 60 * 60,
        MAX_ATTEMPTS * POLL_INTERVAL_SECS == 4 * 60 * 60,
{
    let last = states.len() - 1;
    lemma_pauses(w, states, replies, last);
    lemma_run_state(w, states, replies, last);
    assert(states.take(last + 1) =~= states);
}

/// A transaction is given up only after all four hours of pauses.
pub proof fn expiry_takes_four_hours(w: Watch, states: Seq<PollState>, replies: Seq<Reply>, k: int)
    requires
        is_run(w, states, replies),
        0 <= k < replies.len(),
        action(w, states, replies, k) matches PollAction::Notify(n) && n is PushExpired,
    ensures
        pauses(states.take(k + 1)) * POLL_INTERVAL_SECS == 4 * 60 * 60,
{
    let r = replies[k];
    lemma_pauses(w, states, replies, k);
    lemma_run_state(w, states, replies, k);
}

/// After the news that a transaction is confirmed, a watch says nothing but that to the device,
/// and that only where there is no activity.
pub proof fn nothing_after_confirmation(
    w: Watch,
    states: Seq<PollState>,
    replies: Seq<Reply>,
    i: int,
    j: int,
)
    requires
        is_run(w, states, replies),
        0 <= i < j < replies.len(),
        action(w, states, replies, i) matches PollAction::Notify(n) && n is Confirmed,
    ensures
        match action(w, states, replies, j) {
            PollAction::Stop => true,
            PollAction::Notify(n) => n is PushConfirmed && w.activity_token is None && j == i + 1,
            _ => false,
        },
{
    let a = replies[i];
    let b = replies[i + 1];
    assert(states[i + 1] is Confirming);
    if j > i + 1 {
        let c = replies[i + 2];
        assert(states[i + 2] is Ending || states[i + 2] is Stopped);
        if j > i + 2 {
            let d = replies[i + 3];
            assert(states[i + 3] is Stopped);
        }
    }
}

/// After the news that a transaction was given up, a watch says nothing but that to the activity,
/// and that only where there is one.
pub proof fn nothing_after_expiry(
    w: Watch,
    states: Seq<PollState>,
    replies: Seq<Reply>,
    i: int,
    j: int,
)
    requires
        is_run(w, states, replies),
        0 <= i < j < replies.len(),
        action(w, states, replies, i) matches PollAction::Notify(n) && n is PushExpired,
    ensures
        match action(w, states, replies, j) {
            PollAction::Stop => true,
            PollAction::Notify(n) => n is Expired && w.activity_token is Some && j == i + 1,
            _ => false,
        },
{
    let a = replies[i];
    let b = replies[i + 1];
    assert(states[i + 1] is Expiring);
    if j > i + 1 {
        let c = replies[i + 2];
        assert(states[i + 2] is Ending || states[i + 2] is Stopped);
        if j > i + 2 {
            let d = replies[i + 3];
            assert(states[i + 3] is Stopped);
        }
    }
}

/// A confirmation that an attempt finds is told, whatever comes of the question about the fee: to
/// the activity where there is one, and else to the device. Then the watch ends.
pub proof fn confirmation_is_told(
    w: Watch,
    attempt: u32,
    status: TxStatus,
    fee: Result<FeeQuote, MempoolError>,
)
    requires
        status.confirmed,
    ensures
        ({
            let asked = next(w, PollState::AwaitStatus { attempt }, Reply::Status(Ok(status)));
            let found = next(w, asked.0, Reply::Fee(fee));
            let told = next(w, found.0, Reply::Notified);
            let end = next(w, told.0, Reply::Notified);
            let first = Notice::Confirmed { quote: reply::quoted(fee) };
            let second = Notice::PushConfirmed { block_height: confirmed_at(status)->0 };
            &&& asked.1 == PollAction::Ask(Query::Fee)
            &&& found.1 == PollAction::Notify(first)
            &&& w.activity_token is Some ==> told == (PollState::Stopped, PollAction::Stop)
            &&& w.activity_token is None ==> !w.hears(first) && told.1 == PollAction::Notify(second)
                && end == (PollState::Stopped, PollAction::Stop)
        }),
{
}

/// No error about the status ends a watch early: it goes on with the next attempt.
pub proof fn no_error_ends_early(w: Watch, attempt: u32, e: MempoolError)
    requires
        1 <= attempt < MAX_ATTEMPTS,
    ensures
        next(w, PollState::AwaitStatus { attempt }, Reply::Status(Err(e))) == (
            PollState::Sleeping { attempt: (attempt + 1) as u32 },
            PollAction::Sleep,
        ),
{
}

/// The reply finds the transaction confirmed.
pub open spec fn finds_confirmed(r: Reply) -> bool {
    r matches Reply::Status(Ok(status)) && status.confirmed
}

/// How often the status was read, by the replies.
pub open spec fn reads(replies: Seq<Reply>) -> nat
    decreases replies.len(),
{
    if replies.len() == 0 {
        0
    } else {
        reads(replies.drop_last()) + (if replies.last() is Status {
            1nat
        } else {
            0nat
        })
    }
}

/// How often the status was read before this state, and whether the transaction was then found
/// confirmed: an attempt reads it once, and what the state says of either fits.
spec fn reads_fit(s: PollState, n: nat, confirmed: bool) -> bool {
    match s {
        PollState::Sleeping { attempt } => n == attempt - 1 && !confirmed,
        PollState::AwaitStatus { attempt } => n == attempt - 1 && !confirmed,
        PollState::AwaitFee { attempt, confirmed: at } => n == attempt && confirmed == (at is Some),
        PollState::AwaitBlocks { attempt, .. } => n == attempt && !confirmed,
        PollState::Updating { attempt } => n == attempt && !confirmed,
        PollState::Confirming { .. } => confirmed,
        PollState::Expiring => n == MAX_ATTEMPTS && !confirmed,
        PollState::Ending => !confirmed ==> n == MAX_ATTEMPTS,
        PollState::Stopped => !confirmed ==> n == MAX_ATTEMPTS,
    }
}

/// Some reply finds the transaction confirmed.
spec fn some_confirmed(replies: Seq<Reply>) -> bool {
    exists|i: int| 0 <= i < replies.len() && finds_confirmed(#[trigger] replies[i])
}

proof fn lemma_reads(w: Watch, states: Seq<PollState>, replies: Seq<Reply>, k: int)
    requires
        is_run(w, states, replies),
        0 <= k < states.len(),
    ensures
        reads_fit(states[k], reads(replies.take(k)), some_confirmed(replies.take(k))),
    decreases k,
{
    if k > 0 {
        let before = replies.take(k - 1);
        let after = replies.take(k);
        lemma_reads(w, states, replies, k - 1);
        lemma_run_state(w, states, replies, k - 1);
        let r = replies[k - 1];
        assert(states[k] == next(w, states[k - 1], r).0);
        assert(after.drop_last() =~= before);
        assert(after.last() == r);
        if some_confirmed(before) {
            let i = choose|i: int| 0 <= i < before.len() && finds_confirmed(#[trigger] before[i]);
            assert(after[i] == before[i]);
        }
        if finds_confirmed(r) {
            assert(after[k - 1] == r);
        }
        if some_confirmed(after) {
            let i = choose|i: int| 0 <= i < after.len() && finds_confirmed(#[trigger] after[i]);
            assert(i < k - 1 ==> before[i] == after[i]);
        }
        assert(some_confirmed(after) == (some_confirmed(before) || finds_confirmed(r)));
    } else {
        assert(replies.take(0).len() == 0);
    }
}

/// After the status was found confirmed it is not read again.
proof fn lemma_no_read_after(
    w: Watch,
    states: Seq<PollState>,
    replies: Seq<Reply>,
    k: int,
    n: int,
)
    requires
        is_run(w, states, replies),
        0 <= k < n < states.len(),
        finds_confirmed(replies[k]),
    ensures
        reads(replies.take(n)) == reads(replies.take(k + 1)),
        forall|i: int| k < i < n ==> !finds_confirmed(#[trigger] replies[i]),
    decreases n,
{
    if n > k + 1 {
        lemma_no_read_after(w, states, replies, k, n - 1);
        lemma_reads(w, states, replies, n - 1);
        assert(replies.take(n - 1)[k] == replies[k]);
        assert(some_confirmed(replies.take(n - 1)));
        let r = replies[n - 1];
        assert(r !is Status);
        assert(replies.take(n).drop_last() =~= replies.take(n - 1));
    }
}

/// A watch that has stopped read the status exactly as often as the number of the first attempt
/// that found the transaction confirmed, and as often as it has attempts where none did.
pub proof fn status_is_read_until_confirmed(w: Watch, states: Seq<PollState>, replies: Seq<Reply>)
    requires
        is_run(w, states, replies),
        states.last() is Stopped,
    ensures
        forall|k: int|
            0 <= k < replies.len() && finds_confirmed(#[trigger] replies[k]) ==> {
                &&& states[k] == PollState::AwaitStatus { attempt: reads(replies) as u32 }
                &&& 1 <= reads(replies) <= MAX_ATTEMPTS
                &&& forall|i: int|
                    0 <= i < replies.len() && i != k ==> !finds_confirmed(#[trigger] replies[i])
            },
        (forall|k: int| 0 <= k < replies.len() ==> !finds_confirmed(#[trigger] replies[k]))
            ==> reads(replies) == MAX_ATTEMPTS,
{
    let len = replies.len() as int;
    assert(replies.take(len) =~= replies);
    lemma_reads(w, states, replies, len);
    assert forall|k: int| 0 <= k < len && finds_confirmed(#[trigger] replies[k]) implies {
        &&& states[k] == PollState::AwaitStatus { attempt: reads(replies) as u32 }
        &&& 1 <= reads(replies) <= MAX_ATTEMPTS
        &&& forall|i: int| 0 <= i < len && i != k ==> !finds_confirmed(#[trigger] replies[i])
    } by {
        lemma_run_state(w, states, replies, k);
        lemma_reads(w, states, replies, k);
        lemma_no_read_after(w, states, replies, k, len);
        assert(replies.take(k + 1).drop_last() =~= replies.take(k));
        assert forall|i: int| 0 <= i < k implies !finds_confirmed(#[trigger] replies[i]) by {
            if finds_confirmed(replies[i]) {
                assert(replies.take(k)[i] == replies[i]);
                assert(some_confirmed(replies.take(k)));
            }
        }
    }
}

} // verus!
