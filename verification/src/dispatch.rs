//! Dispatcher: blocking on one or many pending tokens until a completion,
//! normalized as the selection rule over the completions that are ready.
//!
//! The substrate reports the operations that have finished as completion
//! records. `wait_any_select` picks which of them a loop observes next and
//! obeys one fixed priority rule: when a Send completion and any other
//! completion are simultaneously ready for pending tokens, the Send
//! completion is reported first. No ordering holds beyond that rule, not
//! across connections and not across separate calls.

use crate::outcome::{ConnectionHandle, OperationOutcome, PendingOperationToken};
use crate::pending::PendingSet;
use vstd::prelude::*;

verus! {

/// One finished operation as the substrate reports it: the token it was
/// issued under, the connection that owns it, and its outcome.
pub struct Completion {
    pub token: PendingOperationToken,
    pub conn: ConnectionHandle,
    pub outcome: OperationOutcome,
}

/// Some ready completion belongs to a pending token.
pub open spec fn some_ready(pending: Seq<PendingOperationToken>, ready: Seq<Completion>) -> bool {
    exists|j: int| 0 <= j < ready.len() && pending.contains(ready[j].token)
}

/// Some ready Send completion belongs to a pending token.
pub open spec fn some_ready_send(
    pending: Seq<PendingOperationToken>,
    ready: Seq<Completion>,
) -> bool {
    exists|j: int|
        0 <= j < ready.len() && pending.contains(ready[j].token) && ready[j].outcome is Sent
}

/// What a selection of `wait_any_select` means: the chosen completion is
/// ready, its token is pending at the reported position, Send completions
/// come first, and within a priority class the earliest ready one is taken.
pub open spec fn selection_ok(
    pending: Seq<PendingOperationToken>,
    ready: Seq<Completion>,
    r: Option<(usize, usize)>,
) -> bool {
    match r {
        Some((pi, ri)) => {
            &&& pi < pending.len()
            &&& ri < ready.len()
            &&& ready[ri as int].token == pending[pi as int]
            &&& some_ready_send(pending, ready) ==> ready[ri as int].outcome is Sent
            &&& ready[ri as int].outcome is Sent ==> forall|j: int|
                0 <= j < ri ==> !(pending.contains(ready[j].token) && ready[j].outcome is Sent)
            &&& !(ready[ri as int].outcome is Sent) ==> forall|j: int|
                0 <= j < ri ==> !pending.contains(ready[j].token)
        },
        None => !some_ready(pending, ready),
    }
}

/// Law: when a completed Send and a completed Receive are simultaneously
/// ready for pending tokens, the dispatcher reports the Send completion
/// first. The priority is fixed; it is not arrival order.
pub proof fn lemma_send_reported_first(
    pending: Seq<PendingOperationToken>,
    ready: Seq<Completion>,
    r: Option<(usize, usize)>,
    send_at: int,
    receive_at: int,
)
    requires
        selection_ok(pending, ready, r),
        0 <= send_at < ready.len(),
        pending.contains(ready[send_at].token),
        ready[send_at].outcome is Sent,
        0 <= receive_at < ready.len(),
        pending.contains(ready[receive_at].token),
        ready[receive_at].outcome is Received,
    ensures
        r matches Some(sel) && ready[sel.1 as int].outcome is Sent,
{
    assert(some_ready(pending, ready));
    assert(some_ready_send(pending, ready));
}

/// Position of a token in the pending set, when it is there.
fn find_token(pending: &PendingSet, token: PendingOperationToken) -> (r: Option<usize>)
    ensures
        match r {
            Some(pi) => pi < pending@.len() && pending@[pi as int] == token,
            None => !pending.contains_token(token),
        },
{
    let n = pending.len();
    let mut k: usize = 0;
    while k < n
        invariant
            n == pending@.len(),
            k <= n,
            forall|j: int| 0 <= j < k ==> pending@[j] != token,
        decreases n - k,
    {
        if pending.token_at(k) == token {
            return Some(k);
        }
        k = k + 1;
    }
    None
}

/// Blocks on every pending token at once, here resolved against the
/// completions that are ready: picks the completion the loop observes, as
/// the position of its token in the pending set (the caller must remove it)
/// and the position of the completion among the ready ones. `None` when no
/// ready completion belongs to a pending token, that is, the wait would
/// keep blocking.
pub fn wait_any_select(pending: &PendingSet, ready: &Vec<Completion>) -> (r: Option<(usize, usize)>)
    ensures
        selection_ok(pending@, ready@, r),
{
    // Send completions are served first: one full scan for them, then one
    // scan for anything else that is ready.
    let mut j: usize = 0;
    while j < ready.len()
        invariant
            j <= ready@.len(),
            forall|k: int|
                0 <= k < j ==> !(pending@.contains(ready@[k].token) && ready@[k].outcome is Sent),
        decreases ready@.len() - j,
    {
        if matches!(ready[j].outcome, OperationOutcome::Sent) {
            if let Some(pi) = find_token(pending, ready[j].token) {
                return Some((pi, j));
            }
        }
        j = j + 1;
    }
    assert(!some_ready_send(pending@, ready@));
    let mut j: usize = 0;
    while j < ready.len()
        invariant
            j <= ready@.len(),
            !some_ready_send(pending@, ready@),
            forall|k: int| 0 <= k < j ==> !pending@.contains(ready@[k].token),
        decreases ready@.len() - j,
    {
        if let Some(pi) = find_token(pending, ready[j].token) {
            return Some((pi, j));
        }
        j = j + 1;
    }
    None
}

/// Blocks on a single token, here resolved against the ready completions:
/// the position of the first completion carrying that token, or `None`
/// when its operation has not finished and the wait would keep blocking.
pub fn wait_one_select(token: PendingOperationToken, ready: &Vec<Completion>) -> (r: Option<usize>)
    ensures
        match r {
            Some(ri) => ri < ready@.len() && ready@[ri as int].token == token && forall|j: int|
                0 <= j < ri ==> ready@[j].token != token,
            None => forall|j: int| 0 <= j < ready@.len() ==> ready@[j].token != token,
        },
{
    let mut j: usize = 0;
    while j < ready.len()
        invariant
            j <= ready@.len(),
            forall|k: int| 0 <= k < j ==> ready@[k].token != token,
        decreases ready@.len() - j,
    {
        if ready[j].token == token {
            return Some(j);
        }
        j = j + 1;
    }
    None
}

} // verus!
