//! The pending set: the unordered collection of tokens of currently
//! outstanding operations, owned exclusively by the loop that issued them.
//!
//! A token enters the set when its operation is issued and leaves it exactly
//! once, when the dispatcher reports that operation complete; a removed token
//! is never waited on again. The set never holds a token twice.

use crate::outcome::PendingOperationToken;
use vstd::prelude::*;

verus! {

/// Tokens of the operations issued and not yet observed complete.
pub struct PendingSet {
    tokens: Vec<PendingOperationToken>,
}

impl View for PendingSet {
    type V = Seq<PendingOperationToken>;

    closed spec fn view(&self) -> Seq<PendingOperationToken> {
        self.tokens@
    }
}

impl PendingSet {
    /// Every token is present at most once.
    pub open spec fn wf(&self) -> bool {
        forall|i: int, j: int| 0 <= i < j < self@.len() ==> self@[i] != self@[j]
    }

    pub open spec fn contains_token(&self, token: PendingOperationToken) -> bool {
        self@.contains(token)
    }

    /// An empty pending set: no operation is outstanding.
    pub fn new() -> (r: PendingSet)
        ensures
            r@ == Seq::<PendingOperationToken>::empty(),
            r.wf(),
    {
        PendingSet { tokens: Vec::new() }
    }

    /// How many operations are outstanding.
    pub fn len(&self) -> (n: usize)
        ensures
            n == self@.len(),
    {
        self.tokens.len()
    }

    /// The token at a position, for handing the set to a waiting primitive.
    pub fn token_at(&self, i: usize) -> (t: PendingOperationToken)
        requires
            i < self@.len(),
        ensures
            t == self@[i as int],
    {
        self.tokens[i]
    }

    /// Whether a token is in the set; lets a caller establish that a token
    /// is fresh before registering it.
    pub fn contains(&self, token: PendingOperationToken) -> (b: bool)
        ensures
            b == self.contains_token(token),
    {
        let n = self.tokens.len();
        let mut k: usize = 0;
        while k < n
            invariant
                n == self@.len(),
                k <= n,
                forall|j: int| 0 <= j < k ==> self@[j] != token,
            decreases n - k,
        {
            if self.tokens[k] == token {
                return true;
            }
            k = k + 1;
        }
        false
    }

    /// Registers the token of a freshly issued operation.
    pub fn insert(&mut self, token: PendingOperationToken)
        requires
            old(self).wf(),
            !old(self).contains_token(token),
        ensures
            final(self)@ == old(self)@.push(token),
            final(self).wf(),
            final(self)@.len() == old(self)@.len() + 1,
    {
        self.tokens.push(token);
        proof {
            assert forall|i: int, j: int| 0 <= i < j < self@.len() implies self@[i] != self@[j] by {
                if j < self@.len() - 1 {
                    assert(old(self)@[i] != old(self)@[j]);
                } else {
                    assert(self@[j] == token);
                    assert(old(self)@.contains(old(self)@[i]));
                }
            }
        }
    }

    /// Removes the token whose operation completed, by its position. The
    /// order of what stays is not preserved: the set is unordered.
    pub fn remove_at(&mut self, i: usize) -> (t: PendingOperationToken)
        requires
            old(self).wf(),
            i < old(self)@.len(),
        ensures
            t == old(self)@[i as int],
            final(self)@.len() == old(self)@.len() - 1,
            final(self).wf(),
            !final(self).contains_token(t),
            forall|u: PendingOperationToken|
                u != t ==> (final(self).contains_token(u) <==> old(self).contains_token(u)),
    {
        let t = self.tokens.swap_remove(i);
        proof {
            let pre = old(self)@;
            let post = self@;
            assert(post =~= pre.update(i as int, pre.last()).drop_last());
            assert forall|a: int, b: int| 0 <= a < b < post.len() implies post[a] != post[b] by {
                assert(post[a] == if a == i { pre[pre.len() - 1] } else { pre[a] });
                assert(post[b] == if b == i { pre[pre.len() - 1] } else { pre[b] });
            }
            assert forall|k: int| 0 <= k < post.len() implies post[k] != t by {
                assert(post[k] == if k == i { pre[pre.len() - 1] } else { pre[k] });
            }
            assert forall|u: PendingOperationToken| u != t implies (post.contains(u)
                <==> pre.contains(u)) by {
                if post.contains(u) {
                    let k = choose|k: int| 0 <= k < post.len() && post[k] == u;
                    if k == i {
                        assert(pre[pre.len() - 1] == u);
                    } else {
                        assert(pre[k] == u);
                    }
                    assert(pre.contains(u));
                }
                if pre.contains(u) {
                    let k = choose|k: int| 0 <= k < pre.len() && pre[k] == u;
                    assert(k != i);
                    if k == pre.len() - 1 {
                        assert(post[i as int] == u);
                    } else {
                        assert(post[k] == u);
                    }
                    assert(post.contains(u));
                }
            }
        }
        t
    }
}

} // verus!
