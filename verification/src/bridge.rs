//! The completion bridge shared by all asynchronous operations.
//!
//! Submitting an operation registers its continuation under a fresh
//! identifier; the daemon's completion resolves it.  The bridge guarantees
//! that each registered continuation is resolved exactly once: resolving
//! an identifier a second time is rejected, and a dropped transport
//! resolves every still-pending identifier once, so none is left hanging
//! and none fires twice.  Identifiers are never reused.

use vstd::prelude::*;

verus! {

/// The pending and already-resolved continuations of one handle.
#[derive(Clone, Debug)]
pub struct Bridge {
    /// The next identifier to hand out; all issued ones are below it.
    pub next_id: u64,
    /// Identifiers whose continuation was registered and not yet resolved.
    pub pending: Vec<u64>,
    /// Identifiers whose continuation has been resolved.
    pub fired: Vec<u64>,
}

/// Well-formedness: every issued identifier is below `next_id`, no
/// identifier is listed twice, and none is both pending and fired.
pub open spec fn bridge_inv(b: Bridge) -> bool {
    &&& forall|i: int| 0 <= i < b.pending@.len() ==> #[trigger] b.pending@[i] < b.next_id
    &&& forall|i: int| 0 <= i < b.fired@.len() ==> #[trigger] b.fired@[i] < b.next_id
    &&& b.pending@.no_duplicates()
    &&& b.fired@.no_duplicates()
    &&& forall|x: u64| b.pending@.contains(x) ==> !(#[trigger] b.fired@.contains(x))
}

/// What `complete` does: it fires exactly when `id` was pending, and then
/// moves `id` from the pending identifiers to the fired ones; on an
/// unknown or already-fired identifier nothing changes.
pub open spec fn complete_post(pre: Bridge, post: Bridge, id: u64, fired_now: bool) -> bool {
    &&& fired_now == pre.pending@.contains(id)
    &&& (fired_now ==> {
        &&& post.fired@ == pre.fired@.push(id)
        &&& post.pending@.len() == pre.pending@.len() - 1
        &&& forall|x: u64|
            #[trigger] post.pending@.contains(x) <==> (pre.pending@.contains(x) && x != id)
        &&& post.next_id == pre.next_id
    })
    &&& (!fired_now ==> post == pre)
}

/// What `fail_all` does: every pending identifier is resolved, in order,
/// exactly once, and none is pending afterwards.
pub open spec fn fail_all_post(pre: Bridge, post: Bridge, resolved: Seq<u64>) -> bool {
    &&& resolved == pre.pending@
    &&& post.pending@.len() == 0
    &&& post.fired@ == pre.fired@ + pre.pending@
    &&& post.next_id == pre.next_id
}

impl Bridge {
    /// A bridge with nothing submitted yet.
    pub fn new() -> (b: Bridge)
        ensures
            bridge_inv(b),
            b.pending@.len() == 0,
            b.fired@.len() == 0,
            b.next_id == 0,
    {
        Bridge { next_id: 0, pending: Vec::new(), fired: Vec::new() }
    }

    /// Registers the continuation of a newly submitted operation and
    /// returns its identifier, which was never issued before.
    pub fn submit(&mut self) -> (id: u64)
        requires
            bridge_inv(*old(self)),
            old(self).next_id < u64::MAX,
        ensures
            bridge_inv(*final(self)),
            id == old(self).next_id,
            !old(self).pending@.contains(id),
            !old(self).fired@.contains(id),
            final(self).pending@ == old(self).pending@.push(id),
            final(self).fired@ == old(self).fired@,
            final(self).next_id == old(self).next_id + 1,
    {
        let id = self.next_id;
        assert(!self.pending@.contains(id) && !self.fired@.contains(id)) by {
            if self.pending@.contains(id) {
                let i = choose|i: int| 0 <= i < self.pending@.len() && self.pending@[i] == id;
                assert(self.pending@[i] < self.next_id);
            }
            if self.fired@.contains(id) {
                let i = choose|i: int| 0 <= i < self.fired@.len() && self.fired@[i] == id;
                assert(self.fired@[i] < self.next_id);
            }
        };
        self.pending.push(id);
        self.next_id = self.next_id + 1;
        assert(bridge_inv(*self)) by {
            assert forall|x: u64| self.pending@.contains(x) implies !(#[trigger] self.fired@.contains(
                x,
            )) by {
                if x != id {
                    assert(old(self).pending@.contains(x));
                }
            }
            assert(self.pending@.drop_last() == old(self).pending@);
        };
        id
    }

    /// Resolves the continuation registered under `id`.  Returns whether
    /// it fired now; a second resolution of the same identifier returns
    /// `false` and changes nothing.
    pub fn complete(&mut self, id: u64) -> (fired_now: bool)
        requires
            bridge_inv(*old(self)),
        ensures
            bridge_inv(*final(self)),
            complete_post(*old(self), *final(self), id, fired_now),
    {
        let mut i: usize = 0;
        while i < self.pending.len()
            invariant
                *self == *old(self),
                bridge_inv(*old(self)),
                0 <= i <= self.pending@.len(),
                forall|j: int| 0 <= j < i ==> self.pending@[j] != id,
            decreases self.pending@.len() - i,
        {
            if self.pending[i] == id {
                let ghost pre = self.pending@;
                let ghost prefired = self.fired@;
                proof {
                    assert(pre[i as int] == id);
                    assert(pre.contains(id));
                }
                self.pending.remove(i);
                self.fired.push(id);
                proof {
                    pre.remove_ensures(i as int);
                    let post = self.pending@;
                    assert forall|x: u64| #[trigger] post.contains(x) implies (pre.contains(x)
                        && x != id) by {
                        let j = choose|j: int| 0 <= j < post.len() && post[j] == x;
                        if j < i {
                            assert(post[j] == pre[j]);
                            assert(pre[j] != pre[i as int]);
                        } else {
                            assert(post[j] == pre[j + 1]);
                            assert(pre[j + 1] != pre[i as int]);
                        }
                    }
                    assert forall|x: u64| pre.contains(x) && x != id implies #[trigger] post
                        .contains(x) by {
                        let j = choose|j: int| 0 <= j < pre.len() && pre[j] == x;
                        if j < i {
                            assert(post[j] == x);
                        } else {
                            assert(j != i);
                            assert(post[j - 1] == x);
                        }
                    }
                    assert forall|k: int, l: int| 0 <= k < l < post.len() implies post[k]
                        != post[l] by {
                        let k2: int = if k < i { k } else { k + 1 };
                        let l2: int = if l < i { l } else { l + 1 };
                        assert(post[k] == pre[k2]);
                        assert(post[l] == pre[l2]);
                        assert(pre[k2] != pre[l2]);
                    }
                    assert forall|x: u64| #[trigger] self.fired@.contains(x) implies (
                    prefired.contains(x) || x == id) by {
                        let j = choose|j: int|
                            0 <= j < self.fired@.len() && self.fired@[j] == x;
                        if j < prefired.len() {
                            assert(prefired[j] == x);
                        }
                    }
                    assert forall|k: int, l: int| 0 <= k < l < self.fired@.len() implies self
                        .fired@[k] != self.fired@[l] by {
                        if l < prefired.len() {
                            assert(self.fired@[k] == prefired[k]);
                            assert(self.fired@[l] == prefired[l]);
                        } else {
                            assert(self.fired@[l] == id);
                            assert(self.fired@[k] == prefired[k]);
                            assert(prefired.contains(prefired[k]));
                        }
                    }
                    assert forall|j: int| 0 <= j < self.fired@.len() implies #[trigger] self
                        .fired@[j] < self.next_id by {
                        if j < prefired.len() {
                            assert(self.fired@[j] == prefired[j]);
                        } else {
                            assert(self.fired@[j] == id);
                        }
                    }
                    assert forall|x: u64| post.contains(x) implies !(#[trigger] self
                        .fired@.contains(x)) by {
                        assert(pre.contains(x) && x != id);
                    }
                    assert forall|j: int| 0 <= j < post.len() implies #[trigger] post[j]
                        < self.next_id by {
                        assert(post.contains(post[j]));
                        assert(pre.contains(post[j]));
                    }
                }
                return true;
            }
            i = i + 1;
        }
        assert(!self.pending@.contains(id)) by {
            if self.pending@.contains(id) {
                let j = choose|j: int| 0 <= j < self.pending@.len() && self.pending@[j] == id;
            }
        };
        false
    }

    /// The transport dropped: resolves every pending continuation, in
    /// submission order, and returns their identifiers so the caller can
    /// deliver the transport error to each exactly once.
    pub fn fail_all(&mut self) -> (resolved: Vec<u64>)
        requires
            bridge_inv(*old(self)),
        ensures
            bridge_inv(*final(self)),
            fail_all_post(*old(self), *final(self), resolved@),
    {
        let mut resolved: Vec<u64> = Vec::new();
        let mut i: usize = 0;
        while i < self.pending.len()
            invariant
                self.pending@ == old(self).pending@,
                self.next_id == old(self).next_id,
                0 <= i <= self.pending@.len(),
                resolved@ == self.pending@.subrange(0, i as int),
                self.fired@ == old(self).fired@ + self.pending@.subrange(0, i as int),
                bridge_inv(*old(self)),
            decreases self.pending@.len() - i,
        {
            let id = self.pending[i];
            resolved.push(id);
            self.fired.push(id);
            proof {
                assert(resolved@ == self.pending@.subrange(0, i + 1 as int));
                assert(self.fired@ == old(self).fired@ + self.pending@.subrange(0, i + 1 as int));
            }
            i = i + 1;
        }
        proof {
            assert(self.pending@.subrange(0, self.pending@.len() as int) == self.pending@);
        }
        self.pending.clear();
        proof {
            assert(bridge_inv(*self)) by {
                let merged = old(self).fired@ + old(self).pending@;
                assert forall|k: int, l: int| 0 <= k < l < merged.len() implies merged[k]
                    != merged[l] by {
                    let n = old(self).fired@.len() as int;
                    if k < n && l >= n {
                        assert(merged[k] == old(self).fired@[k]);
                        assert(merged[l] == old(self).pending@[l - n]);
                        assert(old(self).pending@.contains(old(self).pending@[l - n]));
                        if merged[k] == merged[l] {
                            assert(old(self).fired@.contains(merged[l]));
                        }
                    }
                }
            };
        }
        resolved
    }
}

} // verus!
