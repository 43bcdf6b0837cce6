//! The acknowledgment table: a mapping from non-zero correlation id to a
//! single-use completion signal, shared between the send path (which
//! registers an id and keeps the waiting side) and the event-dispatch path
//! (which resolves an id when the matching acknowledgment arrives).
//!
//! The completion signal is a `futures` oneshot channel: the table owns the
//! sending half, the original `send_message` caller awaits the receiving
//! half.  Resolving an id fires its signal and removes the entry as one
//! step, so a signal can fire at most once; resolving an id that is not in
//! the table is a no-op, reported to the caller as such (late or unknown
//! acknowledgments are expected under timeouts and restarts, not errors).

use vstd::prelude::*;
use futures::channel::oneshot::{Receiver, Sender};

verus! {

/// The sending half of a `futures` oneshot channel, held opaquely.
#[verifier::external_type_specification]
#[verifier::external_body]
#[verifier::reject_recursive_types(T)]
pub struct ExOneshotSender<T>(Sender<T>);

/// The receiving half of a `futures` oneshot channel, held opaquely.
#[verifier::external_type_specification]
#[verifier::external_body]
#[verifier::reject_recursive_types(T)]
pub struct ExOneshotReceiver<T>(Receiver<T>);

/// The error a oneshot receiver reports when its sender was dropped
/// unfired, held opaquely.
#[verifier::external_type_specification]
#[verifier::external_body]
pub struct ExOneshotCanceled(futures::channel::oneshot::Canceled);

/// Relies on futures::channel::oneshot::channel: a fresh single-use
/// completion pair; the value sent on the first half resolves the second.
#[verifier::external_body]
fn oneshot_pair() -> (Sender<()>, Receiver<()>) {
    futures::channel::oneshot::channel()
}

/// Relies on futures::channel::oneshot::Sender::send: consumes the sending
/// half and completes the paired receiver, or reports the value back when
/// the receiver is already gone.  Either way the signal is spent.
#[verifier::external_body]
fn fire_completion(tx: Sender<()>) {
    let _ = tx.send(());
}

/// One pending acknowledgment: a correlation id and the signal to fire
/// when the acknowledgment for it arrives.
struct AckEntry {
    id: u128,
    tx: Sender<()>,
}

/// The table of pending acknowledgments.  Its mathematical value is the
/// sequence of pending correlation ids, in registration order; a
/// well-formed table holds each id at most once.
pub struct AckTable {
    entries: Vec<AckEntry>,
}

impl View for AckTable {
    type V = Seq<u128>;

    closed spec fn view(&self) -> Seq<u128> {
        self.entries@.map_values(|e: AckEntry| e.id)
    }
}

/// What resolving `id` does to the pending ids: it fires exactly when the
/// id was pending, afterwards the id is pending no more, and no other id is
/// disturbed.
pub open spec fn resolve_post(pre: Seq<u128>, post: Seq<u128>, id: u128, fired: bool) -> bool {
    &&& fired == pre.contains(id)
    &&& !post.contains(id)
    &&& (forall|x: u128| x != id ==> post.contains(x) == pre.contains(x))
    &&& (!pre.contains(id) ==> post == pre)
    &&& (pre.contains(id) ==> post.len() == pre.len() - 1)
}

impl AckTable {
    /// A well-formed table holds each pending id at most once.
    pub open spec fn wf(&self) -> bool {
        forall|i: int, j: int| 0 <= i < j < self@.len() ==> self@[i] != self@[j]
    }

    /// An empty table.
    pub fn new() -> (t: AckTable)
        ensures
            t@ == Seq::<u128>::empty(),
            t.wf(),
    {
        let t = AckTable { entries: Vec::new() };
        assert(t@ =~= Seq::<u128>::empty());
        t
    }

    /// Whether an id is pending, as a runtime check.
    pub fn is_pending(&self, id: u128) -> (r: bool)
        ensures
            r == self@.contains(id),
    {
        let mut i: usize = 0;
        while i < self.entries.len()
            invariant
                i <= self@.len(),
                self@.len() == self.entries@.len(),
                self@ == self.entries@.map_values(|e: AckEntry| e.id),
                forall|j: int| 0 <= j < i ==> self@[j] != id,
            decreases self@.len() - i,
        {
            if self.entries[i].id == id {
                assert(self@[i as int] == id);
                return true;
            }
            i = i + 1;
        }
        false
    }

    /// Stores a fresh pending signal under `id` and returns the waiting
    /// side to the caller.
    pub fn register(&mut self, id: u128) -> (rx: Receiver<()>)
        requires
            old(self).wf(),
            id != 0,
            !old(self)@.contains(id),
        ensures
            final(self)@ == old(self)@.push(id),
            final(self).wf(),
    {
        let (tx, rx) = oneshot_pair();
        self.entries.push(AckEntry { id, tx });
        assert(self@ =~= old(self)@.push(id));
        assert forall|i: int, j: int| 0 <= i < j < self@.len() implies self@[i] != self@[j] by {
            if j == self@.len() - 1 {
                assert(old(self)@[i] != id);
            }
        }
        rx
    }

    /// Looks `id` up; if it is pending, removes the entry and fires its
    /// signal, as one step.  An id that is not pending is a no-op and the
    /// result says so.
    pub fn resolve(&mut self, id: u128) -> (fired: bool)
        requires
            old(self).wf(),
        ensures
            resolve_post(old(self)@, final(self)@, id, fired),
            final(self).wf(),
    {
        let ghost pre = self@;
        let mut i: usize = 0;
        while i < self.entries.len()
            invariant
                i <= self@.len(),
                self@ == pre,
                pre == old(self)@,
                pre == self.entries@.map_values(|e: AckEntry| e.id),
                forall|p: int, q: int| 0 <= p < q < pre.len() ==> pre[p] != pre[q],
                forall|j: int| 0 <= j < i ==> pre[j] != id,
            decreases self@.len() - i,
        {
            if self.entries[i].id == id {
                assert(pre[i as int] == id);
                assert(pre.contains(id));
                let entry = self.entries.remove(i);
                fire_completion(entry.tx);
                proof {
                    let post = self@;
                    assert(post =~= pre.subrange(0, i as int) + pre.subrange(
                        i + 1,
                        pre.len() as int,
                    ));
                    lemma_unique_remove(pre, post, i as int, id);
                }
                return true;
            }
            i = i + 1;
        }
        assert(!self@.contains(id)) by {
            if self@.contains(id) {
                let k = choose|k: int| 0 <= k < self@.len() && self@[k] == id;
                assert(pre[k] != id);
            }
        }
        false
    }
}

/// Removing the one position holding `id` from a duplicate-free sequence
/// leaves every other id pending and `id` pending no more.
proof fn lemma_unique_remove(pre: Seq<u128>, post: Seq<u128>, i: int, id: u128)
    requires
        0 <= i < pre.len(),
        pre[i] == id,
        forall|p: int, q: int| 0 <= p < q < pre.len() ==> pre[p] != pre[q],
        post == pre.subrange(0, i) + pre.subrange(i + 1, pre.len() as int),
    ensures
        !post.contains(id),
        forall|x: u128| x != id ==> post.contains(x) == pre.contains(x),
        post.len() == pre.len() - 1,
        forall|p: int, q: int| 0 <= p < q < post.len() ==> post[p] != post[q],
{
    assert forall|k: int| 0 <= k < post.len() implies post[k] != id by {
        if k < i {
            assert(post[k] == pre[k]);
        } else {
            assert(post[k] == pre[k + 1]);
        }
    }
    assert forall|x: u128| x != id implies post.contains(x) == pre.contains(x) by {
        if pre.contains(x) {
            let k = choose|k: int| 0 <= k < pre.len() && pre[k] == x;
            if k < i {
                assert(post[k] == x);
            } else {
                assert(k > i);
                assert(post[k - 1] == x);
            }
            assert(post.contains(x));
        }
        if post.contains(x) {
            let k = choose|k: int| 0 <= k < post.len() && post[k] == x;
            if k < i {
                assert(pre[k] == x);
            } else {
                assert(pre[k + 1] == x);
            }
            assert(pre.contains(x));
        }
    }
    assert forall|p: int, q: int| 0 <= p < q < post.len() implies post[p] != post[q] by {
        let p1: int = if p < i {
            p
        } else {
            p + 1
        };
        let q1: int = if q < i {
            q
        } else {
            q + 1
        };
        assert(post[p] == pre[p1]);
        assert(post[q] == pre[q1]);
    }
}

/// Law: a correlation id registered and then resolved fires exactly once.
/// The first resolution finds the pending entry; after it the id is free,
/// so a second resolution of the same id fires nothing and changes nothing.
pub proof fn lemma_ack_fires_exactly_once(
    pre: Seq<u128>,
    mid: Seq<u128>,
    post: Seq<u128>,
    id: u128,
    fired_first: bool,
    fired_second: bool,
)
    requires
        !pre.contains(id),
        resolve_post(pre.push(id), mid, id, fired_first),
        resolve_post(mid, post, id, fired_second),
    ensures
        fired_first,
        !fired_second,
        post == mid,
{
    assert(pre.push(id)[pre.len() as int] == id);
    assert(pre.push(id).contains(id));
}

/// Law: resolving an id that was never registered is a no-op: it fires no
/// signal and leaves every pending id in place.
pub proof fn lemma_resolve_unregistered_is_noop(
    pre: Seq<u128>,
    post: Seq<u128>,
    id: u128,
    fired: bool,
)
    requires
        !pre.contains(id),
        resolve_post(pre, post, id, fired),
    ensures
        !fired,
        post == pre,
{
}

} // verus!
