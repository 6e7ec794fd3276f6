//! The window transfers a device runs: each with the window, the devices
//! it moves between, the worker that captures and encodes it, and whether
//! it is still running.

use vstd::prelude::*;
use crate::device::DeviceId;
use crate::edge::{first_where, lemma_first_where_found, lemma_first_where_none};
use crate::window::{WindowId, WindowInfo};

verus! {

pub struct ActiveTransfer<C> {
    pub window: WindowInfo,
    pub source_device: DeviceId,
    pub target_device: DeviceId,
    pub worker: C,
    pub running: bool,
}

/// The number of running transfers in `s`.
pub open spec fn running_count<C>(s: Seq<ActiveTransfer<C>>) -> nat
    decreases s.len(),
{
    if s.len() == 0 {
        0
    } else {
        running_count(s.drop_last()) + if s.last().running {
            1nat
        } else {
            0nat
        }
    }
}

/// Whether a transfer moves the window `id`.
pub open spec fn moves<C>(id: WindowId) -> spec_fn(ActiveTransfer<C>) -> bool {
    |t: ActiveTransfer<C>| t.window.id == id
}

/// Whether a transfer moves some other window than `id`.
pub open spec fn moves_other<C>(id: WindowId) -> spec_fn(ActiveTransfer<C>) -> bool {
    |t: ActiveTransfer<C>| t.window.id != id
}

/// The window and target of the first transfer of window `id`, if any.
pub open spec fn first_transfer_of<C>(s: Seq<ActiveTransfer<C>>, id: WindowId) -> Option<
    (WindowInfo, DeviceId),
> {
    match first_where(s, moves(id)) {
        Some(i) => Some((s[i].window, s[i].target_device)),
        None => None,
    }
}

pub struct TransferList<C> {
    transfers: Vec<ActiveTransfer<C>>,
}

proof fn lemma_filter_push<A>(s: Seq<A>, e: A, p: spec_fn(A) -> bool)
    ensures
        s.push(e).filter(p) == (if p(e) {
            s.filter(p).push(e)
        } else {
            s.filter(p)
        }),
{
    reveal(Seq::filter);
    assert(s.push(e).drop_last() == s);
}

proof fn lemma_tails_agree<A>(x: Seq<A>, i: int, y: Seq<A>, j: int)
    requires
        0 <= i < x.len(),
        0 <= j <= y.len(),
        x.subrange(i, x.len() as int) == y.subrange(j, y.len() as int),
    ensures
        j < y.len(),
        x[i] == y[j],
        x.subrange(i + 1, x.len() as int) == y.subrange(j + 1, y.len() as int),
{
    let a = x.subrange(i, x.len() as int);
    let b = y.subrange(j, y.len() as int);
    assert(a.len() == b.len());
    assert(a[0] == x[i] && b[0] == y[j]);
    assert forall|t: int| 0 <= t < x.len() - (i + 1) implies #[trigger] x.subrange(i + 1, x.len() as int)[t]
        == y.subrange(j + 1, y.len() as int)[t] by {
        assert(a[t + 1] == b[t + 1]);
    }
    assert(x.subrange(i + 1, x.len() as int) =~= y.subrange(j + 1, y.len() as int));
}

impl<C> TransferList<C> {
    /// The transfers, in the order they were started.
    pub closed spec fn entries(&self) -> Seq<ActiveTransfer<C>> {
        self.transfers@
    }

    pub fn new() -> (l: TransferList<C>)
        ensures
            l.entries() == Seq::<ActiveTransfer<C>>::empty(),
    {
        TransferList { transfers: Vec::new() }
    }

    /// Adds a running transfer.
    pub fn start_transfer(
        &mut self,
        window: WindowInfo,
        source_device: DeviceId,
        target_device: DeviceId,
        worker: C,
    )
        ensures
            final(self).entries() == old(self).entries().push(
                ActiveTransfer { window, source_device, target_device, worker, running: true },
            ),
    {
        self.transfers.push(ActiveTransfer { window, source_device, target_device, worker, running: true });
    }

    pub fn len(&self) -> (n: usize)
        ensures
            n == self.entries().len(),
    {
        self.transfers.len()
    }

    /// Whether the `i`-th transfer is a running transfer of window `id`.
    pub fn is_running_transfer_of(&self, i: usize, id: WindowId) -> (b: bool)
        requires
            i < self.entries().len(),
        ensures
            b == (self.entries()[i as int].window.id == id && self.entries()[i as int].running),
    {
        self.transfers[i].window.id == id && self.transfers[i].running
    }

    /// The worker of the `i`-th transfer, to capture and encode with.
    pub fn worker_mut(&mut self, i: usize) -> (w: &mut C)
        requires
            i < old(self).entries().len(),
        ensures
            *w == old(self).entries()[i as int].worker,
            final(self).entries() == old(self).entries().update(
                i as int,
                ActiveTransfer { worker: *final(w), ..old(self).entries()[i as int] },
            ),
    {
        &mut self.transfers[i].worker
    }

    /// The number of transfers still running.
    pub fn active_transfer_count(&self) -> (n: usize)
        ensures
            n == running_count(self.entries()),
    {
        let s = &self.transfers;
        let mut count: usize = 0;
        let mut i: usize = 0;
        while i < s.len()
            invariant
                i <= s@.len(),
                count == running_count(s@.subrange(0, i as int)),
                count <= i,
            decreases s@.len() - i,
        {
            assert(s@.subrange(0, i + 1).drop_last() == s@.subrange(0, i as int));
            if s[i].running {
                count = count + 1;
            }
            i = i + 1;
        }
        assert(s@.subrange(0, s@.len() as int) == s@);
        count
    }

    /// Ends every transfer of window `id`; says which window went to which
    /// device, from the first of them, for the completion report.
    pub fn stop_transfer(&mut self, id: WindowId) -> (r: Option<(WindowInfo, DeviceId)>)
        ensures
            r == first_transfer_of(old(self).entries(), id),
            final(self).entries() == old(self).entries().filter(moves_other(id)),
    {
        let ghost before = self.transfers@;
        let ghost p = moves::<C>(id);
        let mut found: Option<(WindowInfo, DeviceId)> = None;
        let mut k: usize = 0;
        while k < self.transfers.len()
            invariant
                self.transfers@ == before,
                p == moves::<C>(id),
                k <= before.len(),
                found is None ==> forall|j: int| 0 <= j < k ==> !#[trigger] p(before[j]),
                found is Some ==> found == first_transfer_of(before, id),
            decreases before.len() - k,
        {
            if found.is_none() && self.transfers[k].window.id == id {
                proof {
                    lemma_first_where_found(before, p, k as int);
                }
                found = Some((self.transfers[k].window.clone(), self.transfers[k].target_device));
            }
            k = k + 1;
        }
        proof {
            if found is None {
                lemma_first_where_none(before, p);
            }
        }
        let ghost q = moves_other::<C>(id);
        let ghost mut j: int = 0;
        let mut i: usize = 0;
        assert(before.subrange(0, 0).filter(q) =~= Seq::<ActiveTransfer<C>>::empty()) by {
            reveal(Seq::filter);
        }
        while i < self.transfers.len()
            invariant
                q == moves_other::<C>(id),
                0 <= i <= j <= before.len(),
                i <= self.transfers@.len(),
                self.transfers@.subrange(0, i as int) == before.subrange(0, j).filter(q),
                self.transfers@.subrange(i as int, self.transfers@.len() as int) == before.subrange(
                    j,
                    before.len() as int,
                ),
            decreases self.transfers@.len() - i,
        {
            let ghost cur = self.transfers@;
            proof {
                lemma_tails_agree(cur, i as int, before, j);
                lemma_filter_push(before.subrange(0, j), before[j], q);
                assert(before.subrange(0, j + 1) =~= before.subrange(0, j).push(before[j]));
            }
            if self.transfers[i].window.id == id {
                let _removed = self.transfers.remove(i);
                proof {
                    assert(self.transfers@.subrange(0, i as int) =~= cur.subrange(0, i as int));
                    assert(self.transfers@.subrange(i as int, self.transfers@.len() as int) =~= cur.subrange(
                        i + 1,
                        cur.len() as int,
                    ));
                    j = j + 1;
                }
            } else {
                proof {
                    assert(cur.subrange(0, i + 1) =~= cur.subrange(0, i as int).push(cur[i as int]));
                    j = j + 1;
                }
                i = i + 1;
            }
        }
        proof {
            assert(j == before.len()) by {
                assert(self.transfers@.subrange(i as int, self.transfers@.len() as int).len() == 0);
            }
            assert(self.transfers@.subrange(0, i as int) == self.transfers@);
            assert(before.subrange(0, j) == before);
        }
        found
    }
}

/// After a window's transfers are stopped, none of them is left.
pub proof fn lemma_stopped_transfers_gone<C>(s: Seq<ActiveTransfer<C>>, id: WindowId)
    ensures
        forall|i: int|
            0 <= i < s.filter(moves_other(id)).len() ==> (#[trigger] s.filter(moves_other(id))[i]).window.id
                != id,
{
    broadcast use vstd::seq_lib::group_filter_ensures;
    assert forall|i: int| 0 <= i < s.filter(moves_other(id)).len() implies (#[trigger] s.filter(
        moves_other(id),
    )[i]).window.id != id by {
        assert(moves_other::<C>(id)(s.filter(moves_other(id))[i]));
    }
}

} // verus!
