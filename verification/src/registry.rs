//! The live set of subscriber outlets: who gets notified of new
//! rounds, and how many deliveries a broadcast actually made.

use vstd::prelude::*;

verus! {

/// The mathematical value of the registry: the live outlet handles in
/// registration order, and the next handle to hand out.
#[verifier::ext_equal]
pub struct RegistryModel {
    pub live: Seq<u64>,
    pub next_handle: u64,
}

/// The live set of subscriber outlets. Handles come from a counter, so
/// every live handle is unique; removal is by handle and idempotent;
/// a broadcast snapshot is the live handles in registration order.
///
/// A handle leaves the set only through `unsubscribe`: a failed
/// delivery during one broadcast never removes it.
pub struct SubscriberRegistry {
    handles: Vec<u64>,
    next_handle: u64,
}

impl View for SubscriberRegistry {
    type V = RegistryModel;

    closed spec fn view(&self) -> RegistryModel {
        RegistryModel { live: self.handles@, next_handle: self.next_handle }
    }
}

/// The index of the first occurrence of `handle`, if it occurs.
fn find_first(handles: &Vec<u64>, handle: u64) -> (found: Option<usize>)
    ensures
        match found {
            Some(i) => {
                &&& i < handles@.len()
                &&& handles@[i as int] == handle
                &&& forall|j: int| 0 <= j < i ==> handles@[j] != handle
            },
            None => !handles@.contains(handle),
        },
{
    let n = handles.len();
    let mut i: usize = 0;
    while i < n
        invariant
            n == handles@.len(),
            0 <= i <= n,
            forall|j: int| 0 <= j < i ==> handles@[j] != handle,
        decreases n - i,
    {
        if handles[i] == handle {
            return Some(i);
        }
        i += 1;
    }
    None
}

impl SubscriberRegistry {
    /// Handles appear in registration order, which the counter makes
    /// strictly increasing, and every live handle is below the counter.
    #[verifier::type_invariant]
    spec fn inv(self) -> bool {
        &&& forall|i: int, j: int|
            0 <= i < j < self.handles@.len() ==> self.handles@[i] < self.handles@[j]
        &&& forall|i: int| 0 <= i < self.handles@.len() ==> self.handles@[i] < self.next_handle
    }

    /// An empty registry.
    pub fn new() -> (r: Self)
        ensures
            r@.live =~= Seq::<u64>::empty(),
            r@.next_handle == 0,
    {
        SubscriberRegistry { handles: Vec::new(), next_handle: 0 }
    }

    /// Whether the handle counter still has room for another outlet.
    pub fn can_subscribe(&self) -> (ok: bool)
        ensures
            ok == (self@.next_handle < u64::MAX),
    {
        self.next_handle < u64::MAX
    }

    /// Adds an outlet and returns its fresh handle: the new outlet is
    /// last in registration order and nothing else changes, so it is
    /// eligible for the next broadcast but never for one already
    /// snapshot.
    pub fn subscribe(&mut self) -> (handle: u64)
        requires
            old(self)@.next_handle < u64::MAX,
        ensures
            handle == old(self)@.next_handle,
            !old(self)@.live.contains(handle),
            final(self)@.live == old(self)@.live.push(handle),
            final(self)@.next_handle == old(self)@.next_handle + 1,
    {
        proof {
            use_type_invariant(&*self);
        }
        let handle = self.next_handle;
        let mut hs: Vec<u64> = Vec::new();
        core::mem::swap(&mut hs, &mut self.handles);
        hs.push(handle);
        self.next_handle = handle + 1;
        self.handles = hs;
        handle
    }

    /// Removes the outlet with this handle, if it is live; removing an
    /// unknown or already-removed handle changes nothing. Afterwards
    /// the handle is not live.
    pub fn unsubscribe(&mut self, handle: u64)
        ensures
            final(self)@.live == old(self)@.live.remove_value(handle),
            !final(self)@.live.contains(handle),
            final(self)@.next_handle == old(self)@.next_handle,
    {
        proof {
            use_type_invariant(&*self);
            old(self)@.live.index_of_first_ensures(handle);
        }
        let ghost prior = self.handles@;
        let found = find_first(&self.handles, handle);
        match found {
            None => {
                proof {
                    assert(!prior.contains(handle));
                }
            },
            Some(i) => {
                proof {
                    assert(prior.index_of_first(handle) == Some(i as int));
                    prior.remove_ensures(i as int);
                    assert forall|k: int| 0 <= k < prior.remove(i as int).len() implies prior.remove(
                        i as int,
                    )[k] != handle by {
                        if k < i {
                            assert(prior.remove(i as int)[k] == prior[k]);
                        } else {
                            assert(prior.remove(i as int)[k] == prior[k + 1]);
                            assert(prior[i as int] < prior[k + 1]);
                        }
                    }
                }
                let mut hs: Vec<u64> = Vec::new();
                core::mem::swap(&mut hs, &mut self.handles);
                hs.remove(i);
                self.handles = hs;
            },
        }
    }

    /// How many outlets are live.
    pub fn live_count(&self) -> (n: usize)
        ensures
            n == self@.live.len(),
    {
        self.handles.len()
    }

    /// The handles a broadcast must deliver to, in registration order.
    /// The count of this snapshot, taken together with the per-outlet
    /// delivery results, fixes the round's notified count once and for
    /// all: registry changes made afterwards cannot touch it.
    pub fn snapshot(&self) -> (handles: Vec<u64>)
        ensures
            handles@ == self@.live,
    {
        let n = self.handles.len();
        let mut out: Vec<u64> = Vec::new();
        let mut i: usize = 0;
        while i < n
            invariant
                n == self.handles@.len(),
                0 <= i <= n,
                out@ =~= self.handles@.take(i as int),
            decreases n - i,
        {
            let h = self.handles[i];
            out.push(h);
            i += 1;
        }
        proof {
            assert(out@ =~= self.handles@);
        }
        out
    }
}

/// How many of a broadcast's per-outlet deliveries succeeded.
pub open spec fn count_true(results: Seq<bool>) -> nat
    decreases results.len(),
{
    if results.len() == 0 {
        0
    } else {
        count_true(results.drop_last()) + (if results.last() {
            1nat
        } else {
            0nat
        })
    }
}

/// No more deliveries can succeed than were attempted.
pub proof fn lemma_count_true_le_len(results: Seq<bool>)
    ensures
        count_true(results) <= results.len(),
    decreases results.len(),
{
    if results.len() > 0 {
        lemma_count_true_le_len(results.drop_last());
    }
}

/// Counts the deliveries of a broadcast that reached their outlet:
/// exactly the round's notified count. A failed delivery is skipped
/// for this broadcast only, so it lowers the count without removing
/// anything from the registry.
pub fn delivered_count(results: &Vec<bool>) -> (n: usize)
    ensures
        n == count_true(results@),
{
    let len = results.len();
    let mut n: usize = 0;
    let mut i: usize = 0;
    while i < len
        invariant
            len == results@.len(),
            0 <= i <= len,
            n == count_true(results@.take(i as int)),
            n <= i,
        decreases len - i,
    {
        proof {
            assert(results@.take(i + 1).drop_last() =~= results@.take(i as int));
            assert(results@.take(i + 1).last() == results@[i as int]);
        }
        if results[i] {
            n += 1;
        }
        i += 1;
    }
    proof {
        assert(results@.take(len as int) =~= results@);
    }
    n
}

} // verus!
