//! The metadata of one wait slot, and what a notify on it must do.
//!
//! Many addresses share one slot. A slot remembers how many threads sleep on
//! it and, while all of them sleep on the same address, which one. Once two
//! distinct addresses meet in a slot it is marked mixed until it empties.
//!
//! The ghost model of a slot is the multiset of addresses of the threads
//! registered on it; [`WaitMetadata::tracks`] ties the metadata to it.

use vstd::multiset::Multiset;
use vstd::prelude::*;

verus! {

/// Folds the bit pattern of an address down to the index of its slot.
pub open spec fn fold_address(x: u64) -> u8 {
    let x_32: u32 = ((x >> 32u64) as u32) ^ (x as u32);
    let x_16: u16 = ((x_32 >> 16u32) as u16) ^ (x_32 as u16);
    ((x_16 >> 8u16) as u8) ^ ((x_16 >> 2u16) as u8)
}

/// Gets the slot index to use for the given address.
pub fn entry_for_ptr(addr: usize) -> (r: u8)
    ensures
        r == fold_address(addr as u64),
{
    let x_64: u64 = addr as u64;
    let x_32: u32 = ((x_64 >> 32u64) as u32) ^ (x_64 as u32);
    let x_16: u16 = ((x_32 >> 16u32) as u16) ^ (x_32 as u16);
    ((x_16 >> 8u16) as u8) ^ ((x_16 >> 2u16) as u8)
}

/// Holds metadata that gets written while the slot is locked.
#[derive(Debug, Clone, Copy, PartialEq, Eq, Structural)]
pub struct WaitMetadata {
    /// The address upon which all registered threads are waiting,
    /// or `None` when they wait on different addresses.
    pub address: Option<usize>,
    /// The number of threads waiting on this slot.
    pub waiting_count: usize,
}

/// What a notify does to the condition variable of a slot.
#[derive(Debug, Clone, Copy, PartialEq, Eq, Structural)]
pub enum Wake {
    /// Signal nobody.
    Nobody,
    /// Signal every sleeper of the slot.
    Everyone,
    /// Signal the condition variable this many times, each waking one
    /// sleeper of the slot.
    Count(usize),
}

impl WaitMetadata {
    /// The metadata describes the registered waiters `w` (one entry per
    /// waiting thread, the address it waits on): the count is theirs, and a
    /// tracked address is the one every one of them waits on.
    pub open spec fn tracks(self, w: Multiset<usize>) -> bool {
        &&& self.waiting_count == w.len()
        &&& self.address matches Option::Some(t) ==> forall|x: usize| x != t ==> w.count(x) == 0
    }

    /// The metadata after a thread waiting on `addr` registered.
    pub open spec fn registered(self, addr: usize) -> WaitMetadata {
        WaitMetadata {
            address: if self.waiting_count == 0 {
                Option::Some(addr)
            } else if self.address == Option::Some(addr) {
                self.address
            } else {
                Option::None
            },
            waiting_count: (self.waiting_count + 1) as usize,
        }
    }

    /// The metadata after a registered thread left.
    pub open spec fn unregistered(self) -> WaitMetadata {
        WaitMetadata { address: self.address, waiting_count: (self.waiting_count - 1) as usize }
    }

    /// What `notify_all` does on this slot, and the count it reports.
    pub open spec fn notify_all_spec(self) -> (Wake, usize) {
        if self.waiting_count == 0 {
            (Wake::Nobody, 0)
        } else {
            (Wake::Everyone, self.waiting_count)
        }
    }

    /// What `notify_many(count)` does on this slot, and the count it reports.
    /// Without a single tracked address, or with no more waiters than
    /// requested, everyone is woken.
    pub open spec fn notify_many_spec(self, count: usize) -> (Wake, usize) {
        if self.waiting_count == 0 {
            (Wake::Nobody, 0)
        } else if self.address is None || self.waiting_count <= count {
            (Wake::Everyone, self.waiting_count)
        } else {
            (Wake::Count(count), count)
        }
    }

    /// The metadata of a slot that nobody has used yet.
    pub open spec fn new_spec() -> WaitMetadata {
        WaitMetadata { address: Option::None, waiting_count: 0 }
    }

    /// The metadata of a slot that nobody has used yet.
    pub fn new() -> (r: WaitMetadata)
        ensures
            r == WaitMetadata::new_spec(),
            r.tracks(Multiset::empty()),
    {
        WaitMetadata { address: None, waiting_count: 0 }
    }

    /// Registers one more thread waiting on `addr`.
    pub fn register(&mut self, addr: usize)
        requires
            old(self).waiting_count < usize::MAX,
        ensures
            *final(self) == old(self).registered(addr),
    {
        if self.waiting_count == 0 {
            self.address = Some(addr);
        } else if self.address != Some(addr) {
            self.address = None;
        }
        self.waiting_count = self.waiting_count + 1;
    }

    /// Removes one registered thread.
    pub fn unregister(&mut self)
        requires
            old(self).waiting_count > 0,
        ensures
            *final(self) == old(self).unregistered(),
    {
        self.waiting_count = self.waiting_count - 1;
    }

    /// Decides what a `notify_all` does: wake every sleeper if there is one,
    /// and report the number of registered waiters.
    pub fn plan_notify_all(&self) -> (r: (Wake, usize))
        ensures
            r == self.notify_all_spec(),
    {
        if self.waiting_count == 0 {
            (Wake::Nobody, 0)
        } else {
            (Wake::Everyone, self.waiting_count)
        }
    }

    /// Decides what a `notify_many(count)` does, and the count it reports.
    pub fn plan_notify_many(&self, count: usize) -> (r: (Wake, usize))
        ensures
            r == self.notify_many_spec(count),
    {
        if self.waiting_count == 0 {
            (Wake::Nobody, 0)
        } else if self.address.is_none() || self.waiting_count <= count {
            (Wake::Everyone, self.waiting_count)
        } else {
            (Wake::Count(count), count)
        }
    }
}

/// The least number of threads waiting on `a` that `wake` rouses, whichever
/// sleepers of the slot the condition variable picks, when `w` are the
/// addresses of the threads registered on the slot.
pub open spec fn woken_at_least(wake: Wake, w: Multiset<usize>, a: usize) -> nat {
    match wake {
        Wake::Nobody => 0,
        Wake::Everyone => w.count(a),
        Wake::Count(j) => if forall|x: usize| x != a ==> w.count(x) == 0 {
            if j < w.count(a) { j as nat } else { w.count(a) }
        } else {
            0
        },
    }
}

/// Registering a waiter keeps the metadata in step with the waiters: a slot
/// that was empty tracks the new address, and a second distinct address makes
/// it mixed.
pub proof fn lemma_register_keeps_tracking(m: WaitMetadata, w: Multiset<usize>, addr: usize)
    requires
        m.tracks(w),
        m.waiting_count < usize::MAX,
    ensures
        m.registered(addr).tracks(w.insert(addr)),
{
    broadcast use vstd::multiset::group_multiset_axioms;

    let m2 = m.registered(addr);
    if let Option::Some(t) = m2.address {
        assert forall|x: usize| x != t implies w.insert(addr).count(x) == 0 by {
            if m.waiting_count == 0 {
                assert(w.count(x) <= w.len());
            }
        }
    }
}

/// A waiter leaving keeps the metadata in step with the waiters that remain.
pub proof fn lemma_unregister_keeps_tracking(m: WaitMetadata, w: Multiset<usize>, addr: usize)
    requires
        m.tracks(w),
        w.count(addr) > 0,
    ensures
        m.unregistered().tracks(w.remove(addr)),
{
    broadcast use vstd::multiset::group_multiset_axioms;

    assert(w.count(addr) <= w.len());
}

/// A notify on a slot where nobody waits wakes nobody and reports 0.
pub proof fn lemma_notify_idle_slot(m: WaitMetadata, count: usize)
    requires
        m.tracks(Multiset::empty()),
    ensures
        m.notify_all_spec() == (Wake::Nobody, 0usize),
        m.notify_many_spec(count) == (Wake::Nobody, 0usize),
{
    broadcast use vstd::multiset::group_multiset_axioms;

}

/// `notify_all` wakes every thread registered on the slot, whatever address
/// it waits on, and reports how many are registered.
pub proof fn lemma_notify_all_wakes_every_waiter(m: WaitMetadata, w: Multiset<usize>, a: usize)
    requires
        m.tracks(w),
    ensures
        woken_at_least(m.notify_all_spec().0, w, a) == w.count(a),
        m.notify_all_spec().1 == w.len(),
{
    broadcast use vstd::multiset::group_multiset_axioms;

    assert(w.count(a) <= w.len());
}

/// `notify_many(count)` on address `a` never leaves asleep a thread waiting on
/// `a` that the request covers: at least `count` of them wake, or all of them
/// where fewer wait. The count it reports covers them too; it may exceed them
/// where other addresses share the slot.
pub proof fn lemma_notify_many_never_skips(
    m: WaitMetadata,
    w: Multiset<usize>,
    a: usize,
    count: usize,
)
    requires
        m.tracks(w),
    ensures
        woken_at_least(m.notify_many_spec(count).0, w, a) >= if count < w.count(a) {
            count as nat
        } else {
            w.count(a)
        },
        m.notify_many_spec(count).1 >= if count < w.count(a) {
            count as nat
        } else {
            w.count(a)
        },
{
    broadcast use vstd::multiset::group_multiset_axioms;

    assert(w.count(a) <= w.len());
}

/// The metadata of a slot after threads waiting on `addrs` registered on it
/// one after another, starting from `m`.
pub open spec fn after_registrations(m: WaitMetadata, addrs: Seq<usize>) -> WaitMetadata
    decreases addrs.len(),
{
    if addrs.len() == 0 {
        m
    } else {
        after_registrations(m, addrs.drop_last()).registered(addrs.last())
    }
}

/// Threads that register one after another on a fresh slot are all in its
/// metadata: a single `notify_all` then wakes every one of them, on whatever
/// address each waits, and reports how many there are.
pub proof fn lemma_registered_waiters_all_woken(addrs: Seq<usize>, a: usize)
    requires
        addrs.len() < usize::MAX,
    ensures
        after_registrations(WaitMetadata::new_spec(), addrs).tracks(addrs.to_multiset()),
        woken_at_least(
            after_registrations(WaitMetadata::new_spec(), addrs).notify_all_spec().0,
            addrs.to_multiset(),
            a,
        ) == addrs.to_multiset().count(a),
        after_registrations(WaitMetadata::new_spec(), addrs).notify_all_spec().1 == addrs.len(),
    decreases addrs.len(),
{
    broadcast use vstd::seq_lib::group_to_multiset_ensures;
    broadcast use vstd::multiset::group_multiset_axioms;

    let m = after_registrations(WaitMetadata::new_spec(), addrs);
    if addrs.len() > 0 {
        let prefix = addrs.drop_last();
        lemma_registered_waiters_all_woken(prefix, a);
        assert(prefix.push(addrs.last()) =~= addrs);
        lemma_register_keeps_tracking(
            after_registrations(WaitMetadata::new_spec(), prefix),
            prefix.to_multiset(),
            addrs.last(),
        );
    }
    lemma_notify_all_wakes_every_waiter(m, addrs.to_multiset(), a);
}

} // verus!
