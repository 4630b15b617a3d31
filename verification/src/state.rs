//! The transfer record store: the id-keyed, single-writer persistence that
//! holds every pending escrow, together with the contract's configuration
//! state.
//!
//! A record lives in the store exactly while its transfer is unresolved.
//! Resolution always deletes it; nothing ever mutates a stored record.
use vstd::prelude::*;

verus! {

/// Configuration state for the restricted marker transfer contract.
#[derive(Clone, Debug, PartialEq)]
pub struct State {
    /// The contract name.
    pub name: String,
}

/// A pending escrow: `amount` units of `denom`, put up by `sender`, destined
/// for `recipient` once an administrator approves.
#[derive(Debug, PartialEq)]
pub struct Transfer {
    pub id: String,
    pub sender: String,
    pub denom: String,
    pub amount: u128,
    pub recipient: String,
}

/// The mathematical shape of a `Transfer`, with strings as character
/// sequences.
pub struct TransferV {
    pub id: Seq<char>,
    pub sender: Seq<char>,
    pub denom: Seq<char>,
    pub amount: u128,
    pub recipient: Seq<char>,
}

impl View for Transfer {
    type V = TransferV;

    open spec fn view(&self) -> TransferV {
        TransferV {
            id: self.id@,
            sender: self.sender@,
            denom: self.denom@,
            amount: self.amount,
            recipient: self.recipient@,
        }
    }
}

impl Clone for Transfer {
    fn clone(&self) -> (r: Self)
        ensures
            r@ == self@,
    {
        Transfer {
            id: self.id.clone(),
            sender: self.sender.clone(),
            denom: self.denom.clone(),
            amount: self.amount,
            recipient: self.recipient.clone(),
        }
    }
}

/// Whether some record in `store` carries the id `id`.
pub open spec fn has_id(store: Seq<TransferV>, id: Seq<char>) -> bool {
    exists|i: int| 0 <= i < store.len() && store[i].id == id
}

/// The position of the record with id `id` (meaningful when `has_id` holds;
/// unique when `ids_unique` holds).
pub open spec fn idx_of(store: Seq<TransferV>, id: Seq<char>) -> int {
    choose|i: int| 0 <= i < store.len() && store[i].id == id
}

/// The record with id `id` (meaningful when `has_id` holds).
pub open spec fn at_id(store: Seq<TransferV>, id: Seq<char>) -> TransferV {
    store[idx_of(store, id)]
}

/// The store after deleting the record with id `id` (meaningful when `has_id`
/// holds).
pub open spec fn remove_id(store: Seq<TransferV>, id: Seq<char>) -> Seq<TransferV> {
    store.remove(idx_of(store, id))
}

/// No two records share an id: the store is a genuine id-keyed map.
pub open spec fn ids_unique(store: Seq<TransferV>) -> bool {
    forall|i: int, j: int|
        0 <= i < store.len() && 0 <= j < store.len() && i != j ==> store[i].id != store[j].id
}

/// The durable, id-keyed mapping from transfer id to pending `Transfer`
/// record; the single source of truth for in-flight escrows.
pub struct Store {
    transfers: Vec<Transfer>,
}

impl View for Store {
    type V = Seq<TransferV>;

    closed spec fn view(&self) -> Seq<TransferV> {
        self.transfers@.map_values(|t: Transfer| t@)
    }
}

impl Store {
    /// The store is well formed when every live record has a distinct id.
    pub open spec fn wf(&self) -> bool {
        ids_unique(self@)
    }

    /// An empty store.
    pub fn new() -> (s: Store)
        ensures
            s@ == Seq::<TransferV>::empty(),
            s.wf(),
    {
        Store { transfers: Vec::new() }
    }

    /// The position of the record carrying `id`, if one is live.
    fn find(&self, id: &String) -> (r: Option<usize>)
        ensures
            match r {
                Some(i) => i < self@.len() && self@[i as int].id == id@,
                None => !has_id(self@, id@),
            },
    {
        let mut i: usize = 0;
        while i < self.transfers.len()
            invariant
                i <= self.transfers.len(),
                forall|j: int| 0 <= j < i ==> self@[j].id != id@,
            decreases self.transfers.len() - i,
        {
            if self.transfers[i].id == *id {
                return Some(i);
            }
            i = i + 1;
        }
        None
    }

    /// Whether a record with id `id` is live.
    pub fn contains(&self, id: &String) -> (b: bool)
        ensures
            b == has_id(self@, id@),
    {
        self.find(id).is_some()
    }

    /// The live record with id `id`, or nothing.
    pub fn get(&self, id: &String) -> (r: Option<Transfer>)
        requires
            self.wf(),
        ensures
            match r {
                Some(t) => has_id(self@, id@) && t@ == at_id(self@, id@),
                None => !has_id(self@, id@),
            },
    {
        match self.find(id) {
            Some(i) => {
                proof {
                    let k = idx_of(self@, id@);
                    assert(self@[k].id == id@);
                    assert(k == i as int);
                }
                Some(self.transfers[i].clone())
            }
            None => None,
        }
    }

    /// Inserts a record under its id. The caller must have ruled a duplicate
    /// id out first: the store is a plain map and never overwrites.
    pub fn put(&mut self, t: Transfer)
        requires
            old(self).wf(),
            !has_id(old(self)@, t@.id),
        ensures
            final(self)@ == old(self)@.push(t@),
            final(self).wf(),
    {
        let ghost pre = self@;
        self.transfers.push(t);
        proof {
            assert(final(self)@ =~= pre.push(t@));
            assert forall|i: int, j: int|
                0 <= i < final(self)@.len() && 0 <= j < final(self)@.len() && i != j
                implies final(self)@[i].id != final(self)@[j].id by {
                if i < pre.len() && j < pre.len() {
                    assert(pre[i].id != pre[j].id);
                } else if i < pre.len() {
                    assert(pre[i].id == t@.id ==> has_id(pre, t@.id));
                } else {
                    assert(pre[j].id == t@.id ==> has_id(pre, t@.id));
                }
            }
        }
    }

    /// Deletes and returns the live record with id `id`.
    pub fn delete(&mut self, id: &String) -> (t: Transfer)
        requires
            old(self).wf(),
            has_id(old(self)@, id@),
        ensures
            t@ == at_id(old(self)@, id@),
            final(self)@ == remove_id(old(self)@, id@),
            final(self).wf(),
            !has_id(final(self)@, id@),
    {
        let ghost pre = self@;
        let i = match self.find(id) {
            Some(i) => i,
            None => unreached(),
        };
        proof {
            let k = idx_of(pre, id@);
            assert(pre[k].id == id@);
            assert(k == i as int);
        }
        let t = self.transfers.remove(i);
        proof {
            assert(final(self)@ =~= pre.remove(i as int));
            assert forall|m: int, n: int|
                0 <= m < final(self)@.len() && 0 <= n < final(self)@.len() && m != n
                implies final(self)@[m].id != final(self)@[n].id by {
                let m0 = if m < i as int { m } else { m + 1 };
                let n0 = if n < i as int { n } else { n + 1 };
                assert(pre[m0].id != pre[n0].id);
            }
            assert forall|m: int| 0 <= m < final(self)@.len()
                implies final(self)@[m].id != id@ by {
                let m0 = if m < i as int { m } else { m + 1 };
                assert(pre[m0].id == final(self)@[m].id);
                assert(m0 != i as int);
                assert(pre[m0].id != pre[i as int].id);
            }
        }
        t
    }

    /// Every live record, in insertion order.
    pub fn all(&self) -> (v: Vec<Transfer>)
        ensures
            v@.map_values(|t: Transfer| t@) == self@,
    {
        let mut v: Vec<Transfer> = Vec::new();
        let mut i: usize = 0;
        while i < self.transfers.len()
            invariant
                i <= self.transfers.len(),
                v@.len() == i,
                forall|j: int| 0 <= j < i ==> v@.map_values(|t: Transfer| t@)[j] == self@[j],
            decreases self.transfers.len() - i,
        {
            v.push(self.transfers[i].clone());
            i = i + 1;
        }
        proof {
            assert(v@.map_values(|t: Transfer| t@) =~= self@);
        }
        v
    }
}

/// Every pending transfer held by the store, in insertion order.
pub fn get_all_transfers(store: &Store) -> (v: Vec<Transfer>)
    ensures
        v@.map_values(|t: Transfer| t@) == store@,
{
    store.all()
}

} // verus!
