//! An in-memory store of received receipts, keyed by the id it hands out.
use vstd::prelude::*;
use crate::receipt::Receipt;
use crate::received_receipt::ReceivedReceipt;

verus! {

/// Why a storage operation failed.
#[derive(Clone, Copy, Debug, PartialEq, Eq, Structural)]
pub enum StorageError {
    /// No receipt is stored under the id.
    UnknownId { id: u64 },
    /// Every id has been handed out.
    IdsExhausted,
}

/// Whether some entry of `s` has id `id`.
pub open spec fn has_id(s: Seq<(u64, Receipt)>, id: u64) -> bool {
    exists|i: int| 0 <= i < s.len() && (#[trigger] s[i]).0 == id
}

/// Keeps the entries whose receipt has timestamp `ts`.
pub open spec fn at_timestamp(ts: u64) -> spec_fn((u64, Receipt)) -> bool {
    |e: (u64, Receipt)| e.1.timestamp_ns == ts
}

/// Keeps the entries whose receipt has timestamp at most `ts`.
pub open spec fn upto_timestamp(ts: u64) -> spec_fn((u64, Receipt)) -> bool {
    |e: (u64, Receipt)| e.1.timestamp_ns <= ts
}

/// No entry of `stored` carries the same message as `message` under an id
/// other than `receipt_id`.
pub open spec fn unique_in(stored: Seq<(u64, Receipt)>, message: Receipt, receipt_id: u64) -> bool {
    forall|i: int| 0 <= i < stored.len() && (#[trigger] stored[i]).1.same_message_spec(message)
        ==> stored[i].0 == receipt_id
}

/// A receipt that the store holds under its own id is no duplicate of
/// itself: adding it under that id leaves the verdict unchanged, so a store
/// that holds only it finds it unique.
pub proof fn lemma_self_not_duplicate(stored: Seq<(u64, Receipt)>, message: Receipt, receipt_id: u64)
    ensures
        unique_in(stored.push((receipt_id, message)), message, receipt_id) == unique_in(stored, message, receipt_id),
        unique_in(seq![(receipt_id, message)], message, receipt_id),
{
    let s1 = stored.push((receipt_id, message));
    if unique_in(stored, message, receipt_id) {
        assert forall|i: int| 0 <= i < s1.len() && (#[trigger] s1[i]).1.same_message_spec(message)
            implies s1[i].0 == receipt_id by {
            if i < stored.len() {
                assert(s1[i] == stored[i]);
            }
        }
    }
    if unique_in(s1, message, receipt_id) {
        assert forall|i: int| 0 <= i < stored.len() && (#[trigger] stored[i]).1.same_message_spec(message)
            implies stored[i].0 == receipt_id by {
            assert(s1[i] == stored[i]);
        }
    }
    let s2 = seq![(receipt_id, message)];
    assert forall|i: int| 0 <= i < s2.len() && (#[trigger] s2[i]).1.same_message_spec(message)
        implies s2[i].0 == receipt_id by {
        assert(i == 0);
    }
}

/// Received receipts under distinct ids, all below the next id to hand out.
pub struct ReceiptStorage {
    entries: Vec<(u64, ReceivedReceipt)>,
    next_id: u64,
}

impl ReceiptStorage {
    /// The stored ids with their receipts' messages, in order of storing.
    pub closed spec fn stored(&self) -> Seq<(u64, Receipt)> {
        self.entries@.map_values(|e: (u64, ReceivedReceipt)| (e.0, e.1.signed().message))
    }

    pub closed spec fn next(&self) -> u64 {
        self.next_id
    }

    pub open spec fn wf(&self) -> bool {
        &&& forall|i: int| 0 <= i < self.stored().len() ==> (#[trigger] self.stored()[i]).0 < self.next()
        &&& forall|i: int, j: int| 0 <= i < self.stored().len() && 0 <= j < self.stored().len() && i != j
                ==> #[trigger] self.stored()[i].0 != #[trigger] self.stored()[j].0
    }

    pub closed spec fn all_wf(&self) -> bool {
        forall|i: int| 0 <= i < self.entries@.len() ==> (#[trigger] self.entries@[i]).1.wf()
    }

    /// An empty store.
    pub fn new() -> (r: ReceiptStorage)
        ensures
            r.wf(),
            r.all_wf(),
            r.stored() == Seq::<(u64, Receipt)>::empty(),
    {
        let r = ReceiptStorage { entries: Vec::new(), next_id: 0 };
        assert(r.stored() =~= Seq::<(u64, Receipt)>::empty());
        r
    }

    /// Stores a received receipt under a fresh id, which it returns.
    pub fn store_receipt(&mut self, receipt: ReceivedReceipt) -> (r: Result<u64, StorageError>)
        requires
            old(self).wf(),
            old(self).all_wf(),
            receipt.wf(),
        ensures
            final(self).wf(),
            final(self).all_wf(),
            r is Err <==> old(self).next() == u64::MAX,
            r is Err ==> r == Err::<u64, StorageError>(StorageError::IdsExhausted) && final(self).stored() == old(self).stored(),
            r is Err ==> final(self).next() == old(self).next(),
            r matches Ok(id) ==> id == old(self).next() && final(self).next() == id + 1,
            r matches Ok(id) ==> !has_id(old(self).stored(), id)
                && final(self).stored() == old(self).stored().push((id, receipt.signed().message)),
    {
        if self.next_id == u64::MAX {
            return Err(StorageError::IdsExhausted);
        }
        let id = self.next_id;
        let ghost before = self.stored();
        proof {
            if has_id(before, id) {
                let i = choose|i: int| 0 <= i < before.len() && (#[trigger] before[i]).0 == id;
                assert(before[i].0 < self.next_id);
            }
        }
        let ghost msg = receipt.signed().message;
        self.entries.push((id, receipt));
        self.next_id = id + 1;
        assert(self.stored() =~= before.push((id, msg)));
        Ok(id)
    }

    fn find(&self, id: u64) -> (r: Option<usize>)
        ensures
            r is None <==> !has_id(self.stored(), id),
            r matches Some(i) ==> i < self.entries@.len() && self.stored()[i as int].0 == id,
    {
        let mut i: usize = 0;
        while i < self.entries.len()
            invariant
                0 <= i <= self.entries@.len(),
                forall|j: int| 0 <= j < i ==> (#[trigger] self.stored()[j]).0 != id,
            decreases self.entries@.len() - i,
        {
            if self.entries[i].0 == id {
                assert(self.stored()[i as int].0 == id);
                return Some(i);
            }
            i = i + 1;
        }
        proof {
            if has_id(self.stored(), id) {
                let j = choose|j: int| 0 <= j < self.stored().len() && (#[trigger] self.stored()[j]).0 == id;
            }
        }
        None
    }

    /// The receipt stored under `id`.
    pub fn retrieve_receipt_by_id(&self, id: u64) -> (r: Result<&ReceivedReceipt, StorageError>)
        requires
            self.wf(),
        ensures
            r is Err <==> !has_id(self.stored(), id),
            r is Err ==> r == Err::<&ReceivedReceipt, StorageError>(StorageError::UnknownId { id }),
            r matches Ok(rr) ==> exists|i: int| 0 <= i < self.stored().len() && self.stored()[i] == (id, rr.signed().message),
    {
        match self.find(id) {
            None => Err(StorageError::UnknownId { id }),
            Some(i) => {
                let rr = &self.entries[i].1;
                assert(self.stored()[i as int] == (id, rr.signed().message));
                Ok(rr)
            },
        }
    }

    /// The ids and messages of the stored receipts whose timestamp meets
    /// `keep`: equal to `ts` when `exact`, at most `ts` otherwise.
    fn select_by_timestamp(&self, ts: u64, exact: bool) -> (r: Vec<(u64, Receipt)>)
        ensures
            r@ == self.stored().filter(if exact { at_timestamp(ts) } else { upto_timestamp(ts) }),
    {
        let ghost keep = if exact { at_timestamp(ts) } else { upto_timestamp(ts) };
        let mut out: Vec<(u64, Receipt)> = Vec::new();
        let mut i: usize = 0;
        while i < self.entries.len()
            invariant
                0 <= i <= self.entries@.len(),
                self.stored().len() == self.entries@.len(),
                keep == if exact { at_timestamp(ts) } else { upto_timestamp(ts) },
                out@ == self.stored().subrange(0, i as int).filter(keep),
            decreases self.entries@.len() - i,
        {
            let id = self.entries[i].0;
            let msg = self.entries[i].1.signed_receipt().message;
            proof {
                assert(self.stored().subrange(0, i as int + 1) =~= self.stored().subrange(0, i as int).push(self.stored()[i as int]));
                self.stored().subrange(0, i as int).lemma_filter_push(self.stored()[i as int], keep);
            }
            assert(self.stored()[i as int] == (id, msg));
            let t = msg.timestamp_ns;
            proof {
                let e = self.stored()[i as int];
                if exact {
                    assert(keep == at_timestamp(ts));
                    assert(at_timestamp(ts)(e) == (t == ts));
                } else {
                    assert(keep == upto_timestamp(ts));
                    assert(upto_timestamp(ts)(e) == (t <= ts));
                }
            }
            if (exact && t == ts) || (!exact && t <= ts) {
                out.push((id, msg));
            }
            i = i + 1;
        }
        assert(self.stored().subrange(0, i as int) =~= self.stored());
        out
    }

    /// The stored receipts with timestamp `ts`.
    pub fn retrieve_receipts_by_timestamp(&self, ts: u64) -> (r: Vec<(u64, Receipt)>)
        ensures
            r@ == self.stored().filter(at_timestamp(ts)),
    {
        self.select_by_timestamp(ts, true)
    }

    /// The stored receipts with timestamp at most `ts`.
    pub fn retrieve_receipts_upto_timestamp(&self, ts: u64) -> (r: Vec<(u64, Receipt)>)
        ensures
            r@ == self.stored().filter(upto_timestamp(ts)),
    {
        self.select_by_timestamp(ts, false)
    }

    proof fn lemma_remove_keeps_others(s: Seq<(u64, Receipt)>, i: int, x: u64)
        requires
            0 <= i < s.len(),
            forall|a: int, b: int| 0 <= a < s.len() && 0 <= b < s.len() && a != b
                ==> #[trigger] s[a].0 != #[trigger] s[b].0,
        ensures
            has_id(s.remove(i), x) <==> (has_id(s, x) && x != s[i].0),
    {
        let t = s.remove(i);
        if has_id(t, x) {
            let j = choose|j: int| 0 <= j < t.len() && (#[trigger] t[j]).0 == x;
            if j < i {
                assert(s[j] == t[j]);
            } else {
                assert(s[j + 1] == t[j]);
            }
        }
        if has_id(s, x) && x != s[i].0 {
            let j = choose|j: int| 0 <= j < s.len() && (#[trigger] s[j]).0 == x;
            if j < i {
                assert(t[j] == s[j]);
            } else {
                assert(t[j - 1] == s[j]);
            }
        }
    }

    fn remove_at(&mut self, i: usize)
        requires
            old(self).wf(),
            old(self).all_wf(),
            i < old(self).stored().len(),
        ensures
            final(self).wf(),
            final(self).all_wf(),
            final(self).stored() == old(self).stored().remove(i as int),
            final(self).next() == old(self).next(),
            forall|x: u64| #[trigger] has_id(final(self).stored(), x)
                <==> (has_id(old(self).stored(), x) && x != old(self).stored()[i as int].0),
    {
        let ghost before = self.stored();
        let _ = self.entries.remove(i);
        assert(self.stored() =~= before.remove(i as int));
        proof {
            assert forall|x: u64| #[trigger] has_id(self.stored(), x)
                <==> (has_id(before, x) && x != before[i as int].0) by {
                Self::lemma_remove_keeps_others(before, i as int, x);
            }
            assert forall|a: int| 0 <= a < self.stored().len() implies (#[trigger] self.stored()[a]).0 < self.next() by {
                if a < i { assert(self.stored()[a] == before[a]); } else { assert(self.stored()[a] == before[a + 1]); }
            }
            assert forall|a: int, b: int| 0 <= a < self.stored().len() && 0 <= b < self.stored().len() && a != b
                implies #[trigger] self.stored()[a].0 != #[trigger] self.stored()[b].0 by {
                let a1 = if a < i { a } else { a + 1 };
                let b1 = if b < i { b } else { b + 1 };
                assert(self.stored()[a] == before[a1]);
                assert(self.stored()[b] == before[b1]);
            }
        }
    }

    /// Removes the receipt stored under `id`.
    pub fn remove_receipt_by_id(&mut self, id: u64) -> (r: Result<(), StorageError>)
        requires
            old(self).wf(),
            old(self).all_wf(),
        ensures
            final(self).wf(),
            final(self).all_wf(),
            r is Err <==> !has_id(old(self).stored(), id),
            r is Err ==> r == Err::<(), StorageError>(StorageError::UnknownId { id }) && final(self).stored() == old(self).stored(),
            r is Ok ==> exists|i: int| 0 <= i < old(self).stored().len() && old(self).stored()[i].0 == id
                && final(self).stored() == old(self).stored().remove(i),
            forall|x: u64| #[trigger] has_id(final(self).stored(), x) <==> (has_id(old(self).stored(), x) && x != id),
    {
        match self.find(id) {
            None => Err(StorageError::UnknownId { id }),
            Some(i) => {
                self.remove_at(i);
                Ok(())
            },
        }
    }

    /// Removes the receipts stored under each of `ids`. When one of them is
    /// not stored, fails with the first such id and removes nothing.
    pub fn remove_receipts_by_ids(&mut self, ids: &[u64]) -> (r: Result<(), StorageError>)
        requires
            old(self).wf(),
            old(self).all_wf(),
        ensures
            final(self).wf(),
            final(self).all_wf(),
            r is Ok <==> forall|k: int| 0 <= k < ids@.len() ==> has_id(old(self).stored(), #[trigger] ids@[k]),
            r matches Err(e) ==> final(self).stored() == old(self).stored()
                && exists|k: int| 0 <= k < ids@.len() && e == (StorageError::UnknownId { id: ids@[k] })
                    && !has_id(old(self).stored(), ids@[k]),
            r is Ok ==> forall|x: u64| #[trigger] has_id(final(self).stored(), x)
                <==> (has_id(old(self).stored(), x) && !ids@.contains(x)),
    {
        let mut k: usize = 0;
        while k < ids.len()
            invariant
                0 <= k <= ids@.len(),
                self.wf(),
                self.all_wf(),
                forall|j: int| 0 <= j < k ==> has_id(self.stored(), #[trigger] ids@[j]),
            decreases ids@.len() - k,
        {
            if self.find(ids[k]).is_none() {
                return Err(StorageError::UnknownId { id: ids[k] });
            }
            k = k + 1;
        }
        let ghost before = self.stored();
        let mut k: usize = 0;
        while k < ids.len()
            invariant
                0 <= k <= ids@.len(),
                self.wf(),
                self.all_wf(),
                forall|j: int| 0 <= j < ids@.len() ==> has_id(before, #[trigger] ids@[j]),
                forall|x: u64| #[trigger] has_id(self.stored(), x)
                    <==> (has_id(before, x) && !ids@.subrange(0, k as int).contains(x)),
            decreases ids@.len() - k,
        {
            let id = ids[k];
            proof {
                assert(ids@.subrange(0, k as int + 1) =~= ids@.subrange(0, k as int).push(id));
            }
            let ghost prefix = ids@.subrange(0, k as int);
            match self.find(id) {
                Some(i) => {
                    self.remove_at(i);
                },
                None => {
                    assert(has_id(before, ids@[k as int]));
                },
            }
            proof {
                assert forall|x: u64| ids@.subrange(0, k as int + 1).contains(x) <==> (prefix.contains(x) || x == id) by {
                    assert(ids@.subrange(0, k as int + 1) =~= prefix.push(id));
                    if prefix.contains(x) {
                        let t = choose|t: int| 0 <= t < prefix.len() && prefix[t] == x;
                        assert(prefix.push(id)[t] == x);
                    }
                    if x == id {
                        assert(prefix.push(id)[prefix.len() as int] == x);
                    }
                    if prefix.push(id).contains(x) && x != id {
                        let t = choose|t: int| 0 <= t < prefix.push(id).len() && prefix.push(id)[t] == x;
                        assert(prefix[t] == x);
                    }
                }
            }
            k = k + 1;
        }
        assert(ids@.subrange(0, k as int) =~= ids@);
        Ok(())
    }

    /// Whether no stored receipt under an id other than `receipt_id` carries
    /// the same message as `message`.
    pub fn is_unique(&self, message: &Receipt, receipt_id: u64) -> (r: bool)
        ensures
            r == unique_in(self.stored(), *message, receipt_id),
    {
        let mut i: usize = 0;
        while i < self.entries.len()
            invariant
                0 <= i <= self.entries@.len(),
                self.stored().len() == self.entries@.len(),
                forall|j: int| 0 <= j < i && (#[trigger] self.stored()[j]).1.same_message_spec(*message)
                    ==> self.stored()[j].0 == receipt_id,
            decreases self.entries@.len() - i,
        {
            let id = self.entries[i].0;
            let other = &self.entries[i].1.signed_receipt().message;
            assert(self.stored()[i as int] == (id, *other));
            if id != receipt_id && other.same_message(message) {
                return false;
            }
            i = i + 1;
        }
        true
    }
}

} // verus!
