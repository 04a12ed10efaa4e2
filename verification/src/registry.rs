//! The pending-payment registry: which in-flight payment is awaited
//! through which one-shot delivery endpoint.
//!
//! The registry is a finite map from payment hash to endpoint. An entry
//! comes into being with `register`, and leaves only through `take`, which
//! hands the endpoint out and deletes the entry in one step, so that no hash
//! can be delivered to twice. Registering a hash that is already pending
//! replaces the earlier endpoint: the last registration wins, and the
//! earlier endpoint is handed back to the caller.
//!
//! The type itself is single-threaded; callers that share it put it behind
//! one lock and call `register` and `take` under that lock.

use vstd::prelude::*;

verus! {

/// Number of bytes in a payment hash.
pub const HASH_LEN: usize = 32;

/// The hash that identifies one payment attempt.
#[derive(Clone, Copy, Debug, PartialEq, Eq, Hash)]
pub struct PaymentHash(pub [u8; 32]);

impl View for PaymentHash {
    type V = Seq<u8>;

    open spec fn view(&self) -> Seq<u8> {
        self.0@
    }
}

impl PaymentHash {
    /// Whether two hashes hold the same bytes.
    pub fn same_as(&self, other: &PaymentHash) -> (same: bool)
        ensures
            same == (self@ == other@),
    {
        let mut i: usize = 0;
        while i < HASH_LEN
            invariant
                i <= HASH_LEN,
                self@.len() == HASH_LEN,
                other@.len() == HASH_LEN,
                forall|k: int| 0 <= k < i ==> self@[k] == other@[k],
            decreases HASH_LEN - i,
        {
            if self.0[i] != other.0[i] {
                return false;
            }
            i += 1;
        }
        assert(self@ =~= other@);
        true
    }
}

/// The position of `hash` among `entries`, if it is there.
spec fn position_of<E>(entries: Seq<(PaymentHash, E)>, hash: Seq<u8>) -> Option<int> {
    if exists|i: int| 0 <= i < entries.len() && (#[trigger] entries[i]).0@ == hash {
        Some(choose|i: int| 0 <= i < entries.len() && (#[trigger] entries[i]).0@ == hash)
    } else {
        None
    }
}

/// No hash occurs twice among `entries`.
spec fn distinct_hashes<E>(entries: Seq<(PaymentHash, E)>) -> bool {
    forall|i: int, j: int|
        0 <= i < entries.len() && 0 <= j < entries.len() && (#[trigger] entries[i]).0@ == (
        #[trigger] entries[j]).0@ ==> i == j
}

/// The map that `entries` stands for.
spec fn entries_map<E>(entries: Seq<(PaymentHash, E)>) -> Map<Seq<u8>, E> {
    Map::new(
        |hash: Seq<u8>| position_of(entries, hash) is Some,
        |hash: Seq<u8>| entries[position_of(entries, hash).unwrap()].1,
    )
}

/// What `take` hands out for `hash`: the endpoint registered for it, if
/// there is one.
pub open spec fn taken<E>(pending: Map<Seq<u8>, E>, hash: Seq<u8>) -> Option<E> {
    if pending.contains_key(hash) {
        Some(pending[hash])
    } else {
        None
    }
}

/// The payments that are awaiting their terminal event.
pub struct PendingPayments<E> {
    entries: Vec<(PaymentHash, E)>,
}

impl<E> View for PendingPayments<E> {
    type V = Map<Seq<u8>, E>;

    closed spec fn view(&self) -> Map<Seq<u8>, E> {
        entries_map(self.entries@)
    }
}

impl<E> PendingPayments<E> {
    /// The registry's invariant: no hash is held twice, so each pending
    /// hash has exactly one registration.
    pub closed spec fn wf(&self) -> bool {
        distinct_hashes(self.entries@)
    }

    /// A registry with no payment pending.
    pub fn new() -> (pending: Self)
        ensures
            pending.wf(),
            pending@ == Map::<Seq<u8>, E>::empty(),
    {
        let pending = PendingPayments { entries: Vec::new() };
        assert(pending@ =~= Map::<Seq<u8>, E>::empty());
        pending
    }

    fn find(&self, hash: &PaymentHash) -> (at: Option<usize>)
        requires
            self.wf(),
        ensures
            at is Some <==> self@.contains_key(hash@),
            at matches Some(i) ==> i < self.entries@.len() && self.entries@[i as int].0@ == hash@
                && self@[hash@] == self.entries@[i as int].1,
    {
        let mut i: usize = 0;
        while i < self.entries.len()
            invariant
                i <= self.entries@.len(),
                distinct_hashes(self.entries@),
                forall|k: int| 0 <= k < i ==> (#[trigger] self.entries@[k]).0@ != hash@,
            decreases self.entries@.len() - i,
        {
            if self.entries[i].0.same_as(hash) {
                proof {
                    let p = position_of(self.entries@, hash@);
                    assert(self.entries@[i as int].0@ == hash@);
                    assert(p is Some);
                    assert(p.unwrap() == i);
                }
                return Some(i);
            }
            i += 1;
        }
        assert(position_of(self.entries@, hash@) is None);
        None
    }

    /// Whether a payment with this hash is pending.
    pub fn contains(&self, hash: &PaymentHash) -> (found: bool)
        requires
            self.wf(),
        ensures
            found == self@.contains_key(hash@),
    {
        self.find(hash).is_some()
    }

    /// Registers `endpoint` as the one awaiting the payment `hash`.
    ///
    /// If the hash was already pending, the new endpoint takes its place and
    /// the earlier one is returned; nothing else in the registry changes.
    pub fn register(&mut self, hash: PaymentHash, endpoint: E) -> (replaced: Option<E>)
        requires
            old(self).wf(),
        ensures
            final(self).wf(),
            final(self)@ == old(self)@.insert(hash@, endpoint),
            replaced == taken(old(self)@, hash@),
    {
        let replaced = self.take(&hash);
        let ghost before = self.entries@;
        assert(!self@.contains_key(hash@));
        self.entries.push((hash, endpoint));
        proof {
            let after = self.entries@;
            assert(after == before.push((hash, endpoint)));
            assert(!entries_map(before).contains_key(hash@));
            assert(position_of(before, hash@) is None);
            assert(distinct_hashes(after)) by {
                assert forall|i: int, j: int|
                    0 <= i < after.len() && 0 <= j < after.len() && (#[trigger] after[i]).0@ == (
                    #[trigger] after[j]).0@ implies i == j by {
                    if i < before.len() {
                        assert(before[i].0@ == after[i].0@);
                    }
                    if j < before.len() {
                        assert(before[j].0@ == after[j].0@);
                    }
                }
            }
            lemma_push_inserts(before, hash, endpoint);
            assert(entries_map(before) == old(self)@.remove(hash@));
            assert(entries_map(after) =~= old(self)@.insert(hash@, endpoint));
        }
        replaced
    }

    /// Takes the endpoint registered for `hash` out of the registry.
    ///
    /// The entry is returned and deleted in one step: a second `take` of the
    /// same hash finds nothing, unless the hash was registered again.
    pub fn take(&mut self, hash: &PaymentHash) -> (endpoint: Option<E>)
        requires
            old(self).wf(),
        ensures
            final(self).wf(),
            final(self)@ == old(self)@.remove(hash@),
            endpoint == taken(old(self)@, hash@),
    {
        match self.find(hash) {
            Some(i) => {
                let ghost before = self.entries@;
                let entry = self.entries.remove(i);
                proof {
                    let after = self.entries@;
                    assert(after == before.remove(i as int));
                    lemma_remove_removes(before, i as int);
                    assert(entries_map(after) =~= old(self)@.remove(hash@));
                }
                Some(entry.1)
            },
            None => {
                assert(self@ =~= old(self)@.remove(hash@));
                None
            },
        }
    }

    /// Only finitely many payments are ever pending.
    pub proof fn lemma_finite(&self)
        requires
            self.wf(),
        ensures
            self@.dom().finite(),
    {
        lemma_entries_count(self.entries@);
    }

    /// How many payments are pending.
    pub fn len(&self) -> (n: usize)
        requires
            self.wf(),
        ensures
            self@.dom().finite(),
            n == self@.dom().len(),
    {
        proof {
            lemma_entries_count(self.entries@);
        }
        self.entries.len()
    }

    /// Whether no payment is pending.
    pub fn is_empty(&self) -> (empty: bool)
        requires
            self.wf(),
        ensures
            empty == (self@ == Map::<Seq<u8>, E>::empty()),
            empty == (forall|hash: Seq<u8>| !self@.contains_key(hash)),
    {
        proof {
            if self.entries@.len() > 0 {
                assert(self.entries@[0].0@ == self.entries@[0].0@);
                assert(position_of(self.entries@, self.entries@[0].0@) is Some);
                assert(self@.contains_key(self.entries@[0].0@));
            } else {
                assert(self@ =~= Map::<Seq<u8>, E>::empty());
            }
        }
        self.entries.len() == 0
    }
}

/// A hash is pending at most once, however often it is registered: a
/// second registration without a take in between replaces the first, and
/// the number of pending payments stays what it was after the first.
pub proof fn lemma_registered_once<E>(
    pending: Map<Seq<u8>, E>,
    hash: Seq<u8>,
    first: E,
    second: E,
)
    requires
        pending.dom().finite(),
    ensures
        pending.insert(hash, first).insert(hash, second) == pending.insert(hash, second),
        pending.insert(hash, first).insert(hash, second).dom().len() == pending.insert(
            hash,
            first,
        ).dom().len(),
        taken(pending.insert(hash, first).insert(hash, second), hash) == Some(second),
{
    assert(pending.insert(hash, first).insert(hash, second) =~= pending.insert(hash, second));
    assert(pending.insert(hash, first).dom() =~= pending.insert(hash, second).dom());
}

/// Taking a hash twice yields its endpoint once: the first take hands out
/// what was registered, the second finds nothing and changes nothing.
pub proof fn lemma_take_twice<E>(pending: Map<Seq<u8>, E>, hash: Seq<u8>)
    ensures
        pending.contains_key(hash) ==> taken(pending, hash) == Some(pending[hash]),
        taken(pending.remove(hash), hash) == None::<E>,
        pending.remove(hash).remove(hash) == pending.remove(hash),
{
    assert(pending.remove(hash).remove(hash) =~= pending.remove(hash));
}

/// A take touches one hash only: every other registration stays as it is.
pub proof fn lemma_take_leaves_others<E>(pending: Map<Seq<u8>, E>, hash: Seq<u8>, other: Seq<u8>)
    requires
        other != hash,
    ensures
        taken(pending.remove(hash), other) == taken(pending, other),
{
}

/// Appending an entry whose hash is new inserts it into the map.
proof fn lemma_push_inserts<E>(entries: Seq<(PaymentHash, E)>, hash: PaymentHash, endpoint: E)
    requires
        distinct_hashes(entries),
        position_of(entries, hash@) is None,
    ensures
        entries_map(entries.push((hash, endpoint))) =~= entries_map(entries).insert(
            hash@,
            endpoint,
        ),
{
    let after = entries.push((hash, endpoint));
    let last = entries.len() as int;
    assert(after[last].0@ == hash@);
    assert forall|h: Seq<u8>| #[trigger]
        entries_map(after).contains_key(h) == entries_map(entries).insert(
            hash@,
            endpoint,
        ).contains_key(h) by {
        if h == hash@ {
            assert(position_of(after, h) is Some);
        } else if position_of(entries, h) is Some {
            let i = position_of(entries, h).unwrap();
            assert(after[i].0@ == h);
        } else if position_of(after, h) is Some {
            let i = position_of(after, h).unwrap();
            assert(i < last);
            assert(entries[i].0@ == h);
        }
    }
    assert forall|h: Seq<u8>| #[trigger] entries_map(after).contains_key(h) implies entries_map(
        after,
    )[h] == entries_map(entries).insert(hash@, endpoint)[h] by {
        let i = position_of(after, h).unwrap();
        if h == hash@ {
            if i < last {
                assert(entries[i].0@ == h);
            }
        } else {
            assert(i < last);
            assert(entries[i].0@ == h);
            let j = position_of(entries, h).unwrap();
            assert(entries[j].0@ == h);
        }
    }
}

/// Deleting the entry at `at` removes its hash from the map and keeps the
/// other entries distinct.
proof fn lemma_remove_removes<E>(entries: Seq<(PaymentHash, E)>, at: int)
    requires
        distinct_hashes(entries),
        0 <= at < entries.len(),
    ensures
        distinct_hashes(entries.remove(at)),
        entries_map(entries.remove(at)) =~= entries_map(entries).remove(entries[at].0@),
{
    let after = entries.remove(at);
    let gone = entries[at].0@;
    assert forall|i: int| 0 <= i < after.len() implies #[trigger] after[i] == entries[if i < at {
        i
    } else {
        i + 1
    }] by {}
    assert forall|i: int, j: int|
        0 <= i < after.len() && 0 <= j < after.len() && (#[trigger] after[i]).0@ == (
        #[trigger] after[j]).0@ implies i == j by {
        let i0 = if i < at { i } else { i + 1 };
        let j0 = if j < at { j } else { j + 1 };
        assert(entries[i0].0@ == entries[j0].0@);
    }
    assert forall|h: Seq<u8>| #[trigger]
        entries_map(after).contains_key(h) == entries_map(entries).remove(gone).contains_key(
            h,
        ) by {
        if position_of(after, h) is Some {
            let i = position_of(after, h).unwrap();
            let i0 = if i < at { i } else { i + 1 };
            assert(entries[i0].0@ == h);
            assert(i0 != at);
        }
        if h != gone && position_of(entries, h) is Some {
            let k = position_of(entries, h).unwrap();
            assert(entries[k].0@ == h);
            let k1 = if k < at { k } else { k - 1 };
            assert(after[k1].0@ == h);
        }
    }
    assert forall|h: Seq<u8>| #[trigger] entries_map(after).contains_key(h) implies entries_map(
        after,
    )[h] == entries_map(entries).remove(gone)[h] by {
        let i = position_of(after, h).unwrap();
        let i0 = if i < at { i } else { i + 1 };
        assert(entries[i0].0@ == h);
        let k = position_of(entries, h).unwrap();
        assert(entries[k].0@ == h);
    }
}

/// With distinct hashes, the map has as many keys as there are entries.
proof fn lemma_entries_count<E>(entries: Seq<(PaymentHash, E)>)
    requires
        distinct_hashes(entries),
    ensures
        entries_map(entries).dom().finite(),
        entries_map(entries).dom().len() == entries.len(),
    decreases entries.len(),
{
    if entries.len() == 0 {
        assert(entries_map(entries).dom() =~= Set::<Seq<u8>>::empty());
    } else {
        let at = entries.len() - 1;
        let rest = entries.remove(at);
        lemma_remove_removes(entries, at);
        lemma_entries_count(rest);
        let gone = entries[at].0@;
        assert(position_of(entries, gone) is Some);
        assert(entries_map(entries).dom().contains(gone));
        assert(entries_map(rest).dom() =~= entries_map(entries).dom().remove(gone));
        assert(entries_map(entries).dom() =~= entries_map(rest).dom().insert(gone));
    }
}

} // verus!
