//! The list/map codec for identifier-keyed collections.
//!
//! On disk a collection is an order-insignificant array of records, each
//! self-describing its own identifier; in memory it is a mapping from
//! identifier to record. [`IdMap`] is that mapping, [`IdMap::from_list`] and
//! [`IdMap::into_list`] the reversible transform between the two forms. The
//! lemmas at the end state the codec's laws: decoding is independent of array
//! order, and every entry's key equals its record's own identifier.

use vstd::prelude::*;

verus! {

/// A record that carries its own stable numeric identifier, reused as its
/// collection key.
pub trait ListItem: Sized {
    /// The identifier, at the specification level.
    spec fn key_spec(&self) -> u32;

    /// The identifier under which this record is keyed.
    fn id(&self) -> (k: u32)
        ensures
            k == self.key_spec(),
    ;
}

/// The mapping an array of records decodes to: records are taken in order,
/// and of two records with the same identifier the later wins.
pub open spec fn decoded_map<V: ListItem>(s: Seq<V>) -> Map<u32, V>
    decreases s.len(),
{
    if s.len() == 0 {
        Map::empty()
    } else {
        decoded_map(s.drop_last()).insert(s.last().key_spec(), s.last())
    }
}

/// No two records in the sequence share an identifier.
pub open spec fn distinct_keys<V: ListItem>(s: Seq<V>) -> bool {
    forall|i: int, j: int|
        0 <= i < j < s.len() ==> s[i].key_spec() != s[j].key_spec()
}

/// An identifier-keyed collection of records, held in a stable order.
///
/// Well-formedness ([`IdMap::wf`]) — no two held records share an identifier
/// — is established by both constructors and preserved by every operation.
#[derive(Debug, Clone, PartialEq)]
pub struct IdMap<V> {
    entries: Vec<V>,
}

impl<V: ListItem> IdMap<V> {
    /// The held records, in held order, at the specification level.
    pub closed spec fn list(&self) -> Seq<V> {
        self.entries@
    }

    /// The mapping this collection represents.
    pub open spec fn view(&self) -> Map<u32, V> {
        decoded_map(self.list())
    }

    /// Well-formedness: no two held records share an identifier.
    pub open spec fn wf(&self) -> bool {
        distinct_keys(self.list())
    }

    /// An empty collection.
    pub fn new() -> (r: IdMap<V>)
        ensures
            r.wf(),
            r@ == Map::<u32, V>::empty(),
            r.list() == Seq::<V>::empty(),
    {
        IdMap { entries: Vec::new() }
    }

    /// How many records are held.
    pub fn len(&self) -> (n: usize)
        ensures
            n == self.list().len(),
    {
        self.entries.len()
    }

    /// True when no records are held.
    pub fn is_empty(&self) -> (r: bool)
        ensures
            r == (self.list().len() == 0),
    {
        self.entries.len() == 0
    }

    /// The held records in held order, for enumeration and for encoding to
    /// the on-disk array form.
    pub fn records(&self) -> (r: &Vec<V>)
        ensures
            r@ == self.list(),
    {
        &self.entries
    }

    /// Surrender the held records in held order: the on-disk array form.
    /// The inverse of [`IdMap::from_list`].
    pub fn into_list(self) -> (r: Vec<V>)
        ensures
            r@ == self.list(),
    {
        self.entries
    }

    /// The record keyed by `id`, if one is held.
    pub fn get(&self, id: u32) -> (r: Option<&V>)
        requires
            self.wf(),
        ensures
            match r {
                Some(v) => self@.dom().contains(id) && *v == self@[id],
                None => !self@.dom().contains(id),
            },
    {
        let n = self.entries.len();
        let mut i: usize = 0;
        while i < n
            invariant
                self.wf(),
                n == self.list().len(),
                0 <= i <= n,
                forall|j: int| 0 <= j < i ==> self.list()[j].key_spec() != id,
            decreases n - i,
        {
            if self.entries[i].id() == id {
                proof {
                    lemma_decoded_map_member(self.list(), i as int);
                }
                return Some(&self.entries[i]);
            }
            i += 1;
        }
        proof {
            lemma_decoded_map_dom(self.list());
        }
        None
    }

    /// True when a record keyed by `id` is held.
    pub fn contains_key(&self, id: u32) -> (r: bool)
        requires
            self.wf(),
        ensures
            r == self@.dom().contains(id),
    {
        matches!(self.get(id), Some(_))
    }

    /// Remove the record keyed by `id`, if one is held; without one this is
    /// a no-op.
    pub fn remove(&mut self, id: u32)
        requires
            old(self).wf(),
        ensures
            final(self).wf(),
            final(self)@ == old(self)@.remove(id),
            forall|j: int|
                0 <= j < final(self).list().len() ==> final(self).list()[j].key_spec() != id,
    {
        let n = self.entries.len();
        let mut i: usize = 0;
        while i < n
            invariant
                self == old(self),
                self.wf(),
                n == self.list().len(),
                0 <= i <= n,
                forall|j: int| 0 <= j < i ==> self.list()[j].key_spec() != id,
            decreases n - i,
        {
            if self.entries[i].id() == id {
                let ghost before = self.list();
                self.entries.remove(i);
                proof {
                    lemma_removed_element(before, i as int);
                    lemma_decoded_map_remove(before, i as int);
                }
                return ;
            }
            i += 1;
        }
        proof {
            lemma_decoded_map_dom(self.list());
            assert(self@ =~= self@.remove(id));
        }
    }

    /// Hold `v` under its own identifier, replacing any record already held
    /// under it.
    pub fn insert(&mut self, v: V)
        requires
            old(self).wf(),
        ensures
            final(self).wf(),
            final(self)@ == old(self)@.insert(v.key_spec(), v),
    {
        let id = v.id();
        self.remove(id);
        let ghost removed = self.list();
        self.entries.push(v);
        proof {
            assert(self.list().drop_last() =~= removed);
            assert(forall|j: int|
                0 <= j < removed.len() ==> self.list()[j] == #[trigger] removed[j]);
            assert(distinct_keys(self.list()));
            assert(self@ =~= old(self)@.insert(v.key_spec(), v));
        }
    }

    /// Decode the on-disk array form: records are taken in order, each keyed
    /// by its own identifier, and of two records with the same identifier
    /// the later wins.
    pub fn from_list(list: Vec<V>) -> (r: IdMap<V>)
        ensures
            r.wf(),
            r@ == decoded_map(list@),
    {
        let mut list = list;
        let ghost orig = list@;
        let n0 = list.len();
        proof {
            assert(orig.len() == n0);
        }
        let mut r = IdMap::new();
        let mut i: usize = 0;
        while list.len() > 0
            invariant
                orig.len() <= usize::MAX,
                i <= orig.len(),
                list@ == orig.skip(i as int),
                r.wf(),
                r@ == decoded_map(orig.take(i as int)),
            decreases orig.len() - i,
        {
            proof {
                assert(i < orig.len());
            }
            let v = list.remove(0);
            proof {
                assert(v == orig[i as int]);
                assert(list@ =~= orig.skip(i + 1));
                assert(orig.take(i + 1).drop_last() =~= orig.take(i as int));
                assert(orig.take(i + 1).last() == orig[i as int]);
            }
            r.insert(v);
            i += 1;
        }
        proof {
            assert(orig.take(i as int) =~= orig);
        }
        r
    }
}

/// Every identifier maps to a record and every record to an identifier: the
/// decoded mapping's domain is exactly the set of identifiers the records in
/// the sequence carry.
pub proof fn lemma_decoded_map_dom<V: ListItem>(s: Seq<V>)
    ensures
        forall|k: u32|
            decoded_map(s).dom().contains(k) <==> exists|i: int|
                0 <= i < s.len() && #[trigger] s[i].key_spec() == k,
    decreases s.len(),
{
    if s.len() == 0 {
    } else {
        lemma_decoded_map_dom(s.drop_last());
        assert forall|k: u32| decoded_map(s).dom().contains(k) implies exists|i: int|
            0 <= i < s.len() && #[trigger] s[i].key_spec() == k by {
            if k == s.last().key_spec() {
                assert(s[s.len() - 1].key_spec() == k);
            } else {
                assert(decoded_map(s.drop_last()).dom().contains(k));
                let i = choose|i: int|
                    0 <= i < s.drop_last().len() && #[trigger] s.drop_last()[i].key_spec() == k;
                assert(s.drop_last()[i] == s[i]);
                assert(s[i].key_spec() == k);
            }
        }
        assert forall|k: u32|
            (exists|i: int| 0 <= i < s.len() && #[trigger] s[i].key_spec() == k) implies decoded_map(
            s,
        ).dom().contains(k) by {
            let i = choose|i: int| 0 <= i < s.len() && #[trigger] s[i].key_spec() == k;
            if i == s.len() - 1 {
                assert(k == s.last().key_spec());
            } else {
                assert(s.drop_last()[i].key_spec() == k);
                assert(decoded_map(s.drop_last()).dom().contains(k));
            }
        }
    }
}

/// With no identifier repeated, each record is found in the decoded mapping
/// under its own identifier.
pub proof fn lemma_decoded_map_member<V: ListItem>(s: Seq<V>, i: int)
    requires
        distinct_keys(s),
        0 <= i < s.len(),
    ensures
        decoded_map(s).dom().contains(s[i].key_spec()),
        decoded_map(s)[s[i].key_spec()] == s[i],
    decreases s.len(),
{
    if i == s.len() - 1 {
    } else {
        lemma_decoded_map_member(s.drop_last(), i);
    }
}

/// Removing the record at position `i` removes exactly its identifier's
/// entry from the decoded mapping, provided no identifier is repeated.
proof fn lemma_decoded_map_remove<V: ListItem>(s: Seq<V>, i: int)
    requires
        distinct_keys(s),
        0 <= i < s.len(),
    ensures
        decoded_map(s.remove(i)) == decoded_map(s).remove(s[i].key_spec()),
{
    let k = s[i].key_spec();
    let s2 = s.remove(i);
    lemma_removed_element(s, i);
    lemma_decoded_map_dom(s);
    lemma_decoded_map_dom(s2);
    assert forall|k2: u32| decoded_map(s2).dom().contains(k2) implies decoded_map(s).remove(
        k,
    ).dom().contains(k2) && decoded_map(s2)[k2] == decoded_map(s).remove(k)[k2] by {
        let j = choose|j: int| 0 <= j < s2.len() && #[trigger] s2[j].key_spec() == k2;
        let j0 = if j < i {
            j
        } else {
            j + 1
        };
        assert(s[j0] == s2[j]);
        assert(k2 != k);
        lemma_decoded_map_member(s2, j);
        lemma_decoded_map_member(s, j0);
    }
    assert forall|k2: u32|
        decoded_map(s).remove(k).dom().contains(k2) implies decoded_map(s2).dom().contains(
        k2,
    ) by {
        let j0 = choose|j0: int| 0 <= j0 < s.len() && #[trigger] s[j0].key_spec() == k2;
        assert(j0 != i);
        let j = if j0 < i {
            j0
        } else {
            j0 - 1
        };
        assert(s2[j] == s[j0]);
        lemma_decoded_map_member(s2, j);
    }
    assert(decoded_map(s.remove(i)) =~= decoded_map(s).remove(s[i].key_spec()));
}

/// Removing one position shifts the later records down by one and keeps the
/// identifiers distinct.
proof fn lemma_removed_element<V: ListItem>(s: Seq<V>, i: int)
    requires
        distinct_keys(s),
        0 <= i < s.len(),
    ensures
        s.remove(i).len() == s.len() - 1,
        forall|j: int| 0 <= j < i ==> s.remove(i)[j] == s[j],
        forall|j: int| i <= j < s.len() - 1 ==> s.remove(i)[j] == s[j + 1],
        distinct_keys(s.remove(i)),
{
    let s2 = s.remove(i);
    assert forall|a: int, b: int| 0 <= a < b < s2.len() implies s2[a].key_spec()
        != s2[b].key_spec() by {
        let a0 = if a < i {
            a
        } else {
            a + 1
        };
        let b0 = if b < i {
            b
        } else {
            b + 1
        };
        assert(s2[a] == s[a0] && s2[b] == s[b0]);
    }
}

/// Key consistency: every entry of a decoded mapping is keyed by its own
/// record's identifier, whatever sequence it was decoded from.
pub proof fn lemma_decoded_map_key_consistent<V: ListItem>(s: Seq<V>)
    ensures
        forall|k: u32| #[trigger]
            decoded_map(s).dom().contains(k) ==> decoded_map(s)[k].key_spec() == k,
    decreases s.len(),
{
    if s.len() == 0 {
    } else {
        lemma_decoded_map_key_consistent(s.drop_last());
        assert forall|k: u32| #[trigger]
            decoded_map(s).dom().contains(k) implies decoded_map(s)[k].key_spec() == k by {
            if k != s.last().key_spec() {
                assert(decoded_map(s.drop_last()).dom().contains(k));
            }
        }
    }
}

/// Decoding is independent of array order: two arrays that hold the same
/// records — as a multiset, so reordering is the only difference — decode to
/// the same mapping, provided the first repeats no identifier (and then
/// neither does the second).
pub proof fn lemma_decode_order_independent<V: ListItem>(l1: Seq<V>, l2: Seq<V>)
    requires
        distinct_keys(l1),
        l1.to_multiset() == l2.to_multiset(),
    ensures
        distinct_keys(l2),
        decoded_map(l1) == decoded_map(l2),
{
    broadcast use vstd::seq_lib::group_to_multiset_ensures;

    assert(l1.no_duplicates());
    l1.lemma_multiset_has_no_duplicates();
    l2.lemma_multiset_has_no_duplicates_conv();
    assert forall|a: int, b: int| 0 <= a < b < l2.len() implies l2[a].key_spec()
        != l2[b].key_spec() by {
        assert(l2.contains(l2[a]) && l2.contains(l2[b]));
        assert(l2.to_multiset().count(l2[a]) > 0 && l2.to_multiset().count(l2[b]) > 0);
        assert(l1.to_multiset().count(l2[a]) > 0 && l1.to_multiset().count(l2[b]) > 0);
        assert(l1.contains(l2[a]) && l1.contains(l2[b]));
        let a1 = choose|a1: int| 0 <= a1 < l1.len() && l1[a1] == l2[a];
        let b1 = choose|b1: int| 0 <= b1 < l1.len() && l1[b1] == l2[b];
        assert(l2[a] != l2[b]);
    }
    lemma_decoded_map_dom(l1);
    lemma_decoded_map_dom(l2);
    assert forall|k: u32| #[trigger] decoded_map(l1).dom().contains(k) implies decoded_map(
        l2,
    ).dom().contains(k) && decoded_map(l1)[k] == decoded_map(l2)[k] by {
        let i = choose|i: int| 0 <= i < l1.len() && #[trigger] l1[i].key_spec() == k;
        assert(l1.contains(l1[i]));
        assert(l1.to_multiset().count(l1[i]) > 0);
        assert(l2.to_multiset().count(l1[i]) > 0);
        assert(l2.contains(l1[i]));
        let j = choose|j: int| 0 <= j < l2.len() && l2[j] == l1[i];
        lemma_decoded_map_member(l1, i);
        lemma_decoded_map_member(l2, j);
    }
    assert forall|k: u32| #[trigger] decoded_map(l2).dom().contains(k) implies decoded_map(
        l1,
    ).dom().contains(k) by {
        let j = choose|j: int| 0 <= j < l2.len() && #[trigger] l2[j].key_spec() == k;
        assert(l2.contains(l2[j]));
        assert(l2.to_multiset().count(l2[j]) > 0);
        assert(l1.to_multiset().count(l2[j]) > 0);
        assert(l1.contains(l2[j]));
        let i = choose|i: int| 0 <= i < l1.len() && l1[i] == l2[j];
        assert(l1[i].key_spec() == k);
        lemma_decoded_map_member(l1, i);
    }
    assert(decoded_map(l1).dom() =~= decoded_map(l2).dom());
    assert(decoded_map(l1) =~= decoded_map(l2));
}

/// The codec's round trip: encoding a well-formed collection and decoding
/// the array back — after any reordering — yields exactly the identifiers
/// and records the collection held.
pub proof fn lemma_codec_round_trip<V: ListItem>(m: IdMap<V>, reordered: Seq<V>)
    requires
        m.wf(),
        m.list().to_multiset() == reordered.to_multiset(),
    ensures
        decoded_map(reordered) == m@,
{
    lemma_decode_order_independent(m.list(), reordered);
}

} // verus!
