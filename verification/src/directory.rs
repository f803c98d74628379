//! The offer directory contract, and an in-memory directory that meets it.
//!
//! The directory keys offers by transfer identifier. Writing upserts — a
//! later offer under the same identifier wins — and reading treats an offer
//! whose validity window has passed as absent, whether or not the backing
//! store has purged it yet. [`put_spec`] and [`get_spec`] state that
//! contract; [`Directory`] is an in-memory directory proven to meet it, so
//! the protocol can be exercised end to end without the external store.

use vstd::prelude::*;
use crate::offer::{Offer, OfferView};
use crate::strutil::str_eq;

verus! {

/// Writing upserts by transfer identifier: last writer wins, no merge.
pub open spec fn put_spec(m: Map<Seq<char>, OfferView>, o: OfferView) -> Map<
    Seq<char>,
    OfferView,
> {
    m.insert(o.transfer_id, o)
}

/// Reading returns the offer under the key, and treats one past its
/// validity window as absent.
pub open spec fn get_spec(m: Map<Seq<char>, OfferView>, transfer_id: Seq<char>, now: int) -> Option<
    OfferView,
> {
    if m.contains_key(transfer_id) && now <= m[transfer_id].valid_until {
        Some(m[transfer_id])
    } else {
        None
    }
}

/// Writing an offer and reading its transfer identifier back at once yields
/// exactly the offer written, its connection handle included, whatever the
/// directory held before.
pub proof fn lemma_put_then_get(m: Map<Seq<char>, OfferView>, o: OfferView, now: int)
    requires
        now <= o.valid_until,
    ensures
        get_spec(put_spec(m, o), o.transfer_id, now) == Some(o),
{
}

/// A second offer written under the same transfer identifier overwrites the
/// first: a later read sees the second offer's connection handle, never the
/// first one's.
pub proof fn lemma_put_overwrites(
    m: Map<Seq<char>, OfferView>,
    first: OfferView,
    second: OfferView,
    now: int,
)
    requires
        first.transfer_id == second.transfer_id,
        now <= second.valid_until,
    ensures
        get_spec(put_spec(put_spec(m, first), second), second.transfer_id, now) == Some(second),
{
}

/// True when some entry holds `transfer_id`.
pub open spec fn has_key(entries: Seq<Offer>, transfer_id: Seq<char>) -> bool {
    exists|i: int| 0 <= i < entries.len() && (#[trigger] entries[i]).transfer_id@ == transfer_id
}

/// The index of the entry holding `transfer_id`.
pub open spec fn index_of_key(entries: Seq<Offer>, transfer_id: Seq<char>) -> int {
    choose|i: int| 0 <= i < entries.len() && (#[trigger] entries[i]).transfer_id@ == transfer_id
}

/// No two entries hold the same transfer identifier.
pub open spec fn distinct_keys(entries: Seq<Offer>) -> bool {
    forall|i: int, j: int|
        0 <= i < j < entries.len() ==> (#[trigger] entries[i]).transfer_id@ != (
        #[trigger] entries[j]).transfer_id@
}

/// Which offer a list of entries holds under each transfer identifier.
pub open spec fn map_of(entries: Seq<Offer>) -> Map<Seq<char>, OfferView> {
    Map::new(
        |k: Seq<char>| has_key(entries, k),
        |k: Seq<char>| entries[index_of_key(entries, k)]@,
    )
}

/// With distinct keys, the entry at `i` is what the map holds under its
/// transfer identifier.
proof fn lemma_map_of_entry(entries: Seq<Offer>, i: int)
    requires
        distinct_keys(entries),
        0 <= i < entries.len(),
    ensures
        map_of(entries).contains_key(entries[i].transfer_id@),
        map_of(entries)[entries[i].transfer_id@] == entries[i]@,
{
    let k = entries[i].transfer_id@;
    assert(has_key(entries, k));
    let w = index_of_key(entries, k);
    assert(0 <= w < entries.len() && entries[w].transfer_id@ == k);
    assert(w == i);
}

/// An in-memory offer directory. The production directory is the external
/// store, which the surrounding service calls; this one meets the same
/// contract, proven, and lets the protocol run self-contained.
pub struct Directory {
    entries: Vec<Offer>,
}

impl View for Directory {
    type V = Map<Seq<char>, OfferView>;

    closed spec fn view(&self) -> Map<Seq<char>, OfferView> {
        map_of(self.entries@)
    }
}

impl Directory {
    /// At most one entry per transfer identifier.
    pub closed spec fn wf(&self) -> bool {
        distinct_keys(self.entries@)
    }

    /// An empty directory.
    pub fn new() -> (d: Directory)
        ensures
            d.wf(),
            d@ == Map::<Seq<char>, OfferView>::empty(),
    {
        let d = Directory { entries: Vec::new() };
        proof {
            assert(d@ =~= Map::<Seq<char>, OfferView>::empty());
        }
        d
    }

    /// Upserts the offer under its transfer identifier.
    pub fn put(&mut self, offer: Offer)
        requires
            old(self).wf(),
        ensures
            final(self).wf(),
            final(self)@ == put_spec(old(self)@, offer@),
    {
        let ghost entries0 = self.entries@;
        let ghost k = offer.transfer_id@;
        let ghost ov = offer@;
        let n: usize = self.entries.len();
        let mut i: usize = 0;
        while i < n
            invariant
                i <= n,
                n == self.entries@.len(),
                self.entries@ == entries0,
                entries0 == old(self).entries@,
                distinct_keys(entries0),
                k == ov.transfer_id,
                offer.transfer_id@ == k,
                offer@ == ov,
                forall|j: int|
                    0 <= j < i ==> (#[trigger] self.entries@[j]).transfer_id@ != k,
            decreases n - i,
        {
            if str_eq(self.entries[i].transfer_id.as_str(), offer.transfer_id.as_str()) {
                vstd::std_specs::core::index_set(&mut self.entries, i, offer);
                proof {
                    lemma_put_updates(entries0, i as int, ov);
                }
                return;
            }
            i = i + 1;
        }
        self.entries.push(offer);
        proof {
            lemma_put_appends(entries0, ov);
        }
    }

    /// Reads the offer under `transfer_id` at `now`, treating an expired
    /// offer as absent even while its record still sits in the directory.
    pub fn get(&self, transfer_id: &str, now: i64) -> (r: Option<Offer>)
        requires
            self.wf(),
        ensures
            match r {
                Some(o) => get_spec(self@, transfer_id@, now as int) == Some(o@),
                None => get_spec(self@, transfer_id@, now as int) is None,
            },
    {
        let n: usize = self.entries.len();
        let mut i: usize = 0;
        while i < n
            invariant
                i <= n,
                n == self.entries@.len(),
                self.wf(),
                forall|j: int|
                    0 <= j < i ==> (#[trigger] self.entries@[j]).transfer_id@ != transfer_id@,
            decreases n - i,
        {
            let entry = &self.entries[i];
            if str_eq(entry.transfer_id.as_str(), transfer_id) {
                proof {
                    lemma_map_of_entry(self.entries@, i as int);
                }
                if entry.is_live(now) {
                    return Some(entry.clone());
                } else {
                    return None;
                }
            }
            i = i + 1;
        }
        proof {
            assert(!has_key(self.entries@, transfer_id@));
        }
        None
    }
}

/// Replacing the entry that holds an offer's transfer identifier inserts
/// the offer into the map the entries stand for.
proof fn lemma_put_updates(entries: Seq<Offer>, i: int, ov: OfferView)
    requires
        distinct_keys(entries),
        0 <= i < entries.len(),
        entries[i].transfer_id@ == ov.transfer_id,
    ensures
        forall|o: Offer|
            o@ == ov ==> distinct_keys(#[trigger] entries.update(i, o))
                && map_of(entries.update(i, o)) == map_of(entries).insert(ov.transfer_id, ov),
{
    let k = ov.transfer_id;
    assert forall|o: Offer| o@ == ov implies distinct_keys(#[trigger] entries.update(i, o))
        && map_of(entries.update(i, o)) == map_of(entries).insert(k, ov) by {
        let entries1 = entries.update(i, o);
        assert(o.transfer_id@ == k);
        assert forall|a: int, b: int| 0 <= a < b < entries1.len() implies (
        #[trigger] entries1[a]).transfer_id@ != (#[trigger] entries1[b]).transfer_id@ by {
            assert(entries[a].transfer_id@ != entries[b].transfer_id@);
            assert(entries1[a].transfer_id@ == entries[a].transfer_id@);
            assert(entries1[b].transfer_id@ == entries[b].transfer_id@);
        }
        assert(map_of(entries1) =~= map_of(entries).insert(k, ov)) by {
            assert forall|k2: Seq<char>| has_key(entries1, k2) <==> has_key(entries, k2)
                || k2 == k by {
                if has_key(entries1, k2) {
                    let w = index_of_key(entries1, k2);
                    assert(0 <= w < entries1.len() && entries1[w].transfer_id@ == k2);
                    if w == i {
                        assert(k2 == k);
                    } else {
                        assert(entries[w].transfer_id@ == k2);
                        assert(has_key(entries, k2));
                    }
                }
                if k2 == k {
                    assert(entries1[i].transfer_id@ == k2);
                    assert(has_key(entries1, k2));
                }
                if has_key(entries, k2) && k2 != k {
                    let w = index_of_key(entries, k2);
                    assert(0 <= w < entries.len() && entries[w].transfer_id@ == k2);
                    assert(w != i);
                    assert(entries1[w].transfer_id@ == k2);
                    assert(has_key(entries1, k2));
                }
            }
            assert forall|k2: Seq<char>| has_key(entries1, k2) implies map_of(entries1)[k2]
                == map_of(entries).insert(k, ov)[k2] by {
                let w1 = index_of_key(entries1, k2);
                assert(0 <= w1 < entries1.len() && entries1[w1].transfer_id@ == k2);
                if k2 == k {
                    if w1 != i {
                        assert(entries[w1].transfer_id@ == k);
                        assert(entries[i].transfer_id@ == k);
                        assert(false);
                    }
                    assert(map_of(entries1)[k2] == ov);
                } else {
                    assert(w1 != i);
                    assert(entries[w1].transfer_id@ == k2);
                    assert(has_key(entries, k2));
                    let w0 = index_of_key(entries, k2);
                    assert(0 <= w0 < entries.len() && entries[w0].transfer_id@ == k2);
                    if w0 != w1 {
                        assert(false);
                    }
                    assert(map_of(entries1)[k2] == entries1[w1]@);
                    assert(entries1[w1]@ == entries[w0]@);
                }
            }
        }
    }
}

/// Appending an entry whose transfer identifier no other entry holds
/// inserts its offer into the map the entries stand for.
proof fn lemma_put_appends(entries: Seq<Offer>, ov: OfferView)
    requires
        distinct_keys(entries),
        !has_key(entries, ov.transfer_id),
    ensures
        forall|o: Offer|
            o@ == ov ==> distinct_keys(#[trigger] entries.push(o)) && map_of(entries.push(o))
                == map_of(entries).insert(ov.transfer_id, ov),
{
    let k = ov.transfer_id;
    let n = entries.len() as int;
    assert forall|o: Offer| o@ == ov implies distinct_keys(#[trigger] entries.push(o)) && map_of(
        entries.push(o),
    ) == map_of(entries).insert(k, ov) by {
        let entries1 = entries.push(o);
        assert(o.transfer_id@ == k);
        assert(entries1[n] == o);
        assert forall|a: int, b: int| 0 <= a < b < entries1.len() implies (
        #[trigger] entries1[a]).transfer_id@ != (#[trigger] entries1[b]).transfer_id@ by {
            if b == n {
                assert(entries1[a] == entries[a]);
                assert(entries[a].transfer_id@ != k) by {
                    if entries[a].transfer_id@ == k {
                        assert(has_key(entries, k));
                    }
                }
            } else {
                assert(entries1[a] == entries[a]);
                assert(entries1[b] == entries[b]);
                assert(entries[a].transfer_id@ != entries[b].transfer_id@);
            }
        }
        assert(map_of(entries1) =~= map_of(entries).insert(k, ov)) by {
            assert forall|k2: Seq<char>| has_key(entries1, k2) <==> has_key(entries, k2)
                || k2 == k by {
                if has_key(entries1, k2) {
                    let w = index_of_key(entries1, k2);
                    assert(0 <= w < entries1.len() && entries1[w].transfer_id@ == k2);
                    if w == n {
                        assert(k2 == k);
                    } else {
                        assert(entries[w].transfer_id@ == k2);
                        assert(has_key(entries, k2));
                    }
                }
                if k2 == k {
                    assert(entries1[n].transfer_id@ == k2);
                    assert(has_key(entries1, k2));
                }
                if has_key(entries, k2) {
                    let w = index_of_key(entries, k2);
                    assert(0 <= w < entries.len() && entries[w].transfer_id@ == k2);
                    assert(entries1[w].transfer_id@ == k2);
                    assert(has_key(entries1, k2));
                }
            }
            assert forall|k2: Seq<char>| has_key(entries1, k2) implies map_of(entries1)[k2]
                == map_of(entries).insert(k, ov)[k2] by {
                let w1 = index_of_key(entries1, k2);
                assert(0 <= w1 < entries1.len() && entries1[w1].transfer_id@ == k2);
                if k2 == k {
                    if w1 != n {
                        assert(entries[w1].transfer_id@ == k);
                        assert(has_key(entries, k));
                        assert(false);
                    }
                    assert(map_of(entries1)[k2] == ov);
                } else {
                    assert(w1 != n);
                    assert(entries[w1].transfer_id@ == k2);
                    assert(has_key(entries, k2));
                    let w0 = index_of_key(entries, k2);
                    assert(0 <= w0 < entries.len() && entries[w0].transfer_id@ == k2);
                    if w0 != w1 {
                        assert(false);
                    }
                    assert(map_of(entries1)[k2] == entries1[w1]@);
                    assert(entries1[w1]@ == entries[w0]@);
                }
            }
        }
    }
}

} // verus!
