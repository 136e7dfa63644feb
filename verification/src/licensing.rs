//! Creative licensing marketplace: licenses of creative assets, numbered
//! from 1, that can be revoked.
use vstd::prelude::*;
use std::collections::HashMap;
use vstd::std_specs::iter::IteratorSpec;

verus! {

broadcast use vstd::std_specs::hash::group_hash_axioms;

/// The kind of use a license grants.
#[derive(Debug, Clone, Copy, PartialEq, Eq, Structural)]
pub enum LicenseType {
    Personal,
    Commercial,
    Exclusive,
}

/// A license of `asset_id` from `owner` to `licensee`.
#[derive(Debug)]
pub struct License {
    pub id: u64,
    pub asset_id: String,
    pub owner: String,
    pub licensee: String,
    pub license_type: LicenseType,
    pub price: u64,
    pub active: bool,
}

impl License {
    /// A field-by-field copy.
    pub fn copy(&self) -> (r: License)
        ensures
            r == *self,
    {
        License {
            id: self.id,
            asset_id: self.asset_id.clone(),
            owner: self.owner.clone(),
            licensee: self.licensee.clone(),
            license_type: self.license_type,
            price: self.price,
            active: self.active,
        }
    }
}

/// Filtering a sequence without repeated elements repeats none.
proof fn lemma_filter_keeps_no_duplicates(s: Seq<License>, pred: spec_fn(License) -> bool)
    requires
        s.no_duplicates(),
    ensures
        s.filter(pred).no_duplicates(),
    decreases s.len(),
{
    reveal_with_fuel(Seq::<_>::filter, 1);
    if s.len() > 0 {
        let d = s.drop_last();
        assert(d.no_duplicates()) by {
            assert forall|i: int, j: int| 0 <= i < d.len() && 0 <= j < d.len() && i != j implies d[i]
                != d[j] by {
                assert(d[i] == s[i] && d[j] == s[j]);
            }
        }
        lemma_filter_keeps_no_duplicates(d, pred);
        let sub = d.filter(pred);
        if pred(s.last()) {
            assert(!sub.contains(s.last())) by {
                if sub.contains(s.last()) {
                    d.lemma_filter_contains_rev(pred, s.last());
                    let m = choose|m: int| 0 <= m < d.len() && d[m] == s.last();
                    assert(s[m] == s[s.len() - 1]);
                }
            }
            let t = sub.push(s.last());
            assert forall|i: int, j: int| 0 <= i < t.len() && 0 <= j < t.len() && i != j implies t[i]
                != t[j] by {
                if i == sub.len() {
                    assert(!sub.contains(t[j]) || t[j] != s.last());
                    if t[j] == s.last() {
                        assert(sub[j] == t[j]);
                    }
                } else if j == sub.len() {
                    if t[i] == s.last() {
                        assert(sub[i] == t[i]);
                    }
                }
            }
        }
    }
}

/// Whether `l` is an active license of the asset `asset_id`.
pub open spec fn active_license_of(l: License, asset_id: Seq<char>) -> bool {
    l.asset_id@ == asset_id && l.active
}

/// The licenses by number, and the number the next license will get.
#[derive(Debug, Default)]
pub struct LicensingMarketplace {
    pub licenses: HashMap<u64, License>,
    pub next_id: u64,
}

impl LicensingMarketplace {
    /// Every license is stored under its own number.
    pub open spec fn wf(&self) -> bool {
        forall|k: u64| #[trigger] self.licenses@.contains_key(k) ==> self.licenses@[k].id == k
    }

    /// A marketplace with no license; licenses are numbered from 1.
    pub fn new() -> (m: LicensingMarketplace)
        ensures
            m.wf(),
            m.licenses@ == Map::<u64, License>::empty(),
            m.next_id == 1,
    {
        LicensingMarketplace { licenses: HashMap::new(), next_id: 1 }
    }

    /// Records an active license under the next number and returns it.
    pub fn create_license(
        &mut self,
        asset_id: String,
        owner: String,
        licensee: String,
        license_type: LicenseType,
        price: u64,
    ) -> (id: u64)
        requires
            old(self).next_id < u64::MAX,
        ensures
            old(self).wf() ==> final(self).wf(),
            id == old(self).next_id,
            final(self).next_id == old(self).next_id + 1,
            final(self).licenses@ == old(self).licenses@.insert(
                id,
                License { id, asset_id, owner, licensee, license_type, price, active: true },
            ),
    {
        let id = self.next_id;
        self.licenses.insert(
            id,
            License { id, asset_id, owner, licensee, license_type, price, active: true },
        );
        self.next_id = self.next_id + 1;
        id
    }

    /// Deactivates license `id`; false when there is no such license.
    pub fn revoke_license(&mut self, id: u64) -> (found: bool)
        ensures
            old(self).wf() ==> final(self).wf(),
            found == old(self).licenses@.contains_key(id),
            final(self).next_id == old(self).next_id,
            found ==> final(self).licenses@ == old(self).licenses@.insert(
                id,
                License { active: false, ..old(self).licenses@[id] },
            ),
            !found ==> final(self).licenses@ == old(self).licenses@,
    {
        let mut lic = match self.licenses.get(&id) {
            Some(l) => l.copy(),
            None => return false,
        };
        lic.active = false;
        self.licenses.insert(id, lic);
        true
    }

    /// The active licenses of `asset_id`, in the order in which the map is
    /// walked.
    pub fn get_licenses_for_asset(&self, asset_id: &str) -> (r: Vec<&License>)
        ensures
            r@.unref() == self.licenses.values().remaining().unref().filter(
                |l: License| active_license_of(l, asset_id@),
            ),
            forall|l: License|
                r@.unref().contains(l) <==> self.licenses@.values().contains(l)
                    && active_license_of(l, asset_id@),
            self.licenses@.is_injective() ==> r@.unref().no_duplicates(),
    {
        let target = asset_id.to_owned();
        let ghost pred = |l: License| active_license_of(l, asset_id@);
        let ghost full = self.licenses.values().remaining();
        let mut r: Vec<&License> = Vec::new();
        for l in it: self.licenses.values()
            invariant
                target@ == asset_id@,
                it.seq() == full,
                pred == (|l: License| active_license_of(l, asset_id@)),
                r@.unref() == it.seq().take(it.index()).unref().filter(pred),
        {
            proof {
                let prefix = it.seq().take(it.index()).unref();
                assert(it.seq().take(it.index() + 1).unref() =~= prefix.push(*l));
                prefix.lemma_filter_push(*l, pred);
            }
            let ghost before = r@;
            if l.asset_id == target && l.active {
                r.push(l);
                assert(r@.unref() =~= before.unref().push(*l));
            }
        }
        proof {
            assert(full.take(full.len() as int) =~= full);
            let all = full.unref();
            assert(r@.unref() == all.filter(pred));
            assert forall|l: License|
                r@.unref().contains(l) <==> self.licenses@.values().contains(l) && pred(l) by {
                broadcast use vstd::seq_lib::group_filter_ensures;
                if all.filter(pred).contains(l) {
                    all.lemma_filter_contains_rev(pred, l);
                }
                if all.contains(l) && pred(l) {
                    let i = choose|i: int| 0 <= i < all.len() && all[i] == l;
                    all.lemma_filter_contains(pred, i);
                }
                assert(all.to_set().contains(l) == all.contains(l));
            }
            if self.licenses@.is_injective() {
                self.licenses@.lemma_injective_values_len();
                all.lemma_no_dup_set_cardinality();
                lemma_filter_keeps_no_duplicates(all, pred);
            }
        }
        r
    }
}

/// A marketplace whose licenses sit under their own numbers holds no
/// license twice, so each active license of an asset is listed once by
/// [`LicensingMarketplace::get_licenses_for_asset`].
pub proof fn lemma_numbered_licenses_distinct(m: &LicensingMarketplace)
    requires
        m.wf(),
    ensures
        m.licenses@.is_injective(),
{
    assert forall|x: u64, y: u64|
        x != y && m.licenses@.dom().contains(x) && m.licenses@.dom().contains(y) implies #[trigger] m.licenses@[x]
            != #[trigger] m.licenses@[y] by {
        assert(m.licenses@[x].id == x && m.licenses@[y].id == y);
    }
}

/// A license is listed for an asset exactly when it is of that asset and
/// active, whatever its price, type, owner or licensee.
pub proof fn lemma_listed_iff_active_of_asset(l: License, asset_id: Seq<char>)
    ensures
        active_license_of(l, asset_id) <==> (l.asset_id@ == asset_id && l.active),
{
}

} // verus!
