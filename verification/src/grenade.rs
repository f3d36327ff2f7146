//! Grenade helper bookkeeping: the registry of known grenade spots and the
//! label that names the grenades of a spot.
use vstd::prelude::*;
use std::collections::BTreeMap;
use crate::settings::{GranadeType, GrenadeType, spec_grenade_name};

verus! {

broadcast use vstd::std_specs::btree::group_btree_axioms, vstd::laws_cmp::group_laws_cmp;

/// The display names of grenade types joined by ", ".
pub open spec fn spec_join_names(types: Seq<GranadeType>) -> Seq<char>
    decreases types.len(),
{
    if types.len() == 0 {
        Seq::empty()
    } else if types.len() == 1 {
        spec_grenade_name(types[0].spec_index())
    } else {
        spec_join_names(types.drop_last()) + ", "@ + spec_grenade_name(types.last().spec_index())
    }
}

/// Label of a grenade spot: "All granades" when it names no type, else the
/// names of its types joined by ", ".
pub open spec fn spec_granade_types_label(types: Seq<GranadeType>) -> Seq<char> {
    if types.len() == 0 {
        "All granades"@
    } else {
        spec_join_names(types)
    }
}

pub fn granade_types_label(types: &Vec<GranadeType>) -> (label: String)
    ensures
        label@ == spec_granade_types_label(types@),
{
    if types.len() == 0 {
        return "All granades".to_owned();
    }
    let mut label = String::new();
    let mut i: usize = 0;
    while i < types.len()
        invariant
            i <= types@.len(),
            label@ == spec_join_names(types@.subrange(0, i as int)),
        decreases types@.len() - i,
    {
        if i > 0 {
            label.append(", ");
        }
        label.append(types[i].display_name());
        proof {
            let s = types@.subrange(0, i + 1);
            assert(s.drop_last() =~= types@.subrange(0, i as int));
            assert(s.last() == types@[i as int]);
            reveal_strlit(", ");
        }
        i = i + 1;
    }
    assert(types@.subrange(0, i as int) =~= types@);
    label
}

/// The display names of grenade types joined by ", ".
pub open spec fn spec_join_grenade_names(types: Seq<GrenadeType>) -> Seq<char>
    decreases types.len(),
{
    if types.len() == 0 {
        Seq::empty()
    } else if types.len() == 1 {
        spec_grenade_name(types[0].spec_index())
    } else {
        spec_join_grenade_names(types.drop_last()) + ", "@ + spec_grenade_name(types.last().spec_index())
    }
}

/// Label of a grenade spot: "All grenades" when it names no type, else the
/// names of its types joined by ", ".
pub open spec fn spec_grenade_types_label(types: Seq<GrenadeType>) -> Seq<char> {
    if types.len() == 0 {
        "All grenades"@
    } else {
        spec_join_grenade_names(types)
    }
}

pub fn grenade_types_label(types: &Vec<GrenadeType>) -> (label: String)
    ensures
        label@ == spec_grenade_types_label(types@),
{
    if types.len() == 0 {
        return "All grenades".to_owned();
    }
    let mut label = String::new();
    let mut i: usize = 0;
    while i < types.len()
        invariant
            i <= types@.len(),
            label@ == spec_join_grenade_names(types@.subrange(0, i as int)),
        decreases types@.len() - i,
    {
        if i > 0 {
            label.append(", ");
        }
        label.append(types[i].display_name());
        proof {
            let s = types@.subrange(0, i + 1);
            assert(s.drop_last() =~= types@.subrange(0, i as int));
            assert(s.last() == types@[i as int]);
            reveal_strlit(", ");
        }
        i = i + 1;
    }
    assert(types@.subrange(0, i as int) =~= types@);
    label
}

/// The known grenade spots, each under an id of its own. `I` is what is
/// stored of a spot.
pub struct GranadeHelper<I> {
    granades: BTreeMap<u64, I>,
    granade_max_id: u64,
}

impl<I> GranadeHelper<I> {
    #[verifier::type_invariant]
    spec fn ids_below_max(self) -> bool {
        forall|id: u64| #[trigger] self.granades@.contains_key(id) ==> 1 <= id <= self.granade_max_id
    }

    /// The registered spots by id.
    pub closed spec fn granades(self) -> Map<u64, I> {
        self.granades@
    }

    /// The largest id handed out so far.
    pub closed spec fn max_id(self) -> u64 {
        self.granade_max_id
    }

    pub fn new() -> (helper: Self)
        ensures
            helper.granades() == Map::<u64, I>::empty(),
            helper.max_id() == 0,
    {
        GranadeHelper { granades: BTreeMap::new(), granade_max_id: 0 }
    }

    /// Registers a spot under the next id, which no spot had before, and
    /// returns that id.
    pub fn register_granade_info(&mut self, info: I) -> (id: u64)
        requires
            old(self).max_id() < u64::MAX,
        ensures
            id == old(self).max_id() + 1,
            !old(self).granades().contains_key(id),
            final(self).granades() == old(self).granades().insert(id, info),
            final(self).max_id() == id,
            forall|k: u64| #[trigger] final(self).granades().contains_key(k) ==> 1 <= k <= final(self).max_id(),
    {
        proof {
            use_type_invariant(&*self);
        }
        let granade_id = self.granade_max_id + 1;
        let mut granades = BTreeMap::new();
        std::mem::swap(&mut granades, &mut self.granades);
        granades.insert(granade_id, info);
        self.granade_max_id = granade_id;
        self.granades = granades;
        granade_id
    }

    /// The spot registered under `id`.
    pub fn get(&self, id: u64) -> (info: Option<&I>)
        ensures
            match info {
                Some(v) => self.granades().contains_key(id) && *v == self.granades()[id],
                None => !self.granades().contains_key(id),
            },
    {
        self.granades.get(&id)
    }

    /// Number of registered spots.
    pub fn len(&self) -> (count: usize)
        ensures
            count == self.granades().len(),
    {
        self.granades.len()
    }
}

} // verus!
