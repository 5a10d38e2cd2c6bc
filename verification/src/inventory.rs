//! Items, player inventories with numbered slots, and storage containers.

use vstd::prelude::*;
use vstd::multiset::Multiset;
use vstd::std_specs::iter::IteratorSpec;
use vstd::set::fold::is_fun_commutative;
use std::collections::HashMap;

verus! {

/// An item of the game world.
///
/// The item's metadata maps each tag to the JSON text of its value.
#[derive(Debug)]
pub struct Item {
    pub name: String,
    pub model: Option<String>,
    pub meta_tags: Vec<(String, String)>,
}

/// The mathematical model of an [`Item`].
pub ghost struct ItemView {
    pub name: Seq<char>,
    pub model: Option<Seq<char>>,
    pub meta_tags: Seq<(Seq<char>, Seq<char>)>,
}

/// The text of an optional string.
pub open spec fn opt_string_view(o: Option<String>) -> Option<Seq<char>> {
    match o {
        Some(x) => Some(x@),
        None => None,
    }
}

/// The texts of a list of tag pairs.
pub open spec fn tag_views(s: Seq<(String, String)>) -> Seq<(Seq<char>, Seq<char>)> {
    s.map_values(|p: (String, String)| (p.0@, p.1@))
}

impl View for Item {
    type V = ItemView;

    open spec fn view(&self) -> ItemView {
        ItemView { name: self.name@, model: opt_string_view(self.model), meta_tags: tag_views(self.meta_tags@) }
    }
}

/// The model of an optional item.
pub open spec fn opt_item_view(o: Option<Item>) -> Option<ItemView> {
    match o {
        Some(x) => Some(x@),
        None => None,
    }
}

/// The models of a sequence of items.
pub open spec fn item_views(s: Seq<Item>) -> Seq<ItemView> {
    s.map_values(|x: Item| x@)
}

/// The items in a slot: none or one.
pub open spec fn opt_items(o: Option<ItemView>) -> Multiset<ItemView> {
    match o {
        Some(x) => Multiset::singleton(x),
        None => Multiset::empty(),
    }
}

impl Item {
    /// A copy of this item.
    pub fn duplicate(&self) -> (r: Item)
        ensures
            r@ == self@,
    {
        let model = match &self.model {
            Some(m) => Some(m.clone()),
            None => None,
        };
        let mut tags: Vec<(String, String)> = Vec::new();
        let mut i: usize = 0;
        while i < self.meta_tags.len()
            invariant
                i <= self.meta_tags.len(),
                tags.len() == i,
                forall|k: int|
                    0 <= k < i ==> #[trigger] tags@[k].0@ == self.meta_tags@[k].0@ && tags@[k].1@
                        == self.meta_tags@[k].1@,
            decreases self.meta_tags.len() - i,
        {
            let pair = (self.meta_tags[i].0.clone(), self.meta_tags[i].1.clone());
            tags.push(pair);
            i = i + 1;
        }
        proof {
            assert(tag_views(tags@) =~= tag_views(self.meta_tags@));
        }
        Item { name: self.name.clone(), model, meta_tags: tags }
    }
}

/// What slot `slot` holds, or `None` when there is no such slot.
pub open spec fn slot_or_none(m: Map<u32, Option<ItemView>>, slot: u32) -> Option<ItemView> {
    if m.contains_key(slot) {
        m[slot]
    } else {
        None
    }
}

/// The model of a map from slots to their contents.
pub open spec fn slot_views(m: Map<u32, Option<Item>>) -> Map<u32, Option<ItemView>> {
    Map::new(|s: u32| m.contains_key(s), |s: u32| opt_item_view(m[s]))
}

/// Adds the items of a slot of `m` to a count of items.
pub open spec fn add_slot_items(m: Map<u32, Option<ItemView>>) -> spec_fn(Multiset<ItemView>, u32) -> Multiset<
    ItemView,
> {
    |acc: Multiset<ItemView>, s: u32| acc.add(opt_items(m[s]))
}

/// All items that the slots `slots` of `m` hold, counted with multiplicity.
pub open spec fn items_in(m: Map<u32, Option<ItemView>>, slots: Set<u32>) -> Multiset<ItemView> {
    slots.fold(Multiset::empty(), add_slot_items(m))
}

proof fn lemma_add_slot_items_commutes(m: Map<u32, Option<ItemView>>)
    ensures
        is_fun_commutative(add_slot_items(m)),
{
    broadcast use vstd::multiset::group_multiset_axioms;

    let f = add_slot_items(m);
    assert forall|a1: u32, a2: u32, b: Multiset<ItemView>| #[trigger] f(f(b, a1), a2) == f(f(b, a2), a1) by {
        assert(f(f(b, a1), a2) =~= f(f(b, a2), a1));
    }
}

/// Counting the items of a set of slots is counting those of all but one,
/// then adding that one's.
proof fn lemma_items_in_remove(m: Map<u32, Option<ItemView>>, slots: Set<u32>, s: u32)
    requires
        slots.finite(),
        slots.contains(s),
    ensures
        items_in(m, slots) == items_in(m, slots.remove(s)).add(opt_items(m[s])),
{
    lemma_add_slot_items_commutes(m);
    vstd::set::fold::lemma_fold_insert(slots.remove(s), Multiset::empty(), add_slot_items(m), s);
    assert(slots.remove(s).insert(s) =~= slots);
}

/// The count of a set of slots depends only on what those slots hold.
proof fn lemma_items_in_agree(m1: Map<u32, Option<ItemView>>, m2: Map<u32, Option<ItemView>>, slots: Set<u32>)
    requires
        slots.finite(),
        forall|s: u32| #[trigger] slots.contains(s) ==> m1[s] == m2[s],
    ensures
        items_in(m1, slots) == items_in(m2, slots),
    decreases slots.len(),
{
    if slots.len() == 0 {
        assert(slots =~= Set::<u32>::empty());
        vstd::set::fold::lemma_fold_empty(Multiset::<ItemView>::empty(), add_slot_items(m1));
        vstd::set::fold::lemma_fold_empty(Multiset::<ItemView>::empty(), add_slot_items(m2));
    } else {
        let s = slots.choose();
        lemma_items_in_remove(m1, slots, s);
        lemma_items_in_remove(m2, slots, s);
        lemma_items_in_agree(m1, m2, slots.remove(s));
    }
}

/// Overwriting the content of a slot takes its items out of the count and
/// puts the new content's in.
proof fn lemma_items_in_update(m: Map<u32, Option<ItemView>>, s: u32, v: Option<ItemView>)
    requires
        m.dom().finite(),
        m.contains_key(s),
    ensures
        items_in(m.insert(s, v), m.dom()).add(opt_items(m[s])) == items_in(m, m.dom()).add(opt_items(v)),
{
    broadcast use vstd::multiset::group_multiset_axioms;

    let t = m.insert(s, v);
    lemma_items_in_remove(t, m.dom(), s);
    lemma_items_in_remove(m, m.dom(), s);
    lemma_items_in_agree(t, m, m.dom().remove(s));
    let rest = items_in(m, m.dom().remove(s));
    assert(rest.add(opt_items(v)).add(opt_items(m[s])) =~= rest.add(opt_items(m[s])).add(opt_items(v)));
}

/// Adding a slot adds its content's items to the count.
proof fn lemma_items_in_new_slot(m: Map<u32, Option<ItemView>>, s: u32, v: Option<ItemView>)
    requires
        m.dom().finite(),
        !m.contains_key(s),
    ensures
        items_in(m.insert(s, v), m.dom().insert(s)) == items_in(m, m.dom()).add(opt_items(v)),
{
    let t = m.insert(s, v);
    lemma_add_slot_items_commutes(t);
    vstd::set::fold::lemma_fold_insert(m.dom(), Multiset::empty(), add_slot_items(t), s);
    lemma_items_in_agree(t, m, m.dom());
}

/// An item is counted exactly when one of the slots holds it.
proof fn lemma_items_in_member(m: Map<u32, Option<ItemView>>, slots: Set<u32>, x: ItemView)
    requires
        slots.finite(),
    ensures
        items_in(m, slots).count(x) > 0 <==> exists|s: u32| #[trigger] slots.contains(s) && m[s] == Some(x),
    decreases slots.len(),
{
    broadcast use vstd::multiset::group_multiset_axioms;

    if slots.len() == 0 {
        assert(slots =~= Set::<u32>::empty());
        vstd::set::fold::lemma_fold_empty(Multiset::<ItemView>::empty(), add_slot_items(m));
    } else {
        let a = slots.choose();
        lemma_items_in_remove(m, slots, a);
        lemma_items_in_member(m, slots.remove(a), x);
        if exists|s: u32| #[trigger] slots.contains(s) && m[s] == Some(x) {
            let s = choose|s: u32| #[trigger] slots.contains(s) && m[s] == Some(x);
            if s != a {
                assert(slots.remove(a).contains(s));
            }
        }
        if exists|s: u32| #[trigger] slots.remove(a).contains(s) && m[s] == Some(x) {
            let s = choose|s: u32| #[trigger] slots.remove(a).contains(s) && m[s] == Some(x);
            assert(slots.contains(s));
        }
    }
}

/// A player's inventory: numbered slots, each empty or holding one item.
#[derive(Debug)]
pub struct PlayerInventory {
    slots: HashMap<u32, Option<Item>>,
}

impl View for PlayerInventory {
    type V = Map<u32, Option<ItemView>>;

    closed spec fn view(&self) -> Map<u32, Option<ItemView>> {
        slot_views(self.slots@)
    }
}

impl PlayerInventory {
    /// The inventory has finitely many slots.
    pub closed spec fn wf(&self) -> bool {
        self@.dom().finite()
    }

    /// All items in the inventory, counted with multiplicity.
    pub closed spec fn contents(&self) -> Multiset<ItemView> {
        items_in(self@, self@.dom())
    }

    proof fn lemma_view_dom(&self)
        ensures
            self@.dom() == self.slots@.dom(),
            self@.dom().finite(),
    {
        broadcast use vstd::std_specs::hash::group_hash_axioms;

        assert(self@.dom() =~= self.slots@.dom());
    }

    /// An item is among the contents exactly when some slot holds it.
    pub proof fn lemma_contents_are_slot_items(&self, x: ItemView)
        requires
            self.wf(),
        ensures
            self.contents().count(x) > 0 <==> exists|s: u32| #[trigger] self@.contains_key(s) && self@[s] == Some(x),
    {
        lemma_items_in_member(self@, self@.dom(), x);
        if exists|s: u32| #[trigger] self@.dom().contains(s) && self@[s] == Some(x) {
            let s = choose|s: u32| #[trigger] self@.dom().contains(s) && self@[s] == Some(x);
            assert(self@.contains_key(s));
        }
    }

    /// An inventory whose slots `0 .. num_slots` are all empty.
    pub fn new(num_slots: u32) -> (r: PlayerInventory)
        ensures
            r.wf(),
            r@ == Map::new(|s: u32| s < num_slots, |s: u32| None::<ItemView>),
            r.contents() == Multiset::<ItemView>::empty(),
    {
        broadcast use vstd::std_specs::hash::group_hash_axioms;

        let mut slots: HashMap<u32, Option<Item>> = HashMap::new();
        let mut i: u32 = 0;
        proof {
            assert(slot_views(slots@) =~= Map::new(|s: u32| s < i, |s: u32| None::<ItemView>));
            assert(slot_views(slots@).dom() =~= Set::<u32>::empty());
            vstd::set::fold::lemma_fold_empty(Multiset::<ItemView>::empty(), add_slot_items(slot_views(slots@)));
        }
        while i < num_slots
            invariant
                i <= num_slots,
                slot_views(slots@) == Map::new(|s: u32| s < i, |s: u32| None::<ItemView>),
                slot_views(slots@).dom().finite(),
                items_in(slot_views(slots@), slot_views(slots@).dom()) == Multiset::<ItemView>::empty(),
            decreases num_slots - i,
        {
            let ghost before = slot_views(slots@);
            slots.insert(i, None);
            proof {
                assert(slot_views(slots@) =~= before.insert(i, None));
                assert(slot_views(slots@).dom() =~= before.dom().insert(i));
                lemma_items_in_new_slot(before, i, None);
                assert(opt_items(None) =~= Multiset::<ItemView>::empty());
                assert(Multiset::<ItemView>::empty().add(Multiset::<ItemView>::empty()) =~= Multiset::<ItemView>::empty());
                assert(slot_views(slots@) =~= Map::new(|s: u32| s < i + 1, |s: u32| None::<ItemView>));
            }
            i = i + 1;
        }
        PlayerInventory { slots }
    }

    /// Stores `value` in slot `slot` and returns what the slot held before;
    /// an unknown slot is left as it is, and `value` is dropped.
    fn put(&mut self, slot: u32, value: Option<Item>) -> (r: Option<Item>)
        requires
            old(self).wf(),
        ensures
            final(self).wf(),
            final(self)@ == if old(self)@.contains_key(slot) {
                old(self)@.insert(slot, opt_item_view(value))
            } else {
                old(self)@
            },
            opt_item_view(r) == slot_or_none(old(self)@, slot),
            old(self)@.contains_key(slot) ==> final(self).contents().add(opt_items(opt_item_view(r))) == old(
                self,
            ).contents().add(opt_items(opt_item_view(value))),
            !old(self)@.contains_key(slot) ==> final(self).contents() == old(self).contents(),
    {
        broadcast use vstd::std_specs::hash::group_hash_axioms;

        let ghost before = self@;
        let ghost v = opt_item_view(value);
        proof {
            self.lemma_view_dom();
        }
        if self.slots.contains_key(&slot) {
            let previous = self.slots.insert(slot, value);
            proof {
                assert(self@ =~= before.insert(slot, v));
                assert(self@.dom() =~= before.dom());
                lemma_items_in_update(before, slot, v);
            }
            match previous {
                Some(p) => p,
                None => None,
            }
        } else {
            None
        }
    }
    /// The item in slot `slot`, if the slot exists and holds one.
    pub fn get_item(&self, slot: u32) -> (r: Option<&Item>)
        requires
            self.wf(),
        ensures
            match r {
                Some(x) => slot_or_none(self@, slot) == Some(x@),
                None => slot_or_none(self@, slot) is None,
            },
    {
        broadcast use vstd::std_specs::hash::group_hash_axioms;

        match self.slots.get(&slot) {
            Some(content) => match content {
                Some(item) => Some(item),
                None => None,
            },
            None => None,
        }
    }

    /// Puts `item` into slot `slot`, replacing what was there. The number
    /// of slots is fixed: for a slot the inventory does not have, nothing
    /// changes and the item is dropped.
    pub fn add_item(&mut self, slot: u32, item: Item)
        requires
            old(self).wf(),
        ensures
            final(self).wf(),
            final(self)@.dom() == old(self)@.dom(),
            old(self)@.contains_key(slot) ==> final(self)@ == old(self)@.insert(slot, Some(item@)),
            old(self)@.contains_key(slot) ==> final(self).contents().add(opt_items(old(self)@[slot]))
                == old(self).contents().insert(item@),
            !old(self)@.contains_key(slot) ==> final(self)@ == old(self)@ && final(self).contents() == old(
                self,
            ).contents(),
    {
        broadcast use vstd::multiset::group_multiset_axioms;

        let ghost iv = item@;
        let _ = self.put(slot, Some(item));
        proof {
            assert(opt_items(Some(iv)) =~= Multiset::singleton(iv));
            assert(final(self)@.dom() =~= old(self)@.dom());
        }
    }

    /// Empties slot `slot` and returns the item it held. The number of slots
    /// is fixed: for a slot the inventory does not have, nothing changes and
    /// `None` is returned.
    pub fn remove_item(&mut self, slot: u32) -> (r: Option<Item>)
        requires
            old(self).wf(),
        ensures
            final(self).wf(),
            final(self)@.dom() == old(self)@.dom(),
            old(self)@.contains_key(slot) ==> final(self)@ == old(self)@.insert(slot, None),
            !old(self)@.contains_key(slot) ==> final(self)@ == old(self)@,
            opt_item_view(r) == slot_or_none(old(self)@, slot),
            final(self).contents().add(opt_items(opt_item_view(r))) == old(self).contents(),
    {
        broadcast use vstd::multiset::group_multiset_axioms;

        let r = self.put(slot, None);
        proof {
            assert(old(self).contents().add(opt_items(None)) =~= old(self).contents());
            assert(final(self)@.dom() =~= old(self)@.dom());
        }
        r
    }

    /// Empties slot `slot`; a slot the inventory does not have is left as it
    /// is.
    pub fn empty_slot(&mut self, slot: u32)
        requires
            old(self).wf(),
        ensures
            final(self).wf(),
            final(self)@.dom() == old(self)@.dom(),
            old(self)@.contains_key(slot) ==> final(self)@ == old(self)@.insert(slot, None),
            !old(self)@.contains_key(slot) ==> final(self)@ == old(self)@,
            final(self).contents().add(opt_items(slot_or_none(old(self)@, slot))) == old(self).contents(),
    {
        let _ = self.remove_item(slot);
    }

    /// Some slot of the inventory is empty.
    pub open spec fn has_empty_slot(&self) -> bool {
        exists|s: u32| #[trigger] self@.contains_key(s) && self@[s] is None
    }

    /// Puts `item` into an empty slot; when every slot is full, hands the
    /// item back and changes nothing.
    pub(crate) fn fill_empty_slot(&mut self, item: Item) -> (r: Result<(), Item>)
        requires
            old(self).wf(),
        ensures
            final(self).wf(),
            r is Ok <==> old(self).has_empty_slot(),
            r is Ok ==> exists|s: u32|
                #[trigger] old(self)@.contains_key(s) && old(self)@[s] is None && final(self)@ == old(self)@.insert(
                    s,
                    Some(item@),
                ),
            r is Ok ==> final(self).contents() == old(self).contents().insert(item@),
            r matches Err(back) ==> back@ == item@ && final(self)@ == old(self)@ && final(self).contents()
                == old(self).contents(),
    {
        broadcast use vstd::std_specs::hash::group_hash_axioms;

        let mut found: Option<u32> = None;
        for (k, v) in it: self.slots.iter()
            invariant
                found matches Some(k) ==> self.slots@.contains_key(k) && self.slots@[k] is None,
                found is None ==> forall|j: int| 0 <= j < it.index() ==> (#[trigger] it.seq()[j]).1 is Some,
        {
            if found.is_none() && v.is_none() {
                found = Some(*k);
            }
        }
        match found {
            Some(k) => {
                let ghost iv = item@;
                proof {
                    assert(self@.contains_key(k) && self@[k] is None);
                }
                let _ = self.put(k, Some(item));
                proof {
                    broadcast use vstd::multiset::group_multiset_axioms;

                    assert(opt_items(None) =~= Multiset::<ItemView>::empty());
                    assert(opt_items(Some(iv)) =~= Multiset::singleton(iv));
                    assert(old(self).contents().add(Multiset::singleton(iv)) =~= old(self).contents().insert(iv));
                    assert(self.contents().add(Multiset::<ItemView>::empty()) =~= self.contents());
                }
                Ok(())
            },
            None => {
                proof {
                    assert forall|s: u32| #[trigger] self@.contains_key(s) implies self@[s] is Some by {
                        assert(self.slots@.contains_key(s));
                    }
                }
                Err(item)
            },
        }
    }

    /// Takes out an item named `name`; when none is held, changes nothing.
    pub(crate) fn take_named(&mut self, name: &String) -> (r: Option<Item>)
        requires
            old(self).wf(),
        ensures
            final(self).wf(),
            r matches Some(it) ==> it@.name == name@ && (exists|s: u32|
                #[trigger] old(self)@.contains_key(s) && old(self)@[s] == Some(it@) && final(self)@ == old(
                    self,
                )@.insert(s, None)) && final(self).contents().insert(it@) == old(self).contents(),
            r is None ==> final(self)@ == old(self)@ && final(self).contents() == old(self).contents() && (forall|
                s: u32,
            |
                #[trigger] old(self)@.contains_key(s) && old(self)@[s] is Some ==> old(self)@[s]->0.name != name@),
    {
        broadcast use vstd::std_specs::hash::group_hash_axioms;

        let mut found: Option<u32> = None;
        for (k, v) in it: self.slots.iter()
            invariant
                found matches Some(k) ==> (self.slots@.contains_key(k) && (self.slots@[k] matches Some(x) && x.name@
                    == name@)),
                found is None ==> forall|j: int|
                    0 <= j < it.index() ==> ((#[trigger] it.seq()[j]).1 matches Some(x) ==> x.name@ != name@),
        {
            if found.is_none() {
                match v {
                    Some(x) => {
                        if x.name == *name {
                            found = Some(*k);
                        }
                    },
                    None => {},
                }
            }
        }
        match found {
            Some(k) => {
                let ghost before = self@;
                let taken = self.put(k, None);
                proof {
                    broadcast use vstd::multiset::group_multiset_axioms;

                    let it = before[k]->0;
                    assert(opt_items(None) =~= Multiset::<ItemView>::empty());
                    assert(opt_items(Some(it)) =~= Multiset::singleton(it));
                    assert(self.contents().add(Multiset::singleton(it)) =~= self.contents().insert(it));
                    assert(old(self).contents().add(Multiset::<ItemView>::empty()) =~= old(self).contents());
                    assert(old(self)@.contains_key(k) && old(self)@[k] == Some(it));
                }
                taken
            },
            None => {
                proof {
                    assert forall|s: u32|
                        #[trigger] old(self)@.contains_key(s) && old(self)@[s] is Some implies old(self)@[s]->0.name
                        != name@ by {
                        assert(self.slots@.contains_key(s));
                    }
                }
                None
            },
        }
    }

    /// Copies of all items held, in no particular order.
    pub(crate) fn item_copies(&self) -> (r: Vec<Item>)
        ensures
            item_views(r@).to_multiset() == self.contents(),
    {
        broadcast use vstd::std_specs::hash::group_hash_axioms;
        broadcast use vstd::multiset::group_multiset_axioms;
        broadcast use vstd::seq_lib::group_to_multiset_ensures;

        proof {
            self.lemma_view_dom();
        }
        let ghost m = self@;
        let mut out: Vec<Item> = Vec::new();
        let ghost mut seen: Set<u32> = Set::empty();
        proof {
            assert(item_views(out@).to_multiset() =~= Multiset::<ItemView>::empty());
            vstd::set::fold::lemma_fold_empty(Multiset::<ItemView>::empty(), add_slot_items(m));
        }
        for (k, v) in it: self.slots.iter()
            invariant
                m == self@,
                m.dom() == self.slots@.dom(),
                m.dom().finite(),
                it.seq().no_duplicates(),
                forall|j: int| 0 <= j < it.seq().len() ==> #[trigger] self.slots@.contains_key(*it.seq()[j].0) && self.slots@[*it.seq()[j].0] == *it.seq()[j].1,
                forall|s: u32| #[trigger] self.slots@.contains_key(s) ==> it.seq().contains((&s, &self.slots@[s])),
                seen.finite(),
                forall|s: u32| #[trigger] seen.contains(s) ==> m.dom().contains(s),
                forall|s: u32|
                    #[trigger] m.dom().contains(s) ==> (seen.contains(s) || exists|j: int|
                        it.index() <= j < it.seq().len() && *it.seq()[j].0 == s),
                forall|s: u32| #[trigger] seen.contains(s) <==> exists|j: int| 0 <= j < it.index() && *it.seq()[j].0 == s,
                item_views(out@).to_multiset() == items_in(m, seen),
        {
            let ghost i = it.index();
            let ghost before = out@;
            proof {
                if seen.contains(*k) {
                    let j = choose|j: int| 0 <= j < i && *it.seq()[j].0 == *k;
                    assert(it.seq()[j] == it.seq()[i]);
                }
                lemma_add_slot_items_commutes(m);
                vstd::set::fold::lemma_fold_insert(seen, Multiset::empty(), add_slot_items(m), *k);
            }
            match v {
                Some(item) => {
                    let copy = item.duplicate();
                    let ghost cv = copy@;
                    out.push(copy);
                    proof {
                        assert(item_views(out@) =~= item_views(before).push(cv));
                        vstd::seq_lib::to_multiset_build(item_views(before), cv);
                        assert(opt_items(m[*k]) =~= Multiset::singleton(cv));
                    }
                },
                None => {
                    proof {
                        assert(opt_items(m[*k]) =~= Multiset::<ItemView>::empty());
                        assert(item_views(out@) =~= item_views(before));
                    }
                },
            }
            proof {
                let new_seen = seen.insert(*k);
                assert forall|s: u32| #[trigger] new_seen.contains(s) <==> exists|j: int| 0 <= j < i + 1 && *it.seq()[j].0 == s by {
                    if s == *k {
                        assert(*it.seq()[i].0 == s);
                    }
                }
                assert forall|s: u32|
                    #[trigger] m.dom().contains(s) implies (new_seen.contains(s) || exists|j: int|
                        i + 1 <= j < it.seq().len() && *it.seq()[j].0 == s) by {
                    if !seen.contains(s) {
                        let j = choose|j: int| i <= j < it.seq().len() && *it.seq()[j].0 == s;
                        if j == i {
                            assert(new_seen.contains(s));
                        }
                    }
                }
                assert(self.slots@.contains_key(*it.seq()[i].0));
                seen = new_seen;
            }
        }
        proof {
            assert(seen =~= m.dom());
        }
        out
    }
}

} // verus!

verus! {

/// A storage container of the game world: an identifier and an inventory.
#[derive(Debug)]
pub struct StorageContainer {
    /// The container's UUID, as its 128-bit value.
    pub uuid: u128,
    pub inventory: PlayerInventory,
}

impl StorageContainer {
    /// A container with a fresh random (version 4) identifier and
    /// `num_slots` empty slots.
    pub fn new(num_slots: u32) -> (r: StorageContainer)
        ensures
            r.inventory.wf(),
            r.inventory@ == Map::new(|s: u32| s < num_slots, |s: u32| None::<ItemView>),
            r.inventory.contents() == Multiset::<ItemView>::empty(),
            (r.uuid >> 76u128) & 0xfu128 == 4,
            (r.uuid >> 62u128) & 0x3u128 == 2,
    {
        StorageContainer { uuid: crate::ids::new_v4_value(), inventory: PlayerInventory::new(num_slots) }
    }
}

} // verus!
