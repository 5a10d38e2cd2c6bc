//! Trigger spheres: whether the player is inside, and what a new position
//! changes about it.
//!
//! The geometry (centres, radii, distances) is measured in floating point by
//! the caller; this module keeps what follows from it: which spheres exist,
//! under which identifiers, and which of them hold the player.

use vstd::prelude::*;
use std::collections::HashMap;

verus! {

/// A crossing of a sphere's surface by the player.
#[derive(Debug, Clone, Copy, PartialEq, Eq, Structural)]
pub enum Crossing {
    Entered,
    Exited,
}

/// Whether the player is inside a sphere.
#[derive(Debug, Clone, Copy, PartialEq, Eq, Structural)]
pub struct Occupancy {
    pub contains_player: bool,
}

impl Occupancy {
    /// A sphere that does not hold the player.
    pub fn new() -> (r: Occupancy)
        ensures
            !r.contains_player,
    {
        Occupancy { contains_player: false }
    }

    /// Records whether the player's new position is inside; returns the
    /// crossing when that differs from before: `Entered` when the player
    /// came in, `Exited` when the player left.
    pub fn check_position(&mut self, is_inside: bool) -> (r: Option<Crossing>)
        ensures
            final(self).contains_player == is_inside,
            r is Some <==> is_inside != old(self).contains_player,
            r == Some(Crossing::Entered) <==> is_inside && !old(self).contains_player,
            r == Some(Crossing::Exited) <==> !is_inside && old(self).contains_player,
    {
        let state_changed = is_inside != self.contains_player;
        if state_changed {
            self.contains_player = is_inside;
            if is_inside {
                Some(Crossing::Entered)
            } else {
                Some(Crossing::Exited)
            }
        } else {
            None
        }
    }
}

/// Hands out the next sphere identifier and advances the counter.
pub fn allocate_id(next_id: &mut usize) -> (r: usize)
    requires
        *old(next_id) < usize::MAX,
    ensures
        r == *old(next_id),
        *final(next_id) == *old(next_id) + 1,
{
    let id = *next_id;
    *next_id = *next_id + 1;
    id
}

/// The spheres after a sphere is added under `id`, not holding the player.
pub open spec fn spheres_after_add(m: Map<usize, Occupancy>, id: usize) -> Map<usize, Occupancy> {
    m.insert(id, Occupancy { contains_player: false })
}

/// The spheres after `update_sphere(id, is_inside)`.
pub open spec fn spheres_after_update(m: Map<usize, Occupancy>, id: usize, is_inside: bool) -> Map<usize, Occupancy> {
    if m.contains_key(id) {
        m.insert(id, Occupancy { contains_player: is_inside })
    } else {
        m
    }
}

/// The crossing that `update_sphere(id, is_inside)` reports.
pub open spec fn crossing_of(m: Map<usize, Occupancy>, id: usize, is_inside: bool) -> Option<Crossing> {
    if m.contains_key(id) && is_inside != m[id].contains_player {
        if is_inside {
            Some(Crossing::Entered)
        } else {
            Some(Crossing::Exited)
        }
    } else {
        None
    }
}

/// The spheres of a world, by identifier, with whether each holds the
/// player. Identifiers are handed out in increasing order and never reused.
#[derive(Debug)]
pub struct SphereRegistry {
    spheres: HashMap<usize, Occupancy>,
    next_id: usize,
}

impl SphereRegistry {
    /// The spheres, by identifier.
    pub closed spec fn spheres(&self) -> Map<usize, Occupancy> {
        self.spheres@
    }

    /// The identifier the next sphere gets.
    pub closed spec fn next_id(&self) -> nat {
        self.next_id as nat
    }

    /// Every sphere's identifier was handed out before the next one.
    pub open spec fn wf(&self) -> bool {
        forall|id: usize| #[trigger] self.spheres().contains_key(id) ==> id < self.next_id()
    }

    /// A world without spheres; the first identifier is 0.
    pub fn new() -> (r: SphereRegistry)
        ensures
            r.wf(),
            r.spheres() == Map::<usize, Occupancy>::empty(),
            r.next_id() == 0,
    {
        SphereRegistry { spheres: HashMap::new(), next_id: 0 }
    }

    /// Adds a sphere that does not hold the player, under the next
    /// identifier, which is returned.
    pub fn add_sphere(&mut self) -> (r: usize)
        requires
            old(self).next_id() < usize::MAX,
        ensures
            r == old(self).next_id(),
            final(self).next_id() == old(self).next_id() + 1,
            final(self).spheres() == spheres_after_add(old(self).spheres(), r),
            old(self).wf() ==> final(self).wf() && !old(self).spheres().contains_key(r),
    {
        broadcast use vstd::std_specs::hash::group_hash_axioms;
        let ghost old_self = *self;
        let id = allocate_id(&mut self.next_id);
        self.spheres.insert(id, Occupancy::new());
        proof {
            if old_self.wf() {
                assert(!old_self.spheres().contains_key(id));
                assert forall|k: usize| #[trigger] self.spheres().contains_key(k) implies k < self.next_id() by {
                    if k != id {
                        assert(old_self.spheres().contains_key(k));
                    }
                }
            }
        }
        id
    }

    /// Adds `count` spheres that do not hold the player, under the next
    /// identifiers in order; returns those identifiers.
    pub fn bulk_add_spheres(&mut self, count: usize) -> (r: Vec<usize>)
        requires
            old(self).next_id() + count <= usize::MAX,
        ensures
            r@.len() == count,
            forall|k: int| 0 <= k < count ==> #[trigger] r@[k] == old(self).next_id() + k,
            final(self).next_id() == old(self).next_id() + count,
            forall|id: usize|
                #[trigger] final(self).spheres().contains_key(id) <==> (old(self).spheres().contains_key(id)
                    || (old(self).next_id() <= id < old(self).next_id() + count)),
            forall|id: usize|
                #[trigger] final(self).spheres().contains_key(id) ==> final(self).spheres()[id] == if old(
                    self,
                ).next_id() <= id < old(self).next_id() + count {
                    Occupancy { contains_player: false }
                } else {
                    old(self).spheres()[id]
                },
            old(self).wf() ==> final(self).wf(),
    {
        let ghost old_self = *self;
        let ghost s0 = self.spheres@;
        let ghost n0 = self.next_id;
        let mut ids: Vec<usize> = Vec::new();
        let mut k: usize = 0;
        while k < count
            invariant
                k <= count,
                n0 + count <= usize::MAX,
                self.next_id == n0 + k,
                ids@.len() == k,
                forall|j: int| 0 <= j < k ==> #[trigger] ids@[j] == n0 + j,
                forall|id: usize|
                    #[trigger] self.spheres@.contains_key(id) <==> (s0.contains_key(id) || (n0 <= id < n0 + k)),
                forall|id: usize|
                    #[trigger] self.spheres@.contains_key(id) ==> self.spheres@[id] == if n0 <= id < n0 + k {
                        Occupancy { contains_player: false }
                    } else {
                        s0[id]
                    },
            decreases count - k,
        {
            let id = self.add_sphere();
            ids.push(id);
            k = k + 1;
        }
        proof {
            if old_self.wf() {
                assert forall|id: usize| #[trigger] self.spheres().contains_key(id) implies id < self.next_id() by {
                    if s0.contains_key(id) {
                        assert(old_self.spheres().contains_key(id));
                    }
                }
            }
        }
        ids
    }

    /// Removes the sphere `id`; returns whether there was one.
    pub fn remove_sphere(&mut self, id: usize) -> (r: bool)
        ensures
            r == old(self).spheres().contains_key(id),
            final(self).spheres() == old(self).spheres().remove(id),
            final(self).next_id() == old(self).next_id(),
            old(self).wf() ==> final(self).wf(),
    {
        broadcast use vstd::std_specs::hash::group_hash_axioms;
        self.spheres.remove(&id).is_some()
    }

    /// Records whether the player is now inside the sphere `id`, and returns
    /// the crossing, as [`Occupancy::check_position`] does; `None`, with
    /// nothing changed, when there is no such sphere.
    pub fn update_sphere(&mut self, id: usize, is_inside: bool) -> (r: Option<Crossing>)
        ensures
            final(self).next_id() == old(self).next_id(),
            !old(self).spheres().contains_key(id) ==> r is None && final(self).spheres() == old(self).spheres(),
            old(self).spheres().contains_key(id) ==> {
                let was = old(self).spheres()[id].contains_player;
                &&& final(self).spheres() == old(self).spheres().insert(id, Occupancy { contains_player: is_inside })
                &&& (r is Some <==> is_inside != was)
                &&& (r == Some(Crossing::Entered) <==> is_inside && !was)
                &&& (r == Some(Crossing::Exited) <==> !is_inside && was)
            },
            final(self).spheres() == spheres_after_update(old(self).spheres(), id, is_inside),
            r == crossing_of(old(self).spheres(), id, is_inside),
            old(self).wf() ==> final(self).wf(),
    {
        broadcast use vstd::std_specs::hash::group_hash_axioms;
        match self.spheres.get(&id) {
            Some(occupancy) => {
                let mut occupancy = *occupancy;
                let crossing = occupancy.check_position(is_inside);
                self.spheres.insert(id, occupancy);
                crossing
            },
            None => None,
        }
    }

    /// The identifier the next sphere gets.
    pub fn next_identifier(&self) -> (r: usize)
        ensures
            r == self.next_id(),
    {
        self.next_id
    }

    /// The number of spheres.
    pub fn sphere_count(&self) -> (r: usize)
        ensures
            r == self.spheres().len(),
    {
        broadcast use vstd::std_specs::hash::group_hash_axioms;
        self.spheres.len()
    }
}

} // verus!
