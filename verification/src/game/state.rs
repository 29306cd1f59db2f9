//! The collection that owns the entities, and one frame's pass over it.
use crate::game::engine::{DrawRect, Entity, GameInfo};
use vstd::prelude::*;

verus! {

/// An owned entity with the mark that defers its deletion.
pub struct EntityWrapper<E> {
    pub inner: E,
    /// Set when the entity asked to be removed during the last update.
    pub delete_next: bool,
}

impl<E: Entity> EntityWrapper<E> {
    /// Wraps `entity`, unmarked.
    pub fn new(entity: E) -> (r: Self)
        ensures
            r == fresh(entity),
    {
        Self { inner: entity, delete_next: false }
    }
}

/// The wrapper of an entity that has just been added.
pub open spec fn fresh<E>(entity: E) -> EntityWrapper<E> {
    EntityWrapper { inner: entity, delete_next: false }
}

/// A wrapper after one tick of its entity: advanced, and marked exactly when
/// the entity asked to be removed.
pub open spec fn stepped<E: Entity>(w: EntityWrapper<E>, info: &GameInfo) -> EntityWrapper<E> {
    EntityWrapper { inner: w.inner.advanced(info), delete_next: w.inner.leaves(info) }
}

/// The collection `s` after every entity in it has advanced by one tick.
pub open spec fn after_update<E: Entity>(s: Seq<EntityWrapper<E>>, info: &GameInfo) -> Seq<
    EntityWrapper<E>,
> {
    s.map_values(|w: EntityWrapper<E>| stepped(w, info))
}

/// The shapes of the unmarked entities of `s`, in the order of `s`.
pub open spec fn drawn<E: Entity>(s: Seq<EntityWrapper<E>>, info: &GameInfo) -> Seq<DrawRect>
    decreases s.len(),
{
    if s.len() == 0 {
        Seq::empty()
    } else if s.last().delete_next {
        drawn(s.drop_last(), info)
    } else {
        drawn(s.drop_last(), info).push(s.last().inner.shape(info))
    }
}

/// The unmarked entities of `s`, in the order of `s`.
pub open spec fn survivors<E>(s: Seq<EntityWrapper<E>>) -> Seq<EntityWrapper<E>> {
    s.filter(|w: EntityWrapper<E>| !w.delete_next)
}

/// The entities of the simulation, in insertion order. The collection alone
/// owns them.
pub struct GameState<E> {
    pub entities: Vec<EntityWrapper<E>>,
}

impl<E: Entity> GameState<E> {
    /// A state without entities.
    pub fn new() -> (r: Self)
        ensures
            r.entities@ == Seq::<EntityWrapper<E>>::empty(),
    {
        Self { entities: Vec::new() }
    }

    /// Appends `entity`, unmarked, behind the entities already owned.
    pub fn add_entity(&mut self, entity: E)
        ensures
            final(self).entities@ == old(self).entities@.push(fresh(entity)),
    {
        self.entities.push(EntityWrapper::new(entity));
    }

    /// Appends one batch of two new entities, unmarked, `first` before
    /// `second`.
    pub fn spawn_batch(&mut self, first: E, second: E)
        ensures
            final(self).entities@ == old(self).entities@.push(fresh(first)).push(fresh(second)),
    {
        self.add_entity(first);
        self.add_entity(second);
    }

    /// Advances every entity by one tick, in collection order. An entity that
    /// asks to be removed is marked and not drawn; every other one is unmarked
    /// and drawn in its new state. Returns the rectangles to draw, in
    /// collection order. The collection keeps all its entities.
    pub fn update_entities(&mut self, info: &GameInfo) -> (draws: Vec<DrawRect>)
        ensures
            final(self).entities@ == after_update(old(self).entities@, info),
            draws@ == drawn(final(self).entities@, info),
    {
        let mut draws: Vec<DrawRect> = Vec::new();
        let n: usize = self.entities.len();
        let mut i: usize = 0;
        while i < n
            invariant
                0 <= i <= n,
                self.entities@.len() == n,
                old(self).entities@.len() == n,
                forall|k: int| 0 <= k < i ==> self.entities@[k] == stepped(old(self).entities@[k], info),
                forall|k: int| i <= k < n ==> self.entities@[k] == old(self).entities@[k],
                draws@ == drawn(self.entities@.subrange(0, i as int), info),
            decreases n - i,
        {
            let ghost before = self.entities@;
            let slot = &mut self.entities[i];
            let response = slot.inner.update(info);
            if response.should_delete {
                slot.delete_next = true;
            } else {
                draws.push(slot.inner.render(info));
                slot.delete_next = false;
            }
            proof {
                assert(self.entities@.subrange(0, i as int + 1).drop_last()
                    =~= before.subrange(0, i as int));
            }
            i += 1;
        }
        proof {
            assert(self.entities@.subrange(0, n as int) =~= self.entities@);
            assert(self.entities@ =~= after_update(old(self).entities@, info));
        }
        draws
    }

    /// Drops every marked entity. The others stay, in their order.
    pub fn remove_marked(&mut self)
        ensures
            final(self).entities@ == survivors(old(self).entities@),
    {
        let ghost keep = |w: EntityWrapper<E>| !w.delete_next;
        let mut i: usize = 0;
        let ghost mut j: int = 0;
        proof {
            reveal(Seq::filter);
            assert(old(self).entities@.subrange(0, 0).filter(keep) =~= self.entities@.subrange(0, 0));
        }
        while i < self.entities.len()
            invariant
                0 <= i <= self.entities@.len(),
                0 <= j <= old(self).entities@.len(),
                self.entities@.len() - i == old(self).entities@.len() - j,
                self.entities@.subrange(0, i as int) == old(self).entities@.subrange(0, j).filter(keep),
                self.entities@.subrange(i as int, self.entities@.len() as int)
                    == old(self).entities@.subrange(j, old(self).entities@.len() as int),
                keep == |w: EntityWrapper<E>| !w.delete_next,
            decreases self.entities@.len() - i,
        {
            let ghost before = self.entities@;
            let ghost head = old(self).entities@.subrange(0, j + 1);
            proof {
                reveal(Seq::filter);
                assert(head.drop_last() =~= old(self).entities@.subrange(0, j));
                assert(before[i as int] == before.subrange(i as int, before.len() as int)[0]);
                assert(head.last() == before[i as int]);
            }
            if self.entities[i].delete_next {
                self.entities.remove(i);
                proof {
                    assert(self.entities@.subrange(0, i as int) =~= before.subrange(0, i as int));
                    assert(self.entities@.subrange(i as int, self.entities@.len() as int)
                        =~= before.subrange(i as int, before.len() as int).drop_first());
                    assert(old(self).entities@.subrange(j + 1, old(self).entities@.len() as int)
                        =~= old(self).entities@.subrange(j, old(self).entities@.len() as int).drop_first());
                }
            } else {
                proof {
                    assert(before.subrange(0, i as int + 1) =~= before.subrange(0, i as int).push(
                        before[i as int],
                    ));
                    assert(before.subrange(i as int + 1, before.len() as int)
                        =~= before.subrange(i as int, before.len() as int).drop_first());
                    assert(old(self).entities@.subrange(j + 1, old(self).entities@.len() as int)
                        =~= old(self).entities@.subrange(j, old(self).entities@.len() as int).drop_first());
                }
                i += 1;
            }
            proof {
                j = j + 1;
            }
        }
        proof {
            assert(self.entities@.subrange(0, i as int) =~= self.entities@);
            assert(old(self).entities@.subrange(0, j) =~= old(self).entities@);
        }
    }
}

} // verus!
