//! What holds of the collection over one frame and over many spawns.
use crate::game::engine::{Entity, GameInfo};
use crate::game::state::{after_update, drawn, fresh, stepped, survivors, EntityWrapper};
use vstd::prelude::*;

verus! {

/// The collection `s` after the batches of `batches` were spawned into it,
/// one after the other.
pub open spec fn after_spawns<E>(s: Seq<EntityWrapper<E>>, batches: Seq<(E, E)>) -> Seq<
    EntityWrapper<E>,
>
    decreases batches.len(),
{
    if batches.len() == 0 {
        s
    } else {
        after_spawns(s, batches.drop_last()).push(fresh(batches.last().0)).push(
            fresh(batches.last().1),
        )
    }
}

/// What is drawn in a frame is the shapes of exactly the entities that are
/// not marked for removal, in collection order: a marked entity is never
/// drawn.
pub proof fn lemma_drawn_are_survivors<E: Entity>(s: Seq<EntityWrapper<E>>, info: &GameInfo)
    ensures
        drawn(s, info) == survivors(s).map_values(|w: EntityWrapper<E>| w.inner.shape(info)),
    decreases s.len(),
{
    reveal(Seq::filter);
    let shape = |w: EntityWrapper<E>| w.inner.shape(info);
    if s.len() > 0 {
        lemma_drawn_are_survivors(s.drop_last(), info);
    }
    assert(drawn(s, info) =~= survivors(s).map_values(shape));
}

/// Where every entity asks to be removed during a frame, nothing is drawn in
/// it and nothing is left after it.
pub proof fn lemma_all_leave<E: Entity>(s: Seq<EntityWrapper<E>>, info: &GameInfo)
    requires
        forall|i: int| 0 <= i < s.len() ==> (#[trigger] s[i]).inner.leaves(info),
    ensures
        drawn(after_update(s, info), info).len() == 0,
        survivors(after_update(s, info)).len() == 0,
    decreases s.len(),
{
    reveal(Seq::filter);
    let t = after_update(s, info);
    if s.len() > 0 {
        lemma_all_leave(s.drop_last(), info);
        assert(t.drop_last() =~= after_update(s.drop_last(), info));
        assert(t.last() == stepped(s.last(), info));
    }
}

/// Spawning batches adds two entities for each batch, all of them unmarked:
/// the collection grows by twice the number of batches, and a removal pass
/// afterwards takes none of the new entities.
pub proof fn lemma_spawn_cycles<E>(s: Seq<EntityWrapper<E>>, batches: Seq<(E, E)>)
    ensures
        after_spawns(s, batches).len() == s.len() + 2 * batches.len(),
        survivors(after_spawns(s, batches)).len() == survivors(s).len() + 2 * batches.len(),
    decreases batches.len(),
{
    if batches.len() > 0 {
        let earlier = after_spawns(s, batches.drop_last());
        lemma_spawn_cycles(s, batches.drop_last());
        lemma_survivors_push_fresh(earlier, batches.last().0);
        lemma_survivors_push_fresh(earlier.push(fresh(batches.last().0)), batches.last().1);
    }
}

/// Starting without entities, the collection holds twice as many entities
/// as batches were spawned, before and after a removal pass.
pub proof fn lemma_spawn_cycles_from_empty<E>(batches: Seq<(E, E)>)
    ensures
        after_spawns(Seq::<EntityWrapper<E>>::empty(), batches).len() == 2 * batches.len(),
        survivors(after_spawns(Seq::<EntityWrapper<E>>::empty(), batches)).len() == 2
            * batches.len(),
{
    reveal(Seq::filter);
    lemma_spawn_cycles(Seq::<EntityWrapper<E>>::empty(), batches);
    assert(survivors(Seq::<EntityWrapper<E>>::empty()).len() == 0);
}

/// A new entity survives the removal of the marked ones.
pub proof fn lemma_survivors_push_fresh<E>(s: Seq<EntityWrapper<E>>, entity: E)
    ensures
        survivors(s.push(fresh(entity))) == survivors(s).push(fresh(entity)),
{
    reveal(Seq::filter);
    assert(s.push(fresh(entity)).drop_last() =~= s);
}

/// After the removal pass no entity is marked, and no more entities are
/// left than there were.
pub proof fn lemma_survivors_unmarked<E>(s: Seq<EntityWrapper<E>>)
    ensures
        survivors(s).len() <= s.len(),
        forall|i: int| 0 <= i < survivors(s).len() ==> !(#[trigger] survivors(s)[i]).delete_next,
        forall|i: int| 0 <= i < survivors(s).len() ==> s.contains(#[trigger] survivors(s)[i]),
    decreases s.len(),
{
    reveal(Seq::filter);
    if s.len() > 0 {
        lemma_survivors_unmarked(s.drop_last());
        let rest = survivors(s.drop_last());
        assert forall|i: int| 0 <= i < survivors(s).len() implies s.contains(
            #[trigger] survivors(s)[i],
        ) by {
            if i < rest.len() {
                let k = choose|k: int| 0 <= k < s.drop_last().len() && s.drop_last()[k] == rest[i];
                assert(s[k] == rest[i]);
            } else {
                assert(s[s.len() - 1] == survivors(s)[i]);
            }
        }
    }
}

/// Whether `w` is an entity of `s` that advanced by one tick without asking
/// to be removed.
pub open spec fn stayed<E: Entity>(
    s: Seq<EntityWrapper<E>>,
    info: &GameInfo,
    w: EntityWrapper<E>,
) -> bool {
    exists|k: int| 0 <= k < s.len() && !(#[trigger] s[k]).inner.leaves(info) && w == stepped(s[k], info)
}

/// An entity that asks to be removed during a frame is not in the
/// collection after that frame's removal pass: every entity left is one
/// that advanced without asking to leave.
pub proof fn lemma_leavers_are_gone<E: Entity>(s: Seq<EntityWrapper<E>>, info: &GameInfo)
    ensures
        forall|i: int|
            0 <= i < survivors(after_update(s, info)).len() ==> stayed(
                s,
                info,
                #[trigger] survivors(after_update(s, info))[i],
            ),
{
    let t = after_update(s, info);
    lemma_survivors_unmarked(t);
    assert forall|i: int| 0 <= i < survivors(t).len() implies stayed(
        s,
        info,
        #[trigger] survivors(t)[i],
    ) by {
        assert(t.contains(survivors(t)[i]));
        let k = choose|k: int| 0 <= k < t.len() && t[k] == survivors(t)[i];
        assert(t[k] == stepped(s[k], info));
        assert(!s[k].inner.leaves(info));
    }
}

} // verus!
