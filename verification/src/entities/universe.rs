use super::accessor::{EntityAccessor, EntityAccessorMut};
use super::component_vec::{slot_of, ComponentVec, ComponentVecImpl};
use super::{Component, Entity};
use vstd::prelude::*;

verus! {

/// Amount of [`Universe`] slots to grow by whenever the containers run out of space.
pub const ECS_GROW_AMOUNT: u32 = 50;

/// Writes `value` at `index`, first growing `vec` with default values if it is too short.
pub fn vec_write_with_grow<T: Default>(vec: &mut Vec<T>, index: usize, value: T)
    ensures
        final(vec)@.len() == if index < old(vec)@.len() { old(vec)@.len() as int } else { index + 1 },
        final(vec)@[index as int] == value,
        forall|j: int| 0 <= j < old(vec)@.len() && j != index ==> #[trigger] final(vec)@[j] == old(vec)@[j],
        forall|j: int| old(vec)@.len() <= j < index ==> call_ensures(T::default, (), #[trigger] final(vec)@[j]),
{
    if index >= vec.len() {
        let ghost old_vec = vec@;
        while vec.len() <= index
            invariant
                old_vec.len() <= vec@.len() <= index + 1,
                forall|j: int| 0 <= j < old_vec.len() ==> vec@[j] == old_vec[j],
                forall|j: int| old_vec.len() <= j < vec@.len() ==> call_ensures(T::default, (), #[trigger] vec@[j]),
            decreases index + 1 - vec@.len(),
        {
            vec.push(T::default());
        }
    }
    vec.set(index, value);
}

/// The mathematical state of a [`Universe`].
pub struct UniverseModel {
    /// The generation the next created entity receives.
    pub top_generation: int,
    /// Slot indices ready for reuse; the last one is handed out first.
    pub free_indices: Seq<u32>,
    /// For each slot, the generation of the entity living there, if any.
    pub generations: Seq<Option<u32>>,
}

impl UniverseModel {
    /// Well-formedness: live generations are nonzero, below the next generation and pairwise
    /// distinct; free slots are distinct, empty, and every index fits in a `u32`.
    pub open spec fn wf(self) -> bool {
        &&& 1 <= self.top_generation <= u32::MAX
        &&& self.generations.len() <= u32::MAX
        &&& forall|i: int|
            0 <= i < self.generations.len() && (#[trigger] self.generations[i]) is Some ==> 1
                <= self.generations[i]->0 < self.top_generation
        &&& forall|i: int, j: int|
            0 <= i < self.generations.len() && 0 <= j < self.generations.len() && i != j
                && (#[trigger] self.generations[i]) is Some && (#[trigger] self.generations[j]) is Some
                ==> self.generations[i]->0 != self.generations[j]->0
        &&& self.free_indices.no_duplicates()
        &&& forall|k: int|
            0 <= k < self.free_indices.len() ==> (#[trigger] self.free_indices[k]) < u32::MAX && (
            self.free_indices[k] < self.generations.len() ==> self.generations[self.free_indices[k] as int] is None)
    }

    /// `entity` is a live handle of this universe.
    pub open spec fn is_valid(self, entity: Entity) -> bool {
        &&& entity.index < self.generations.len()
        &&& self.generations[entity.index as int] == Some(entity.generation)
    }

    /// Creating an entity neither runs out of generations nor of slot indices.
    pub open spec fn can_create(self) -> bool {
        &&& self.top_generation < u32::MAX
        &&& self.free_indices.len() == 0 ==> self.generations.len() + ECS_GROW_AMOUNT <= u32::MAX
    }

    /// The free list that entity creation pops from: the current one, or, if that is empty,
    /// the next [`ECS_GROW_AMOUNT`] slot indices in descending order.
    pub open spec fn refilled_free(self) -> Seq<u32> {
        if self.free_indices.len() > 0 {
            self.free_indices
        } else {
            Seq::new(ECS_GROW_AMOUNT as nat, |k: int| (self.generations.len() + ECS_GROW_AMOUNT - 1 - k) as u32)
        }
    }

    /// The handle that entity creation returns.
    pub open spec fn created(self) -> Entity {
        Entity { index: self.refilled_free().last(), generation: self.top_generation as u32 }
    }

    /// The state after creating an entity.
    pub open spec fn after_create(self) -> UniverseModel {
        let index = self.created().index as int;
        let len = if index < self.generations.len() { self.generations.len() as int } else { index + 1 };
        UniverseModel {
            top_generation: self.top_generation + 1,
            free_indices: self.refilled_free().drop_last(),
            generations: Seq::new(
                len as nat,
                |j: int|
                    if j == index {
                        Some(self.top_generation as u32)
                    } else if j < self.generations.len() {
                        self.generations[j]
                    } else {
                        None
                    },
            ),
        }
    }

    /// The state after deleting `entity`.
    pub open spec fn after_delete(self, entity: Entity) -> UniverseModel {
        UniverseModel {
            top_generation: self.top_generation,
            free_indices: self.free_indices.push(entity.index),
            generations: self.generations.update(entity.index as int, None),
        }
    }

    /// Slot `index` holds a live entity.
    pub open spec fn is_live_slot(self, index: int) -> bool {
        0 <= index < self.generations.len() && self.generations[index] is Some
    }

    /// The live entities among the first `n` slots of `components` that hold a component, with
    /// those components, in slot order.
    pub open spec fn components_of<T>(self, components: Seq<Option<T>>, n: int) -> Seq<(Entity, T)>
        decreases n,
    {
        if n <= 0 {
            Seq::empty()
        } else {
            let rest = self.components_of(components, n - 1);
            match slot_of(components, n - 1) {
                Some(c) => if self.is_live_slot(n - 1) {
                    rest.push((Entity { index: (n - 1) as u32, generation: self.generations[n - 1]->0 }, c))
                } else {
                    rest
                },
                None => rest,
            }
        }
    }

    /// The live entities, in slot order, among the first `n` slots.
    pub open spec fn live_entities(self, n: int) -> Seq<Entity>
        decreases n,
    {
        if n <= 0 {
            Seq::empty()
        } else {
            let rest = self.live_entities(n - 1);
            match self.generations[n - 1] {
                Some(g) => rest.push(Entity { index: (n - 1) as u32, generation: g }),
                None => rest,
            }
        }
    }
}

/// Creating an entity keeps the universe well-formed.
pub proof fn lemma_create_keeps_wf(u: UniverseModel)
    requires
        u.wf(),
        u.can_create(),
    ensures
        u.after_create().wf(),
        u.created().generation >= 1,
{
    let r = u.refilled_free();
    let n = u.after_create();
    let index = u.created().index;
    if u.free_indices.len() == 0 {
        assert forall|a: int, b: int| 0 <= a < b < r.len() implies r[a] != r[b] by {}
        assert(r.no_duplicates());
    }
    assert forall|k: int| 0 <= k < r.len() implies (#[trigger] r[k]) < u32::MAX
        && (r[k] < u.generations.len() ==> u.generations[r[k] as int] is None) by {}
    assert(index < u32::MAX);
    let f = r.drop_last();
    assert forall|a: int, b: int| 0 <= a < f.len() && 0 <= b < f.len() && a != b implies f[a] != f[b] by {
        assert(f[a] == r[a] && f[b] == r[b]);
    }
    assert forall|k: int| 0 <= k < f.len() implies (#[trigger] f[k]) < u32::MAX && (
        f[k] < n.generations.len() ==> n.generations[f[k] as int] is None) by {
        assert(f[k] == r[k]);
        assert(r[k] != r[r.len() - 1]);
    }
}

/// Deleting a live entity keeps the universe well-formed.
pub proof fn lemma_delete_keeps_wf(u: UniverseModel, entity: Entity)
    requires
        u.wf(),
        u.is_valid(entity),
    ensures
        u.after_delete(entity).wf(),
{
    let f = u.after_delete(entity).free_indices;
    assert forall|k: int| 0 <= k < u.free_indices.len() implies u.free_indices[k] != entity.index by {}
    assert forall|a: int, b: int| 0 <= a < f.len() && 0 <= b < f.len() && a != b implies f[a] != f[b] by {}
}

/// Creating an entity returns a handle that was not live before and is live afterwards, in a
/// slot that no live handle held; every other handle keeps its validity.
pub proof fn lemma_create_entity_validity(u: UniverseModel, e: Entity)
    requires
        u.wf(),
        u.can_create(),
    ensures
        !u.is_valid(u.created()),
        u.after_create().is_valid(u.created()),
        e != u.created() ==> (u.after_create().is_valid(e) == u.is_valid(e)),
        u.is_valid(e) ==> e.index != u.created().index,
{
    lemma_create_keeps_wf(u);
    let c = u.created();
    if c.index < u.generations.len() && u.generations[c.index as int] is Some {
        assert(u.generations[c.index as int]->0 < u.top_generation);
    }
    if e != c && e.index == c.index && u.is_valid(e) {
        assert(e.generation < u.top_generation);
    }
}

/// Deleting a live entity makes exactly that handle invalid.
pub proof fn lemma_delete_entity_validity(u: UniverseModel, d: Entity, e: Entity)
    requires
        u.wf(),
        u.is_valid(d),
    ensures
        !u.after_delete(d).is_valid(d),
        e != d ==> (u.after_delete(d).is_valid(e) == u.is_valid(e)),
{
}

/// A handle that was issued by the universe (its generation is below the next one) but is no
/// longer live.
pub open spec fn is_stale(u: UniverseModel, e: Entity) -> bool {
    e.generation < u.top_generation && !u.is_valid(e)
}

/// Once deleted, a handle never becomes valid again: deleting makes it stale, and neither
/// creating nor deleting entities revives a stale handle.
pub proof fn lemma_stale_handles_stay_invalid(u: UniverseModel, d: Entity, e: Entity)
    requires
        u.wf(),
    ensures
        u.is_valid(d) ==> is_stale(u.after_delete(d), d),
        u.is_valid(d) && is_stale(u, e) ==> is_stale(u.after_delete(d), e),
        u.can_create() && is_stale(u, e) ==> is_stale(u.after_create(), e),
{
    if u.can_create() && is_stale(u, e) {
        lemma_create_entity_validity(u, e);
    }
}

/// No two distinct live handles share a generation number.
pub proof fn lemma_generations_unique(u: UniverseModel, a: Entity, b: Entity)
    requires
        u.wf(),
        u.is_valid(a),
        u.is_valid(b),
        a.generation == b.generation,
    ensures
        a == b,
{
    if a.index != b.index {
        assert(u.generations[a.index as int] is Some && u.generations[b.index as int] is Some);
    }
}

/// The entity list that [`Universe::iter_entities`] returns holds exactly the valid handles, in
/// ascending slot order.
pub proof fn lemma_live_entities_are_the_valid_ones(u: UniverseModel, n: int)
    requires
        u.wf(),
        0 <= n <= u.generations.len(),
    ensures
        forall|k: int| 0 <= k < u.live_entities(n).len() ==> {
            let e = #[trigger] u.live_entities(n)[k];
            e.index < n && u.is_valid(e)
        },
        forall|k: int, l: int| 0 <= k < l < u.live_entities(n).len() ==>
            (#[trigger] u.live_entities(n)[k]).index < (#[trigger] u.live_entities(n)[l]).index,
        forall|e: Entity| e.index < n && #[trigger] u.is_valid(e) ==> u.live_entities(n).contains(e),
    decreases n,
{
    if n > 0 {
        lemma_live_entities_are_the_valid_ones(u, n - 1);
        let rest = u.live_entities(n - 1);
        let live = u.live_entities(n);
        match u.generations[n - 1] {
            Some(g) => {
                let last = Entity { index: (n - 1) as u32, generation: g };
                assert(live == rest.push(last));
                assert forall|e: Entity| e.index < n && #[trigger] u.is_valid(e) implies live.contains(e) by {
                    if e.index < n - 1 {
                        let k = choose|k: int| 0 <= k < rest.len() && rest[k] == e;
                        assert(live[k] == e);
                    } else {
                        assert(e == last);
                        assert(live[live.len() - 1] == e);
                    }
                }
            },
            None => {
                assert forall|e: Entity| e.index < n && #[trigger] u.is_valid(e) implies live.contains(e) by {
                    assert(e.index < n - 1);
                }
            },
        }
    }
}

/// The list that [`Universe::get_components`] returns pairs each valid entity holding a
/// component with that component, in ascending slot order, and misses none of them.
pub proof fn lemma_components_of_lists_holders<T>(u: UniverseModel, components: Seq<Option<T>>, n: int)
    requires
        u.wf(),
        0 <= n <= components.len(),
    ensures
        forall|k: int| 0 <= k < u.components_of(components, n).len() ==> {
            let (e, c) = #[trigger] u.components_of(components, n)[k];
            &&& e.index < n
            &&& u.is_valid(e)
            &&& slot_of(components, e.index as int) == Some(c)
        },
        forall|k: int, l: int| 0 <= k < l < u.components_of(components, n).len() ==>
            (#[trigger] u.components_of(components, n)[k]).0.index < (#[trigger] u.components_of(components, n)[l]).0.index,
        forall|e: Entity| e.index < n && #[trigger] u.is_valid(e) && slot_of(components, e.index as int) is Some
            ==> u.components_of(components, n).contains((e, slot_of(components, e.index as int)->0)),
    decreases n,
{
    if n > 0 {
        lemma_components_of_lists_holders(u, components, n - 1);
        let rest = u.components_of(components, n - 1);
        let listed = u.components_of(components, n);
        match slot_of(components, n - 1) {
            Some(c) if u.is_live_slot(n - 1) => {
                let last = (Entity { index: (n - 1) as u32, generation: u.generations[n - 1]->0 }, c);
                assert(listed == rest.push(last));
                assert forall|e: Entity| e.index < n && #[trigger] u.is_valid(e) && slot_of(components, e.index as int) is Some
                    implies listed.contains((e, slot_of(components, e.index as int)->0)) by {
                    if e.index < n - 1 {
                        let k = choose|k: int| 0 <= k < rest.len() && rest[k] == (e, slot_of(components, e.index as int)->0);
                        assert(listed[k] == rest[k]);
                    } else {
                        assert(listed[listed.len() - 1] == (e, slot_of(components, e.index as int)->0));
                    }
                }
            },
            _ => {
                assert forall|e: Entity| e.index < n && #[trigger] u.is_valid(e) && slot_of(components, e.index as int) is Some
                    implies listed.contains((e, slot_of(components, e.index as int)->0)) by {
                    assert(e.index < n - 1);
                }
            },
        }
    }
}

/// One change to a universe: creating an entity, or deleting one.
pub enum UniverseOp {
    Create,
    Delete(Entity),
}

/// The state after applying `ops` to `u`, in order.
pub open spec fn apply_ops(u: UniverseModel, ops: Seq<UniverseOp>) -> UniverseModel
    decreases ops.len(),
{
    if ops.len() == 0 {
        u
    } else {
        let before = apply_ops(u, ops.drop_last());
        match ops.last() {
            UniverseOp::Create => before.after_create(),
            UniverseOp::Delete(e) => before.after_delete(e),
        }
    }
}

/// Each of `ops` can be made in turn: every create has a slot and a generation left, and every
/// delete names a live handle, as [`Universe::create_entity`] and [`Universe::delete_entity`]
/// require.
pub open spec fn ops_allowed(u: UniverseModel, ops: Seq<UniverseOp>) -> bool {
    forall|i: int| #![trigger ops[i]] 0 <= i < ops.len() ==> match ops[i] {
        UniverseOp::Create => apply_ops(u, ops.take(i)).can_create(),
        UniverseOp::Delete(e) => apply_ops(u, ops.take(i)).is_valid(e),
    }
}

/// The handles that the creates among `ops` return, in order.
pub open spec fn created_handles(u: UniverseModel, ops: Seq<UniverseOp>) -> Seq<Entity>
    decreases ops.len(),
{
    if ops.len() == 0 {
        Seq::empty()
    } else {
        let earlier = created_handles(u, ops.drop_last());
        match ops.last() {
            UniverseOp::Create => earlier.push(apply_ops(u, ops.drop_last()).created()),
            UniverseOp::Delete(_) => earlier,
        }
    }
}

/// Generations are unique across the whole universe and its history: over any run of creates
/// and deletes, every created handle has a newer generation than every handle created before
/// it, and than any generation the universe had issued when the run began. The universe stays
/// well-formed throughout.
pub proof fn lemma_created_generations_increase(u: UniverseModel, ops: Seq<UniverseOp>)
    requires
        u.wf(),
        ops_allowed(u, ops),
    ensures
        apply_ops(u, ops).wf(),
        apply_ops(u, ops).top_generation >= u.top_generation,
        forall|i: int, j: int| 0 <= i < j < created_handles(u, ops).len() ==>
            (#[trigger] created_handles(u, ops)[i]).generation < (#[trigger] created_handles(u, ops)[j]).generation,
        forall|i: int| 0 <= i < created_handles(u, ops).len() ==> {
            &&& u.top_generation <= (#[trigger] created_handles(u, ops)[i]).generation
            &&& created_handles(u, ops)[i].generation < apply_ops(u, ops).top_generation
        },
    decreases ops.len(),
{
    if ops.len() > 0 {
        let prefix = ops.drop_last();
        assert forall|i: int| #![trigger prefix[i]] 0 <= i < prefix.len() implies match prefix[i] {
            UniverseOp::Create => apply_ops(u, prefix.take(i)).can_create(),
            UniverseOp::Delete(e) => apply_ops(u, prefix.take(i)).is_valid(e),
        } by {
            assert(prefix.take(i) =~= ops.take(i));
            assert(prefix[i] == ops[i]);
        }
        lemma_created_generations_increase(u, prefix);
        let before = apply_ops(u, prefix);
        let n = ops.len() - 1;
        assert(ops.take(n) =~= prefix);
        assert(ops[n] == ops.last());
        match ops.last() {
            UniverseOp::Create => {
                assert(before.can_create());
                lemma_create_keeps_wf(before);
                let earlier = created_handles(u, prefix);
                let all = created_handles(u, ops);
                assert(all == earlier.push(before.created()));
                assert(before.created().generation == before.top_generation);
                assert forall|i: int, j: int| 0 <= i < j < all.len() implies
                    (#[trigger] all[i]).generation < (#[trigger] all[j]).generation by {
                    assert(all[i] == earlier[i]);
                    if j < earlier.len() {
                        assert(all[j] == earlier[j]);
                    }
                }
                assert forall|i: int| 0 <= i < all.len() implies {
                    &&& u.top_generation <= (#[trigger] all[i]).generation
                    &&& all[i].generation < apply_ops(u, ops).top_generation
                } by {
                    if i < earlier.len() {
                        assert(all[i] == earlier[i]);
                    }
                }
            },
            UniverseOp::Delete(e) => {
                assert(before.is_valid(e));
                lemma_delete_keeps_wf(before, e);
                assert(created_handles(u, ops) == created_handles(u, prefix));
            },
        }
    }
}

/// The container of all entities: it hands out handles and tells live ones from stale ones.
pub struct Universe {
    top_generation: u32,
    free_indices: Vec<u32>,
    generations: Vec<Option<u32>>,
}

impl View for Universe {
    type V = UniverseModel;

    closed spec fn view(&self) -> UniverseModel {
        UniverseModel {
            top_generation: self.top_generation as int,
            free_indices: self.free_indices@,
            generations: self.generations@,
        }
    }
}

impl Universe {
    /// Every universe is well-formed.
    #[verifier::type_invariant]
    closed spec fn well_formed(self) -> bool {
        self@.wf()
    }

    /// Every universe is well-formed, so the laws stated of well-formed universes apply to it.
    /// Calling this costs nothing: it only brings that fact into a caller's proof.
    pub fn assure_well_formed(&self)
        ensures
            self@.wf(),
    {
        proof {
            use_type_invariant(self);
        }
    }

    /// Creates a blank, empty universe.
    pub fn new() -> (r: Self)
        ensures
            r@.top_generation == 1,
            r@.free_indices == Seq::<u32>::empty(),
            r@.generations == Seq::<Option<u32>>::empty(),
            r@.wf(),
    {
        Universe { top_generation: 1, free_indices: Vec::new(), generations: Vec::new() }
    }

    /// Allocates a new entity slot.
    ///
    /// ## Panics
    ///  - on index overflow
    ///  - on generation overflow
    ///
    /// `requires` leaves both out.
    pub fn create_entity(&mut self) -> (e: Entity)
        requires
            old(self)@.can_create(),
        ensures
            old(self)@.wf(),
            e == old(self)@.created(),
            final(self)@ == old(self)@.after_create(),
            final(self)@.wf(),
    {
        proof {
            use_type_invariant(&*self);
            lemma_create_keeps_wf(self@);
        }
        let ghost before = self@;
        // The slot lists are worked on out of place; the universe meanwhile holds none, which
        // keeps it well-formed.
        let mut free_indices: Vec<u32> = Vec::new();
        std::mem::swap(&mut free_indices, &mut self.free_indices);
        let mut generations: Vec<Option<u32>> = Vec::new();
        std::mem::swap(&mut generations, &mut self.generations);
        if free_indices.len() == 0 {
            let top_index = generations.len() as u32;
            let new_top_index = top_index + ECS_GROW_AMOUNT;
            let mut i = new_top_index;
            while i > top_index
                invariant
                    before.free_indices.len() == 0,
                    generations@ == before.generations,
                    top_index == before.generations.len(),
                    new_top_index == top_index + ECS_GROW_AMOUNT,
                    top_index <= i <= new_top_index,
                    free_indices@ =~= before.refilled_free().subrange(0, new_top_index - i),
                decreases i,
            {
                i = i - 1;
                free_indices.push(i);
            }
        }
        assert(free_indices@ =~= before.refilled_free());
        let index = match free_indices.pop() {
            Some(index) => index,
            None => vstd::pervasive::unreached(),
        };
        let generation = self.top_generation;
        self.top_generation = generation + 1;
        vec_write_with_grow(&mut generations, index as usize, Some(generation));
        assert forall|j: int| 0 <= j < generations@.len() implies #[trigger] generations@[j]
            == before.after_create().generations[j] by {
            if j >= before.generations.len() && j != index {
                assert(call_ensures(Option::<u32>::default, (), generations@[j]));
            }
        }
        assert(generations@ =~= before.after_create().generations);
        self.generations = generations;
        self.free_indices = free_indices;
        Entity { index, generation }
    }

    /// Whether a slot index is left for a new entity: a free slot, or room for a new block of
    /// [`ECS_GROW_AMOUNT`] slots below `u32::MAX`.
    pub fn indices_left(&self) -> (r: bool)
        ensures
            r == (self@.free_indices.len() == 0 ==> self@.generations.len() + ECS_GROW_AMOUNT <= u32::MAX),
    {
        self.free_indices.len() > 0 || self.generations.len() <= (u32::MAX - ECS_GROW_AMOUNT) as usize
    }

    /// Whether a generation number is left for a new entity.
    pub fn generations_left(&self) -> (r: bool)
        ensures
            r == (self@.top_generation < u32::MAX),
    {
        self.top_generation < u32::MAX
    }

    /// Checks whether provided [`Entity`] constitutes a valid handle.
    pub fn validate_entity(&self, entity: Entity) -> (r: bool)
        ensures
            r == self@.is_valid(entity),
    {
        let i = entity.index as usize;
        if i < self.generations.len() {
            match self.generations[i] {
                Some(generation) => generation == entity.generation,
                None => false,
            }
        } else {
            false
        }
    }

    /// Deletes an entity, making its slot available again, and clears its components in each of
    /// the component vectors given, so that an entity that later reuses the slot starts with
    /// none.
    ///
    /// ## Panics
    ///  - if the handle is invalid; `requires` leaves that out
    pub fn delete_entity(&mut self, entity: Entity, components: &mut Vec<&mut dyn ComponentVec>)
        requires
            old(self)@.is_valid(entity),
        ensures
            old(self)@.wf(),
            final(self)@ == old(self)@.after_delete(entity),
            final(self)@.wf(),
            final(components)@.len() == old(components)@.len(),
            forall|k: int| #![trigger final(components)@[k]] 0 <= k < final(components)@.len() ==> {
                &&& !final(components)@[k].is_set_at(entity.index as int)
                &&& forall|j: int| j != entity.index ==> #[trigger] final(components)@[k].is_set_at(j)
                    == old(components)@[k].is_set_at(j)
            },
    {
        proof {
            use_type_invariant(&*self);
            lemma_delete_keeps_wf(self@, entity);
        }
        let mut free_indices: Vec<u32> = Vec::new();
        std::mem::swap(&mut free_indices, &mut self.free_indices);
        free_indices.push(entity.index);
        let mut generations: Vec<Option<u32>> = Vec::new();
        std::mem::swap(&mut generations, &mut self.generations);
        generations.set(entity.index as usize, None);
        self.generations = generations;
        self.free_indices = free_indices;
        let mut k: usize = 0;
        while k < components.len()
            invariant
                k <= components@.len(),
                components@.len() == old(components)@.len(),
                forall|m: int| k <= m < components@.len() ==> #[trigger] components@[m] == old(components)@[m],
                forall|m: int| #![trigger components@[m]] 0 <= m < k ==> {
                    &&& !components@[m].is_set_at(entity.index as int)
                    &&& forall|j: int| j != entity.index ==> #[trigger] components@[m].is_set_at(j)
                        == old(components)@[m].is_set_at(j)
                },
            decreases components@.len() - k,
        {
            let vector: &mut &mut dyn ComponentVec = &mut components[k];
            vector.clear(entity.index);
            k = k + 1;
        }
    }

    /// Adds a component to the specified entity. The component is overwritten if it already exists.
    ///
    /// ## Panics
    ///  - if the handle is invalid; `requires` leaves that out
    pub fn set_component<T: Component>(&self, components: &mut ComponentVecImpl<T>, entity: Entity, value: T)
        requires
            self@.is_valid(entity),
        ensures
            final(components).slot(entity.index as int) == Some(value),
            forall|j: int| j != entity.index ==> #[trigger] final(components).slot(j) == old(components).slot(j),
    {
        components.set(entity.index, value);
    }

    /// Removes a component from the specified entity.
    ///
    /// ## Panics
    ///  - if the handle is invalid
    ///  - if the entity doesn't have the component
    ///
    /// `requires` leaves both out.
    pub fn remove_component<T: Component>(&self, components: &mut ComponentVecImpl<T>, entity: Entity) -> (r: T)
        requires
            self@.is_valid(entity),
            old(components).slot(entity.index as int) is Some,
        ensures
            r == old(components).slot(entity.index as int)->0,
            final(components)@ == old(components)@.update(entity.index as int, None),
    {
        components.take(entity.index)
    }

    /// Checks if the entity has a specified component.
    ///
    /// ## Panics
    ///  - if the handle is invalid; `requires` leaves that out
    pub fn has_component<T: Component>(&self, components: &ComponentVecImpl<T>, entity: Entity) -> (r: bool)
        requires
            self@.is_valid(entity),
        ensures
            r == components.slot(entity.index as int) is Some,
    {
        components.is_set(entity.index)
    }

    /// Returns an optional component reference of the specified entity.
    ///
    /// ## Panics
    ///  - if the handle is invalid; `requires` leaves that out
    pub fn get_component<'c, T: Component>(&self, components: &'c ComponentVecImpl<T>, entity: Entity) -> (r: Option<&'c T>)
        requires
            self@.is_valid(entity),
        ensures
            r is Some <==> components.slot(entity.index as int) is Some,
            r matches Some(c) ==> *c == components.slot(entity.index as int)->0,
    {
        components.get(entity.index)
    }

    /// Returns an optional mutable component reference of the specified entity.
    ///
    /// ## Panics
    ///  - if the handle is invalid; `requires` leaves that out
    pub fn get_component_mut<'c, T: Component>(&self, components: &'c mut ComponentVecImpl<T>, entity: Entity) -> (r: Option<&'c mut T>)
        requires
            self@.is_valid(entity),
        ensures
            r is Some <==> old(components).slot(entity.index as int) is Some,
            r matches Some(c) ==> *c == old(components).slot(entity.index as int)->0
                && final(components)@ == old(components)@.update(entity.index as int, Some(*final(c))),
            r is None ==> final(components)@ == old(components)@,
    {
        components.get_mut(entity.index)
    }

    /// Scans through all valid entities with a component in `components`, and returns them with
    /// an accessor and the component, in slot order.
    pub fn get_components<'a, T: Component>(&'a self, components: &'a ComponentVecImpl<T>) -> (r: Vec<(EntityAccessor<'a>, &'a T)>)
        ensures
            r@.len() == self@.components_of(components@, components@.len() as int).len(),
            forall|k: int| 0 <= k < r@.len() ==> {
                let expected = self@.components_of(components@, components@.len() as int)[k];
                &&& (#[trigger] r@[k]).0@ == (self@, expected.0)
                &&& *r@[k].1 == expected.1
            },
    {
        let mut r: Vec<(EntityAccessor<'a>, &'a T)> = Vec::new();
        let n = components.slot_count();
        let mut i: usize = 0;
        while i < n
            invariant
                n == components@.len(),
                i <= n,
                r@.len() == self@.components_of(components@, i as int).len(),
                forall|k: int| 0 <= k < r@.len() ==> {
                    let expected = self@.components_of(components@, i as int)[k];
                    &&& (#[trigger] r@[k]).0@ == (self@, expected.0)
                    &&& *r@[k].1 == expected.1
                },
            decreases n - i,
        {
            if i < self.generations.len() {
                match (self.generations[i], components.slot_at(i)) {
                    (Some(generation), Some(c)) => {
                        let entity = Entity { index: i as u32, generation };
                        r.push((EntityAccessor::make(self, entity), c));
                    },
                    _ => {},
                }
            }
            i = i + 1;
        }
        r
    }

    /// Makes an accessor for a live entity.
    ///
    /// ## Panics
    ///  - if the handle is invalid; `requires` leaves that out
    pub fn access_entity(&self, entity: Entity) -> (r: EntityAccessor<'_>)
        requires
            self@.is_valid(entity),
        ensures
            r@ == (self@, entity),
    {
        EntityAccessor::make(self, entity)
    }

    /// Makes a mutable accessor for a live entity.
    ///
    /// ## Panics
    ///  - if the handle is invalid; `requires` leaves that out
    pub fn access_entity_mut(&mut self, entity: Entity) -> (r: EntityAccessorMut<'_>)
        requires
            old(self)@.is_valid(entity),
        ensures
            r@ == (old(self)@, entity),
    {
        EntityAccessorMut::make(self, entity)
    }

    /// Returns accessors to all live entities, in slot order.
    pub fn iter_entities(&self) -> (r: Vec<EntityAccessor<'_>>)
        ensures
            r@.len() == self@.live_entities(self@.generations.len() as int).len(),
            forall|k: int| 0 <= k < r@.len() ==> (#[trigger] r@[k])@ == (self@, self@.live_entities(self@.generations.len() as int)[k]),
    {
        proof {
            use_type_invariant(self);
        }
        let mut r: Vec<EntityAccessor<'_>> = Vec::new();
        let n = self.generations.len();
        let mut i: usize = 0;
        while i < n
            invariant
                n == self@.generations.len(),
                n <= u32::MAX,
                i <= n,
                r@.len() == self@.live_entities(i as int).len(),
                forall|k: int| 0 <= k < r@.len() ==> (#[trigger] r@[k])@ == (self@, self@.live_entities(i as int)[k]),
            decreases n - i,
        {
            match self.generations[i] {
                Some(generation) => {
                    let entity = Entity { index: i as u32, generation };
                    r.push(EntityAccessor::make(self, entity));
                },
                None => {},
            }
            i = i + 1;
        }
        r
    }
}

} // verus!
