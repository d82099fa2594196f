use zenit::entities::universe::vec_write_with_grow;
use zenit::entities::{Component, ComponentVec, ComponentVecImpl, Entity, EntityBuilder, Universe};

#[derive(Debug, Clone, PartialEq)]
struct Health(u32);

impl Component for Health {}

#[derive(Debug, Clone, PartialEq)]
struct Name(&'static str);

impl Component for Name {}

#[test]
fn first_entities_take_ascending_slots_and_generations() {
    let mut universe = Universe::new();
    let a = universe.create_entity();
    let b = universe.create_entity();
    assert_eq!(a, Entity { index: 0, generation: 1 });
    assert_eq!(b, Entity { index: 1, generation: 2 });
    assert!(universe.validate_entity(a));
    assert!(universe.validate_entity(b));
}

#[test]
fn deleted_slot_is_reused_with_a_new_generation() {
    let mut universe = Universe::new();
    let a = universe.create_entity();
    let _b = universe.create_entity();
    universe.delete_entity(a, &mut vec![]);
    assert!(!universe.validate_entity(a));
    let c = universe.create_entity();
    assert_eq!(c, Entity { index: 0, generation: 3 });
    assert!(universe.validate_entity(c));
}

#[test]
fn stale_handle_never_validates_again() {
    let mut universe = Universe::new();
    let a = universe.create_entity();
    universe.delete_entity(a, &mut vec![]);
    for _ in 0..120 {
        let e = universe.create_entity();
        assert_ne!(e.generation, a.generation);
        assert!(!universe.validate_entity(a));
    }
}

#[test]
fn live_generations_are_unique() {
    let mut universe = Universe::new();
    let mut live = Vec::new();
    for i in 0..60 {
        let e = universe.create_entity();
        if i % 3 == 0 {
            universe.delete_entity(e, &mut vec![]);
        } else {
            live.push(e);
        }
    }
    for (i, a) in live.iter().enumerate() {
        for b in &live[i + 1..] {
            assert_ne!(a.generation, b.generation);
        }
    }
}

#[test]
fn handles_out_of_range_or_with_zero_generation_are_invalid() {
    let mut universe = Universe::new();
    let a = universe.create_entity();
    assert!(!universe.validate_entity(Entity { index: 7, generation: 1 }));
    assert!(!universe.validate_entity(Entity { index: a.index, generation: 0 }));
}

#[test]
fn slots_are_allocated_in_blocks_of_fifty() {
    let mut universe = Universe::new();
    for expected in 0..55u32 {
        let e = universe.create_entity();
        assert_eq!(e.index, expected);
        assert_eq!(e.generation, expected + 1);
    }
}

#[test]
fn iter_entities_lists_live_entities_in_slot_order() {
    let mut universe = Universe::new();
    let a = universe.create_entity();
    let b = universe.create_entity();
    let c = universe.create_entity();
    universe.delete_entity(b, &mut vec![]);
    let listed: Vec<Entity> = universe.iter_entities().iter().map(|acc| acc.entity()).collect();
    assert_eq!(listed, vec![a, c]);
}

#[test]
fn component_set_get_clear_take() {
    let mut health: ComponentVecImpl<Health> = ComponentVecImpl::new();
    assert!(health.get(3).is_none());
    health.set(3, Health(10));
    assert_eq!(health.get(3), Some(&Health(10)));
    assert!(health.get(2).is_none());
    assert!(health.is_set(3));
    assert!(!health.is_set(0));
    health.set(1, Health(5));
    assert_eq!(health.get(1), Some(&Health(5)));
    assert_eq!(health.get(3), Some(&Health(10)));
    if let Some(h) = health.get_mut(3) {
        h.0 = 11;
    }
    assert_eq!(health.get(3), Some(&Health(11)));
    assert!(health.get_mut(2).is_none());
    health.clear(1);
    assert!(!health.is_set(1));
    health.clear(40);
    assert!(!health.is_set(40));
    assert_eq!(health.take(3), Health(11));
    assert!(!health.is_set(3));
}

#[test]
fn shrink_to_fit_keeps_components() {
    let mut health: ComponentVecImpl<Health> = ComponentVecImpl::new();
    health.set(2, Health(1));
    health.set(9, Health(2));
    health.clear(9);
    health.shrink_to_fit();
    assert_eq!(health.get(2), Some(&Health(1)));
    assert!(!health.is_set(9));
    health.set(5, Health(3));
    assert_eq!(health.get(5), Some(&Health(3)));
}

#[test]
fn universe_component_access() {
    let mut universe = Universe::new();
    let mut health: ComponentVecImpl<Health> = ComponentVecImpl::new();
    let a = universe.create_entity();
    let b = universe.create_entity();
    universe.set_component(&mut health, b, Health(7));
    assert!(universe.has_component(&health, b));
    assert!(!universe.has_component(&health, a));
    assert_eq!(universe.get_component(&health, b), Some(&Health(7)));
    if let Some(h) = universe.get_component_mut(&mut health, b) {
        h.0 = 8;
    }
    let listed: Vec<(Entity, Health)> = universe
        .get_components(&health)
        .iter()
        .map(|(acc, h)| (acc.entity(), (*h).clone()))
        .collect();
    assert_eq!(listed, vec![(b, Health(8))]);
    assert_eq!(universe.remove_component(&mut health, b), Health(8));
    assert!(!universe.has_component(&health, b));
}

#[test]
fn deleting_an_entity_clears_its_components() {
    let mut universe = Universe::new();
    let mut health: ComponentVecImpl<Health> = ComponentVecImpl::new();
    let mut names: ComponentVecImpl<Name> = ComponentVecImpl::new();
    let a = universe.create_entity();
    let b = universe.create_entity();
    universe.set_component(&mut health, a, Health(1));
    universe.set_component(&mut health, b, Health(2));
    universe.set_component(&mut names, a, Name("a"));
    {
        let mut vectors: Vec<&mut dyn ComponentVec> = vec![&mut health, &mut names];
        universe.delete_entity(a, &mut vectors);
    }
    assert!(!health.is_set(a.index));
    assert!(!names.is_set(a.index));
    assert_eq!(health.get(b.index), Some(&Health(2)));
    // The slot's next entity starts with no components.
    let c = universe.create_entity();
    assert_eq!(c.index, a.index);
    assert!(!universe.has_component(&health, c));
    assert!(!universe.has_component(&names, c));
}

#[test]
fn accessors_read_and_write_components() {
    let mut universe = Universe::new();
    let mut health: ComponentVecImpl<Health> = ComponentVecImpl::new();
    let a = universe.create_entity();
    {
        let mut acc = universe.access_entity_mut(a);
        assert_eq!(acc.entity(), a);
        assert!(!acc.has_component(&health));
        acc.add_component(&mut health, Health(4));
        assert_eq!(acc.get_component(&health), Some(&Health(4)));
        if let Some(h) = acc.get_component_mut(&mut health) {
            h.0 = 6;
        }
        assert_eq!(acc.remove_component(&mut health), Health(6));
    }
    health.set(a.index, Health(2));
    let acc = universe.access_entity(a);
    assert_eq!(acc.get_component(&health), Some(&Health(2)));
    assert!(acc.has_component(&health));
    assert!(acc.universe().validate_entity(a));
}

#[test]
fn builder_creates_entity_with_components() {
    let mut universe = Universe::new();
    let mut health: ComponentVecImpl<Health> = ComponentVecImpl::new();
    let e = EntityBuilder::new(&mut universe).with_component(&mut health, Health(9)).finish();
    assert_eq!(e, Entity { index: 0, generation: 1 });
    assert!(universe.validate_entity(e));
    assert_eq!(health.get(0), Some(&Health(9)));
}

#[test]
fn vec_write_with_grow_fills_with_defaults() {
    let mut v: Vec<Option<u32>> = vec![Some(1)];
    vec_write_with_grow(&mut v, 3, Some(4));
    assert_eq!(v, vec![Some(1), None, None, Some(4)]);
    vec_write_with_grow(&mut v, 0, None);
    assert_eq!(v, vec![None, None, None, Some(4)]);
}

#[test]
fn universe_queries_for_callers_without_contracts() {
    let mut universe = Universe::new();
    assert!(universe.indices_left());
    assert!(universe.generations_left());
    let mut health: ComponentVecImpl<Health> = ComponentVecImpl::new();
    let a = universe.create_entity();
    let b = universe.create_entity();
    universe.set_component(&mut health, b, Health(1));
    assert_eq!(health.slot_count(), 2);
}

#[test]
fn get_components_skips_slots_without_a_live_entity() {
    let mut universe = Universe::new();
    let mut health: ComponentVecImpl<Health> = ComponentVecImpl::new();
    let a = universe.create_entity();
    let b = universe.create_entity();
    universe.set_component(&mut health, a, Health(1));
    universe.set_component(&mut health, b, Health(2));
    // Deleting without the vector leaves slot `a` set; it is still not listed.
    universe.delete_entity(a, &mut vec![]);
    // A slot past every entity is not listed either.
    health.set(70, Health(3));
    let listed: Vec<(Entity, Health)> = universe
        .get_components(&health)
        .iter()
        .map(|(acc, h)| (acc.entity(), (*h).clone()))
        .collect();
    assert_eq!(listed, vec![(b, Health(2))]);
}

#[test]
fn shrinking_cuts_trailing_clear_slots_once() {
    let mut health: ComponentVecImpl<Health> = ComponentVecImpl::new();
    health.set(1, Health(1));
    health.set(6, Health(2));
    health.clear(6);
    health.set(3, Health(3));
    health.clear(3);
    assert_eq!(health.slot_count(), 7);
    health.shrink_to_fit();
    assert_eq!(health.slot_count(), 2);
    health.shrink_to_fit();
    assert_eq!(health.slot_count(), 2);
    assert_eq!(health.get(1), Some(&Health(1)));
}

#[test]
fn component_past_the_vector_end_is_none() {
    let mut universe = Universe::new();
    let mut health: ComponentVecImpl<Health> = ComponentVecImpl::new();
    let a = universe.create_entity();
    let b = universe.create_entity();
    universe.set_component(&mut health, a, Health(3));
    assert_eq!(health.slot_count(), 1);
    assert_eq!(universe.get_component(&health, b), None);
    assert!(universe.get_component_mut(&mut health, b).is_none());
    assert_eq!(universe.get_component(&health, a), Some(&Health(3)));
    universe.assure_well_formed();
}

#[test]
fn created_generations_keep_increasing_over_creates_and_deletes() {
    let mut universe = Universe::new();
    let mut last = 0;
    let mut live = Vec::new();
    for step in 0..200u32 {
        if step % 3 == 2 {
            let e = live.remove(0);
            universe.delete_entity(e, &mut vec![]);
        } else {
            let e = universe.create_entity();
            assert!(e.generation > last);
            last = e.generation;
            for other in &live {
                assert!(universe.validate_entity(*other));
                assert_ne!(other.index, e.index);
            }
            live.push(e);
        }
    }
}
