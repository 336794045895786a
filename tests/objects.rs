use starry_engine::game_object::{IdAllocator, StarryGameObject};

#[test]
fn ids_start_at_one_and_increase() {
    let mut ids = IdAllocator::new();
    let a = StarryGameObject::create_new_game_object_with_transform(&mut ids, "mesh a", 1).unwrap();
    let b = StarryGameObject::create_new_game_object_with_transform(&mut ids, "mesh b", 2).unwrap();
    assert_eq!(a.get_id(), 1);
    assert_eq!(b.get_id(), 2);
    assert_eq!(a.model, "mesh a");
    assert_eq!(b.transform, 2);
    assert_eq!(ids.next_id().unwrap().value(), 3);
}

#[test]
fn separate_allocators_are_independent() {
    let mut one = IdAllocator::new();
    let mut two = IdAllocator::new();
    assert_eq!(one.next_id().unwrap().value(), 1);
    assert_eq!(one.next_id().unwrap().value(), 2);
    assert_eq!(two.next_id().unwrap().value(), 1);
}
