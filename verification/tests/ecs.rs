use zenit::ecs::{Component, ComponentVec, RegisteredComponent};

#[derive(Debug, PartialEq)]
struct Tag(u8);

impl Component for Tag {}
impl RegisteredComponent for Tag {}

#[test]
fn component_vec_behaves_like_an_infinite_vector() {
    let mut tags: ComponentVec<Tag> = ComponentVec::new();
    assert!(tags.get(100).is_none());
    tags.set(4, Tag(1));
    tags.set(1, Tag(2));
    assert_eq!(tags.get(4), Some(&Tag(1)));
    assert_eq!(tags.get(1), Some(&Tag(2)));
    assert!(!tags.is_set(0));
    if let Some(t) = tags.get_mut(1) {
        t.0 = 3;
    }
    assert_eq!(tags.get(1), Some(&Tag(3)));
    tags.clear(4);
    assert!(!tags.is_set(4));
    tags.optimize();
    assert_eq!(tags.get(1), Some(&Tag(3)));
    assert!(tags.get(4).is_none());
}
