use outlines::hover::{hover_target, update_hover};

#[test]
fn a_plain_hit_stands_for_itself() {
    assert_eq!(hover_target(Some(7), None), Some(7));
}

#[test]
fn a_displaced_hit_stands_for_its_parent() {
    assert_eq!(hover_target(Some(7), Some(9)), Some(9));
}

#[test]
fn no_hit_resolves_to_nothing() {
    assert_eq!(hover_target(None, None), None);
    assert_eq!(hover_target(None, Some(9)), None);
}

#[test]
fn hovering_a_new_entity_writes() {
    let mut cur = None;
    assert!(update_hover(&mut cur, Some(3)));
    assert_eq!(cur, Some(3));
}

#[test]
fn hovering_the_same_entity_stays_quiet() {
    let mut cur = Some(3);
    assert!(!update_hover(&mut cur, Some(3)));
    assert_eq!(cur, Some(3));
}

#[test]
fn moving_between_entities_writes() {
    let mut cur = Some(3);
    assert!(update_hover(&mut cur, Some(4)));
    assert_eq!(cur, Some(4));
}

#[test]
fn leaving_every_entity_clears_once() {
    let mut cur = Some(4);
    assert!(update_hover(&mut cur, None));
    assert_eq!(cur, None);
    assert!(!update_hover(&mut cur, None));
    assert_eq!(cur, None);
}
