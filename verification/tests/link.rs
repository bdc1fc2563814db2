use gamecore::link::AnimatorLinks;

#[test]
fn fresh_registry_has_no_links() {
    let links = AnimatorLinks::new();
    assert!(!links.is_linked(42));
    assert_eq!(links.player_of(42), None);
}

#[test]
fn linking_records_the_player() {
    let mut links = AnimatorLinks::new();
    assert!(links.link(1, 100));
    assert!(links.is_linked(1));
    assert_eq!(links.player_of(1), Some(100));
    assert!(!links.is_linked(2));
}

#[test]
fn linking_is_idempotent_and_keeps_the_original() {
    let mut links = AnimatorLinks::new();
    assert!(links.link(1, 100));
    // A later discovery for the same owner is a no-op: created exactly
    // once, never updated.
    assert!(!links.link(1, 200));
    assert_eq!(links.player_of(1), Some(100));
}

#[test]
fn independent_owners_link_independently() {
    let mut links = AnimatorLinks::new();
    assert!(links.link(1, 100));
    assert!(links.link(2, 200));
    assert!(links.link(3, 100));
    assert_eq!(links.player_of(1), Some(100));
    assert_eq!(links.player_of(2), Some(200));
    assert_eq!(links.player_of(3), Some(100));
}
