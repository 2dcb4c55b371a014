use puzzle_up::contact::{
    is_supporting, ContactEvent, ContactManifold, ContactPair, ContactPhase, ContactSnapshot,
    NormalY,
};

const PLAYER: u64 = 7;
const FLOOR: u64 = 11;
const WALL: u64 = 12;

fn manifold(first_body: u64, normal_y: NormalY) -> ContactManifold {
    ContactManifold { first_body: Some(first_body), normal_y }
}

#[test]
fn player_first_with_normal_down_is_supported() {
    assert!(is_supporting(PLAYER, FLOOR, &manifold(PLAYER, NormalY::MinusOne)));
}

#[test]
fn player_second_with_normal_up_is_supported() {
    assert!(is_supporting(PLAYER, FLOOR, &manifold(FLOOR, NormalY::PlusOne)));
}

#[test]
fn player_first_with_normal_up_is_not_supported() {
    assert!(!is_supporting(PLAYER, FLOOR, &manifold(PLAYER, NormalY::PlusOne)));
}

#[test]
fn player_second_with_normal_down_is_not_supported() {
    assert!(!is_supporting(PLAYER, FLOOR, &manifold(FLOOR, NormalY::MinusOne)));
}

#[test]
fn walls_and_slopes_never_support() {
    for first in [PLAYER, FLOOR] {
        assert!(!is_supporting(PLAYER, FLOOR, &manifold(first, NormalY::Zero)));
        assert!(!is_supporting(PLAYER, FLOOR, &manifold(first, NormalY::Other)));
    }
}

#[test]
fn a_manifold_of_another_pair_does_not_support() {
    assert!(!is_supporting(PLAYER, FLOOR, &manifold(WALL, NormalY::PlusOne)));
    assert!(!is_supporting(PLAYER, FLOOR, &manifold(WALL, NormalY::MinusOne)));
}

#[test]
fn names_first_body_tells_some_from_none() {
    assert!(manifold(PLAYER, NormalY::Zero).names_first_body());
    let nameless = ContactManifold { first_body: None, normal_y: NormalY::MinusOne };
    assert!(!nameless.names_first_body());
}

#[test]
fn empty_snapshot_supports_nobody() {
    let snapshot = ContactSnapshot::new();
    assert!(snapshot.is_well_formed());
    assert!(!snapshot.is_supported(PLAYER));
}

#[test]
fn snapshot_is_supported_by_any_one_contact() {
    let snapshot = ContactSnapshot {
        pairs: vec![
            ContactPair { other_body: WALL, manifolds: vec![manifold(WALL, NormalY::Zero)] },
            ContactPair {
                other_body: FLOOR,
                manifolds: vec![
                    manifold(FLOOR, NormalY::MinusOne),
                    manifold(FLOOR, NormalY::PlusOne),
                ],
            },
        ],
    };
    assert!(snapshot.is_well_formed());
    assert!(snapshot.is_supported(PLAYER));
}

#[test]
fn snapshot_with_walls_and_ceiling_only_is_unsupported() {
    let snapshot = ContactSnapshot {
        pairs: vec![
            ContactPair { other_body: WALL, manifolds: vec![manifold(PLAYER, NormalY::Zero)] },
            ContactPair { other_body: FLOOR, manifolds: vec![manifold(PLAYER, NormalY::PlusOne)] },
            ContactPair { other_body: 13, manifolds: vec![] },
        ],
    };
    assert!(snapshot.is_well_formed());
    assert!(!snapshot.is_supported(PLAYER));
}

#[test]
fn snapshot_with_a_nameless_manifold_is_not_well_formed() {
    let snapshot = ContactSnapshot {
        pairs: vec![
            ContactPair { other_body: FLOOR, manifolds: vec![manifold(FLOOR, NormalY::PlusOne)] },
            ContactPair {
                other_body: WALL,
                manifolds: vec![
                    manifold(WALL, NormalY::Zero),
                    ContactManifold { first_body: None, normal_y: NormalY::Zero },
                ],
            },
        ],
    };
    assert!(!snapshot.is_well_formed());
}

#[test]
fn contact_loss_is_a_stopped_event_without_flags() {
    let event = |phase, flags| ContactEvent { phase, first: PLAYER, second: FLOOR, flags };
    assert!(event(ContactPhase::Stopped, 0).contact_lost());
    assert!(!event(ContactPhase::Stopped, 1).contact_lost());
    assert!(!event(ContactPhase::Stopped, 2).contact_lost());
    assert!(!event(ContactPhase::Started, 0).contact_lost());
}
