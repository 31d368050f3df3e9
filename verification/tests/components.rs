use breakout::components::{
    despawn_entities, despawn_walls, Body, Brick, Collider, ColliderKind, FailZone,
};
use breakout::math::Vec2;

fn collider(kind: ColliderKind, x: i64) -> Collider {
    Collider {
        kind,
        body: Body { position: Vec2 { x, y: 0 }, size: Vec2 { x: 10, y: 10 } },
    }
}

#[test]
fn a_body_keeps_what_it_is_given() {
    let body = Body::new(Vec2::new(3, -4), Vec2::new(10, 20));
    assert_eq!(body.position, Vec2 { x: 3, y: -4 });
    assert_eq!(body.size, Vec2 { x: 10, y: 20 });
}

#[test]
fn a_brick_and_a_fail_zone_collide_as_what_they_are() {
    let body = Body::new(Vec2::new(1, 2), Vec2::new(3, 4));
    assert_eq!(Brick { body }.collider(), Collider { kind: ColliderKind::Brick, body });
    assert_eq!(FailZone { body }.collider(), Collider { kind: ColliderKind::FailZone, body });
}

#[test]
fn despawning_a_kind_keeps_the_others_in_order() {
    let mut colliders = vec![
        collider(ColliderKind::Wall, 0),
        collider(ColliderKind::Brick, 1),
        collider(ColliderKind::Wall, 2),
        collider(ColliderKind::FailZone, 3),
        collider(ColliderKind::Brick, 4),
        collider(ColliderKind::Paddle, 5),
    ];
    despawn_entities(&mut colliders, ColliderKind::Brick);
    assert_eq!(
        colliders,
        vec![
            collider(ColliderKind::Wall, 0),
            collider(ColliderKind::Wall, 2),
            collider(ColliderKind::FailZone, 3),
            collider(ColliderKind::Paddle, 5),
        ]
    );
    despawn_walls(&mut colliders);
    assert_eq!(
        colliders,
        vec![collider(ColliderKind::FailZone, 3), collider(ColliderKind::Paddle, 5)]
    );
}

#[test]
fn despawning_a_kind_that_is_not_there_changes_nothing() {
    let mut colliders = vec![collider(ColliderKind::Wall, 0), collider(ColliderKind::Wall, 1)];
    despawn_entities(&mut colliders, ColliderKind::Paddle);
    assert_eq!(colliders.len(), 2);
    despawn_walls(&mut colliders);
    assert!(colliders.is_empty());
    despawn_walls(&mut colliders);
    assert!(colliders.is_empty());
}
