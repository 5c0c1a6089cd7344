use interstellar::collider::{encode_user_data, intersections, ContactEdge};
use interstellar::Entity;
use rapier3d::prelude::{
    ActiveCollisionTypes, BroadPhase, ColliderBuilder, ColliderSet, CollisionPipeline, NarrowPhase,
    RigidBodySet, Vector,
};

fn overlapping_pairs(spheres: &[(Entity, [f32; 3], f32)]) -> Vec<(Entity, Entity)> {
    let mut pipeline = CollisionPipeline::new();
    let mut colliders = ColliderSet::new();
    let mut narrow_phase = NarrowPhase::new();
    let mut broad_phase = BroadPhase::new();
    let mut bodies = RigidBodySet::new();
    for (e, p, r) in spheres {
        let collider = ColliderBuilder::ball(*r)
            .sensor(true)
            .active_collision_types(ActiveCollisionTypes::FIXED_FIXED)
            .user_data(encode_user_data(*e))
            .translation(Vector::new(p[0], p[1], p[2]))
            .build();
        colliders.insert(collider);
    }
    pipeline.step(
        1000.0,
        &mut broad_phase,
        &mut narrow_phase,
        &mut bodies,
        &mut colliders,
        None,
        &(),
        &(),
    );
    let edges: Vec<ContactEdge> = narrow_phase
        .intersection_graph()
        .interactions_with_endpoints()
        .map(|(a, b, pair)| ContactEdge {
            first: colliders.get(a).map(|c| c.user_data),
            second: colliders.get(b).map(|c| c.user_data),
            intersecting: pair.intersecting,
        })
        .collect();
    intersections(&edges)
}

#[test]
fn close_spheres_are_reported() {
    let h1 = Entity::from_bits(11);
    let h2 = Entity::from_bits(22);
    let pairs = overlapping_pairs(&[(h1, [0.0, 0.0, 0.0], 1.0), (h2, [1.5, 0.0, 0.0], 1.0)]);
    assert!(pairs.contains(&(h1, h2)) || pairs.contains(&(h2, h1)));
}

#[test]
fn distant_spheres_are_not_reported() {
    let h1 = Entity::from_bits(11);
    let h2 = Entity::from_bits(22);
    let pairs = overlapping_pairs(&[(h1, [0.0, 0.0, 0.0], 1.0), (h2, [2.5, 0.0, 0.0], 1.0)]);
    assert!(!pairs.contains(&(h1, h2)) && !pairs.contains(&(h2, h1)));
}
