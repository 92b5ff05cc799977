use bevy::ecs::entity::Entity;
use bevy::math::Vec3;
use lidar_scan::space::{
    lidar_new_points, shots_to_resolve, PointEntry, PointStorage, Space, VecStorage,
};
use std::collections::VecDeque;

fn handle(n: u32) -> Entity {
    Entity::from_raw(n)
}

fn at(n: u32) -> Vec3 {
    Vec3::new(n as f32, 0.5, -1.0)
}

fn entry(n: u32) -> PointEntry {
    PointEntry { position: at(n), handle: handle(n) }
}

fn hit(n: u32) -> Option<PointEntry> {
    Some(entry(n))
}

fn store(limit: usize) -> Space<VecStorage> {
    Space { accelerator: VecStorage { points: VecDeque::new(), limit } }
}

fn held(space: &Space<VecStorage>) -> Vec<Entity> {
    space.accelerator.points.iter().map(|entry| entry.handle).collect()
}

fn entries(space: &Space<VecStorage>) -> Vec<PointEntry> {
    space.accelerator.points.iter().copied().collect()
}

#[test]
fn fifo_eviction_gives_up_the_oldest_first() {
    let (a, b, c, d) = (handle(1), handle(2), handle(3), handle(4));
    let mut space = store(3);
    space.add_points(&[at(1), at(2), at(3)], &[a, b, c]);
    assert_eq!(space.trim(), vec![]);
    assert_eq!(held(&space), vec![a, b, c]);
    space.add_points(&[at(4)], &[d]);
    assert_eq!(space.trim(), vec![a]);
    assert_eq!(held(&space), vec![b, c, d]);
}

#[test]
fn zero_capacity_evicts_on_the_same_tick() {
    let x = handle(7);
    let mut space = store(0);
    space.add_points(&[at(7)], &[x]);
    assert_eq!(space.trim(), vec![x]);
    assert!(held(&space).is_empty());
}

#[test]
fn second_trim_in_a_row_evicts_nothing() {
    let mut space = store(2);
    space.add_points(&[at(1), at(2), at(3), at(4), at(5)], &[
        handle(1),
        handle(2),
        handle(3),
        handle(4),
        handle(5),
    ]);
    assert_eq!(space.trim(), vec![handle(1), handle(2), handle(3)]);
    assert_eq!(space.trim(), vec![]);
    assert_eq!(held(&space), vec![handle(4), handle(5)]);
}

#[test]
fn each_handle_keeps_its_position() {
    let mut space = store(2);
    space.add_points(&[at(10), at(20), at(30)], &[handle(1), handle(2), handle(3)]);
    assert_eq!(
        entries(&space),
        vec![
            PointEntry { position: at(10), handle: handle(1) },
            PointEntry { position: at(20), handle: handle(2) },
            PointEntry { position: at(30), handle: handle(3) },
        ]
    );
    assert_eq!(space.trim(), vec![handle(1)]);
    assert_eq!(
        entries(&space),
        vec![
            PointEntry { position: at(20), handle: handle(2) },
            PointEntry { position: at(30), handle: handle(3) },
        ]
    );
}

#[test]
fn trim_within_the_limit_changes_nothing() {
    let mut space = store(5);
    assert_eq!(space.trim(), vec![]);
    space.add_points(&[at(1), at(2)], &[handle(1), handle(2)]);
    assert_eq!(space.trim(), vec![]);
    assert_eq!(entries(&space), vec![entry(1), entry(2)]);
}

#[test]
fn trim_at_exactly_the_limit_changes_nothing() {
    let mut space = store(2);
    space.add_points(&[at(1), at(2)], &[handle(1), handle(2)]);
    assert_eq!(space.trim(), vec![]);
    assert_eq!(entries(&space), vec![entry(1), entry(2)]);
}

#[test]
fn add_keeps_everything_until_trimmed() {
    let mut space = store(1);
    space.add_points(&[at(1), at(2)], &[handle(1), handle(2)]);
    space.add_points(&[], &[]);
    space.add_points(&[at(3)], &[handle(3)]);
    assert_eq!(entries(&space), vec![entry(1), entry(2), entry(3)]);
}

#[test]
fn eviction_spans_ticks_oldest_first() {
    let mut space = store(3);
    space.add_points(&[at(1), at(2)], &[handle(1), handle(2)]);
    assert_eq!(space.trim(), vec![]);
    space.add_points(&[at(3), at(4), at(5)], &[handle(3), handle(4), handle(5)]);
    assert_eq!(space.trim(), vec![handle(1), handle(2)]);
    space.add_points(&[at(6)], &[handle(6)]);
    assert_eq!(space.trim(), vec![handle(3)]);
    assert_eq!(entries(&space), vec![entry(4), entry(5), entry(6)]);
}

#[test]
fn trimming_in_between_changes_nothing_in_the_end() {
    let first = [handle(1), handle(2), handle(3)];
    let first_at = [at(1), at(2), at(3)];
    let second = [handle(4), handle(5)];
    let second_at = [at(4), at(5)];

    let mut often = store(2);
    often.add_points(&first_at, &first);
    let mut gone = often.trim();
    often.add_points(&second_at, &second);
    gone.extend(often.trim());

    let mut once = store(2);
    once.add_points(&first_at, &first);
    once.add_points(&second_at, &second);

    assert_eq!(gone, once.trim());
    assert_eq!(gone, vec![handle(1), handle(2), handle(3)]);
    assert_eq!(entries(&often), entries(&once));
}

#[test]
fn storage_strategy_is_usable_on_its_own() {
    let mut storage = VecStorage { points: VecDeque::new(), limit: 1 };
    storage.add_points(&[at(1), at(2)], &[handle(1), handle(2)]);
    assert_eq!(storage.trim(), vec![handle(1)]);
    assert_eq!(storage.trim(), vec![]);
    assert_eq!(storage.points, VecDeque::from(vec![entry(2)]));
    assert_eq!(storage.limit, 1);
}

#[test]
fn recycled_handle_of_another_generation_is_another_handle() {
    let old = Entity::from_bits((1u64 << 32) | 9);
    let new = Entity::from_bits((2u64 << 32) | 9);
    let mut space = store(1);
    space.add_points(&[at(0), at(0)], &[old, new]);
    assert_eq!(space.trim(), vec![old]);
    assert_eq!(held(&space), vec![new]);
}

#[test]
fn shot_that_hits_nothing_is_discarded() {
    let mut space = store(2);
    space.add_points(&[at(1), at(2)], &[handle(1), handle(2)]);
    assert_eq!(lidar_new_points(&mut space, &[None]), vec![]);
    assert_eq!(entries(&space), vec![entry(1), entry(2)]);
    assert_eq!(lidar_new_points(&mut space, &[None, None, None]), vec![]);
    assert_eq!(entries(&space), vec![entry(1), entry(2)]);
}

#[test]
fn tick_without_shots_only_trims() {
    let mut space = store(1);
    space.add_points(&[at(1), at(2)], &[handle(1), handle(2)]);
    assert_eq!(lidar_new_points(&mut space, &[]), vec![handle(1)]);
    assert_eq!(entries(&space), vec![entry(2)]);
}

#[test]
fn hits_enter_in_resolution_order_and_misses_take_no_room() {
    let mut space = store(3);
    let resolved = [hit(1), None, hit(2), None, None, hit(3)];
    assert_eq!(lidar_new_points(&mut space, &resolved), vec![]);
    assert_eq!(entries(&space), vec![entry(1), entry(2), entry(3)]);
    let more = [None, hit(4), hit(5)];
    assert_eq!(lidar_new_points(&mut space, &more), vec![handle(1), handle(2)]);
    assert_eq!(entries(&space), vec![entry(3), entry(4), entry(5)]);
}

#[test]
fn hit_on_a_cloud_without_room_is_handed_back_at_once() {
    let mut space = store(0);
    let resolved = [hit(1), None, hit(2)];
    assert_eq!(lidar_new_points(&mut space, &resolved), vec![handle(1), handle(2)]);
    assert!(entries(&space).is_empty());
}

#[test]
fn more_hits_than_room_in_one_tick_keep_the_newest() {
    let mut space = store(2);
    space.add_points(&[at(9)], &[handle(9)]);
    let resolved = [hit(1), hit(2), hit(3)];
    assert_eq!(
        lidar_new_points(&mut space, &resolved),
        vec![handle(9), handle(1)]
    );
    assert_eq!(entries(&space), vec![entry(2), entry(3)]);
}

#[test]
fn tick_keeps_count_of_every_handle() {
    let mut space = store(4);
    space.add_points(&[at(1), at(2), at(3)], &[handle(1), handle(2), handle(3)]);
    let resolved = [hit(4), None, hit(5)];
    let despawn = lidar_new_points(&mut space, &resolved);
    assert_eq!(held(&space).len() + despawn.len(), 3 + 2);
    assert!(held(&space).len() <= 4);
    let mut all = despawn;
    all.extend(held(&space));
    assert_eq!(all, vec![handle(1), handle(2), handle(3), handle(4), handle(5)]);
}

#[test]
fn shots_to_resolve_is_capped_by_the_ceiling() {
    assert_eq!(shots_to_resolve(0, 0), 0);
    assert_eq!(shots_to_resolve(0, 10), 0);
    assert_eq!(shots_to_resolve(7, 0), 0);
    assert_eq!(shots_to_resolve(7, 10), 7);
    assert_eq!(shots_to_resolve(10, 10), 10);
    assert_eq!(shots_to_resolve(11, 10), 10);
    assert_eq!(shots_to_resolve(1_000_000, 250), 250);
    assert_eq!(shots_to_resolve(5, u32::MAX), 5);
    assert_eq!(shots_to_resolve(usize::MAX, u32::MAX), u32::MAX as usize);
}
