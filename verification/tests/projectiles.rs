use dodger::basics::{Point, Square};
use dodger::projectile::Projectile;
use rand::SeedableRng;
use rand_pcg::Pcg64;

fn square(x: i32, y: i32, size: u32) -> Square {
    Square { pos: Point { x, y }, size }
}

#[test]
fn clamp_triggers_exactly_when_extent_passes_the_edge() {
    // A projectile of size 3 at x = 157 on a field of width 160: the upper
    // bound is 157, so the very next step of +1 is blocked, the position
    // stays 157 and the direction flips sign on that frame.
    let mut p = Projectile {
        square: square(157, 10, 3),
        direction: Point { x: 1, y: 0 },
        bounced: false,
    };
    let over = p.mv();
    assert!(!over);
    assert_eq!(p.square.pos.x, 157);
    assert_eq!(p.direction.x, -1);
    assert!(p.bounced);
}

#[test]
fn step_moves_when_nothing_blocks() {
    let mut p = Projectile {
        square: square(80, 40, 6),
        direction: Point { x: 1, y: 0 },
        bounced: false,
    };
    let over = p.mv();
    assert!(!over);
    assert_eq!(p.square.pos.x, 81);
    assert_eq!(p.square.pos.y, 40);
    assert_eq!(p.direction.x, 1);
    assert!(!p.bounced);
}

#[test]
fn second_bounce_without_contact_signals_game_over() {
    let mut p = Projectile {
        square: square(157, 10, 3),
        direction: Point { x: 1, y: 0 },
        bounced: true,
    };
    let over = p.mv();
    assert!(over);
    // The blocked axis still reflected, and the box stayed clamped.
    assert_eq!(p.square.pos.x, 157);
    assert_eq!(p.direction.x, -1);
    assert!(p.bounced);
}

#[test]
fn bounced_projectile_that_moves_freely_does_not_end_the_game() {
    let mut p = Projectile {
        square: square(100, 10, 6),
        direction: Point { x: -1, y: 0 },
        bounced: true,
    };
    let over = p.mv();
    assert!(!over);
    assert_eq!(p.square.pos.x, 99);
    assert!(p.bounced);
}

#[test]
fn contact_rehomes_away_from_the_player_and_clears_bounced() {
    // Player center is 52+8 = 60; projectile center is 47+3 = 50 on x and
    // 52+3 = 55 on y. Offsets 10 and 5 scale down by ten to a direction of
    // (-1, 0), pointing away from the player.
    let player = square(52, 52, 16);
    let mut p = Projectile {
        square: square(47, 52, 6),
        direction: Point { x: 0, y: 1 },
        bounced: true,
    };
    p.update(&player);
    assert_eq!(p.direction.x, -1);
    assert_eq!(p.direction.y, 0);
    assert!(!p.bounced);
    assert_eq!(p.square.pos.x, 47);
}

#[test]
fn centered_player_freezes_the_projectile() {
    // Both centers at 58: the recomputed direction is zero, by design.
    let player = square(50, 50, 16);
    let mut p = Projectile {
        square: square(55, 55, 6),
        direction: Point { x: 1, y: 0 },
        bounced: true,
    };
    p.update(&player);
    assert_eq!(p.direction.x, 0);
    assert_eq!(p.direction.y, 0);
    assert!(!p.bounced);
}

#[test]
fn no_contact_leaves_the_projectile_unchanged() {
    let player = square(100, 100, 16);
    let mut p = Projectile {
        square: square(10, 10, 6),
        direction: Point { x: 1, y: 0 },
        bounced: true,
    };
    p.update(&player);
    assert_eq!(p.direction.x, 1);
    assert_eq!(p.direction.y, 0);
    assert!(p.bounced);
}

#[test]
fn spawned_projectile_never_overlaps_the_player() {
    let player = square(69, 69, 16);
    for seed in 0..50u64 {
        let mut rng = Pcg64::seed_from_u64(seed);
        let p = Projectile::new(&mut rng, &player);
        assert!(!p.square.overlaps(&player));
    }
}

#[test]
fn spawned_projectile_is_in_field_and_axis_aligned() {
    let player = square(0, 0, 16);
    for seed in 0..50u64 {
        let mut rng = Pcg64::seed_from_u64(seed);
        let p = Projectile::new(&mut rng, &player);
        assert_eq!(p.square.size, 6);
        assert!(0 <= p.square.pos.x && p.square.pos.x < 154);
        assert!(0 <= p.square.pos.y && p.square.pos.y < 154);
        assert!(!p.bounced);
        let d = p.direction;
        let axis_unit = (d.x == 0 && (d.y == 1 || d.y == -1))
            || (d.y == 0 && (d.x == 1 || d.x == -1));
        assert!(axis_unit);
    }
}

#[test]
fn spawning_is_deterministic_for_a_seed() {
    let player = square(69, 69, 16);
    let mut rng_a = Pcg64::seed_from_u64(7);
    let mut rng_b = Pcg64::seed_from_u64(7);
    let pa = Projectile::new(&mut rng_a, &player);
    let pb = Projectile::new(&mut rng_b, &player);
    assert_eq!(pa.square.pos.x, pb.square.pos.x);
    assert_eq!(pa.square.pos.y, pb.square.pos.y);
    assert_eq!(pa.direction.x, pb.direction.x);
    assert_eq!(pa.direction.y, pb.direction.y);
}
