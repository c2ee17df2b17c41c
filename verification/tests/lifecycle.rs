use asteroids::game::Asteroid;
use asteroids::game::BulletSource;
use asteroids::game::Config;
use asteroids::game::Explosion;
use asteroids::game::Game;
use asteroids::game::Bullet;
use asteroids::game::UFO;
use asteroids::game::duration_ticks;
use asteroids::math::Vec2D;
use asteroids::rng::RNGSourceError;
use asteroids::rng::Rng;
use asteroids::rng::new_rng;
use asteroids::rng::rng_source_result;

#[test]
fn split_above_minimum_gives_two_half_size_children() {
    let config = Config::new();
    let parent = Asteroid {
        pos: Vec2D { x: 100_000_000, y: 200_000_000 },
        speed: Vec2D { x: 1_000_000, y: 0 },
        angle: 0,
        angle_speed: 600_000,
        size: 50_000_000,
        style: 5,
        dead: false,
    };
    let children = parent.split_off(&config);
    assert_eq!(children.len(), 2);
    assert_eq!(children[0].size, 25_000_000);
    assert_eq!(children[1].size, 25_000_000);
    // the offset runs along the parent's facing (angle 0: along x),
    // half the parent's size long, kicked into the velocities too
    assert_eq!(children[0].pos, Vec2D { x: 125_000_000, y: 200_000_000 });
    assert_eq!(children[1].pos, Vec2D { x: 75_000_000, y: 200_000_000 });
    assert_eq!(children[0].speed, Vec2D { x: 26_000_000, y: 0 });
    assert_eq!(children[1].speed, Vec2D { x: -24_000_000, y: 0 });
    assert!(!children[0].dead && !children[1].dead);
}

#[test]
fn split_at_minimum_gives_none() {
    let config = Config::new();
    let parent = Asteroid {
        pos: Vec2D { x: 0, y: 0 },
        speed: Vec2D { x: 0, y: 0 },
        angle: 0,
        angle_speed: 0,
        size: 20_000_000,
        style: 5,
        dead: false,
    };
    assert!(parent.split_off(&config).is_empty());
}

#[test]
fn asteroid_tick_moves_and_spins() {
    let config = Config::new();
    let mut a = Asteroid {
        pos: Vec2D { x: 10_000_000, y: 10_000_000 },
        speed: Vec2D { x: 60_000_000, y: 0 },
        angle: 0,
        angle_speed: 600_000,
        size: 50_000_000,
        style: 5,
        dead: false,
    };
    a.tick(&config);
    // 60 units/s for 1/60 s (16666 micro-seconds worth) and 0.6 rad/s
    assert_eq!(a.pos, Vec2D { x: 10_999_960, y: 10_000_000 });
    assert_eq!(a.angle, 9_999);
}

#[test]
fn bullet_tick_wraps_around_the_field() {
    let config = Config::new();
    let mut b = Bullet {
        pos: Vec2D { x: 1_279_999_000, y: 10_000_000 },
        speed: Vec2D { x: 400_000_000, y: 0 },
        lifetime: 100,
        dead: false,
        source: BulletSource::Player,
    };
    b.tick(&config);
    // 400 units/s moves 6.6664 units per tick, wrapping across the edge
    assert_eq!(b.pos, Vec2D { x: 6_665_400, y: 10_000_000 });
}

#[test]
fn player_bullet_spawns_at_the_nose() {
    let game = Game::new(6);
    let b = Bullet::new(&game, BulletSource::Player);
    // the ship faces up: 20 units ahead of the center
    assert_eq!(b.pos, Vec2D { x: 640_000_000, y: 340_000_000 });
    assert_eq!(b.speed, Vec2D { x: 0, y: -400_000_000 });
    assert_eq!(b.lifetime, 102);
    assert!(!b.dead);
    assert!(matches!(b.source, BulletSource::Player));
}

#[test]
fn explosion_expires_18_ticks_later() {
    let config = Config::new();
    let e = Explosion::new(Vec2D { x: 1, y: 2 }, 40, &config);
    assert_eq!(e.start_tick, 40);
    assert_eq!(e.lifetime, 58);
}

#[test]
fn duration_tick_counts() {
    assert_eq!(duration_ticks(1_700_000, 16_666), 102);
    assert_eq!(duration_ticks(150_000, 16_666), 9);
    assert_eq!(duration_ticks(300_000, 16_666), 18);
    assert_eq!(duration_ticks(0, 16_666), 0);
}

#[test]
fn ufo_tick_is_inert() {
    let mut ufo = UFO {};
    ufo.tick();
}

#[test]
fn rng_is_deterministic_and_in_range() {
    let mut r1 = Rng::new(7);
    let mut r2 = Rng::new(7);
    for _ in 0..100 {
        let a = r1.next_unit();
        let b = r2.next_unit();
        assert_eq!(a, b);
        assert!(0 <= a && a < 1_000_000);
    }
}

#[test]
fn rng_first_sample_from_seed_seven() {
    let mut r = Rng::new(7);
    assert_eq!(r.next_unit(), 888_327);
    assert_eq!(r.state, 7_575_888_327);
}

#[test]
fn rng_zero_seed_is_replaced() {
    let r = Rng::new(0);
    assert_eq!(r.state, 0x9E37_79B9_7F4A_7C15);
}

#[test]
fn rng_source_codes() {
    assert!(rng_source_result(0).is_ok());
    assert!(matches!(rng_source_result(1), Err(RNGSourceError::RangeError)));
    assert!(matches!(rng_source_result(2), Err(RNGSourceError::QuotaError)));
    assert!(matches!(rng_source_result(7), Err(RNGSourceError::UnknownError)));
}

#[test]
fn seeding_needs_eight_bytes() {
    let short: Vec<u8> = vec![1, 2, 3, 4, 5, 6, 7];
    assert!(matches!(new_rng(&short), Err(RNGSourceError::RangeError)));
    let enough: Vec<u8> = vec![1, 2, 3, 4, 5, 6, 7, 8];
    let rng = new_rng(&enough).unwrap();
    // the first eight bytes fold little-endian into the seed
    assert_eq!(rng.state, 578_437_695_752_307_201);
}
