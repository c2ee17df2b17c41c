use asteroids::game::Asteroid;
use asteroids::game::Bullet;
use asteroids::game::BulletSource;
use asteroids::game::Game;
use asteroids::game::GameState;
use asteroids::math::Vec2D;

const CENTER: Vec2D = Vec2D { x: 640_000_000, y: 360_000_000 };

fn far_stationary_asteroid() -> Asteroid {
    Asteroid {
        pos: Vec2D { x: 50_000_000, y: 50_000_000 },
        speed: Vec2D { x: 0, y: 0 },
        angle: 0,
        angle_speed: 0,
        size: 20_000_000,
        style: 5,
        dead: false,
    }
}

#[test]
fn new_game_spawns_level_two() {
    let game = Game::new(7);
    assert_eq!(game.lives, 4);
    assert_eq!(game.level, 2);
    assert_eq!(game.score, 0);
    assert_eq!(game.tick, 0);
    assert!(matches!(game.game_state, GameState::Running));
    assert!(game.bullets.is_empty());
    assert!(game.explosions.is_empty());
    assert!(game.ufo.is_none());
    assert_eq!(game.ship.pos, CENTER);
    assert_eq!(game.ship.speed, Vec2D { x: 0, y: 0 });
    assert!(!game.ship.dead);
    assert_eq!(game.asteroids.len(), 2);
    for a in game.asteroids.iter() {
        assert_eq!(a.size, 50_000_000);
        assert_eq!(a.style, 5);
        assert_eq!(a.angle_speed, 600_000);
        assert!(!a.dead);
        assert!(0 <= a.pos.x && a.pos.x < 1_280_000_000);
        assert!(0 <= a.pos.y && a.pos.y < 720_000_000);
        // placed at least 300 units from the ship's spawn point
        let dx = (a.pos.x - CENTER.x) as i128;
        let dy = (a.pos.y - CENTER.y) as i128;
        assert!(dx * dx + dy * dy > 300_000_000i128 * 300_000_000i128);
    }
}

#[test]
fn same_seed_same_game() {
    let g1 = Game::new(42);
    let g2 = Game::new(42);
    assert_eq!(g1.asteroids.len(), g2.asteroids.len());
    for (a, b) in g1.asteroids.iter().zip(g2.asteroids.iter()) {
        assert_eq!(a, b);
    }
}

#[test]
fn one_asteroid_scores_exactly_100_even_under_two_bullets() {
    let mut game = Game::new(3);
    let target_pos = Vec2D { x: 100_000_000, y: 100_000_000 };
    game.asteroids = vec![Asteroid {
        pos: target_pos,
        speed: Vec2D { x: 0, y: 0 },
        angle: 0,
        angle_speed: 0,
        size: 50_000_000,
        style: 5,
        dead: false,
    }];
    let bullet = Bullet {
        pos: target_pos,
        speed: Vec2D { x: 0, y: 0 },
        lifetime: 1_000,
        dead: false,
        source: BulletSource::Player,
    };
    game.bullets = vec![bullet, bullet];
    game.tick();
    // both bullets hit the same asteroid in the same tick: one kill
    assert_eq!(game.score, 100);
    assert!(game.bullets.is_empty());
    // the asteroid was above the minimum size, so it split in two
    assert_eq!(game.asteroids.len(), 2);
    assert_eq!(game.asteroids[0].size, 25_000_000);
    assert_eq!(game.asteroids[1].size, 25_000_000);
    assert_eq!(game.explosions.len(), 1);
    assert!(matches!(game.game_state, GameState::Running));
}

#[test]
fn minimum_size_asteroid_dies_without_children() {
    let mut game = Game::new(3);
    let target_pos = Vec2D { x: 100_000_000, y: 100_000_000 };
    let mut small = far_stationary_asteroid();
    small.pos = target_pos;
    game.asteroids = vec![small];
    game.bullets = vec![Bullet {
        pos: target_pos,
        speed: Vec2D { x: 0, y: 0 },
        lifetime: 1_000,
        dead: false,
        source: BulletSource::Player,
    }];
    game.tick();
    assert_eq!(game.score, 100);
    assert!(game.asteroids.is_empty());
    assert!(game.bullets.is_empty());
}

#[test]
fn respawn_consumes_a_life_and_recenters_the_ship() {
    let mut game = Game::new(1);
    game.game_state = GameState::Respawning;
    game.lives = 3;
    game.ship.dead = true;
    game.ship.pos = Vec2D { x: 1_000_000, y: 1_000_000 };
    game.ship.speed = Vec2D { x: 9_000_000, y: -9_000_000 };
    game.inputs.key_down(90, &game.config);
    game.tick();
    assert!(matches!(game.game_state, GameState::Running));
    assert_eq!(game.lives, 2);
    assert!(!game.ship.dead);
    assert_eq!(game.ship.pos, CENTER);
    assert_eq!(game.ship.speed, Vec2D { x: 0, y: 0 });
    assert_eq!(game.ship.angle, -1_570_796);
}

#[test]
fn respawning_without_lives_ends_the_game() {
    let mut game = Game::new(1);
    game.game_state = GameState::Respawning;
    game.lives = 0;
    let tick_before = game.tick;
    game.tick();
    assert!(matches!(game.game_state, GameState::GameOver));
    // the transition consumes the frame without simulating
    assert_eq!(game.tick, tick_before);
}

#[test]
fn game_over_only_exits_through_restart() {
    let mut game = Game::new(9);
    game.game_state = GameState::GameOver;
    game.lives = 0;
    game.score = 1_234;
    let tick_before = game.tick;
    game.tick();
    game.tick();
    game.tick();
    assert!(matches!(game.game_state, GameState::GameOver));
    assert_eq!(game.score, 1_234);
    assert_eq!(game.tick, tick_before);
    // holding Shoot restarts from scratch
    game.inputs.key_down(32, &game.config);
    game.tick();
    assert!(matches!(game.game_state, GameState::Running));
    assert_eq!(game.lives, 4);
    assert_eq!(game.level, 2);
    assert_eq!(game.score, 0);
    assert_eq!(game.tick, 0);
    assert_eq!(game.asteroids.len(), 2);
}

#[test]
fn bullet_expires_102_ticks_after_spawn() {
    let mut game = Game::new(5);
    game.asteroids = vec![far_stationary_asteroid()];
    game.inputs.key_down(90, &game.config);
    game.tick();
    assert_eq!(game.bullets.len(), 1);
    assert_eq!(game.bullets[0].lifetime, 103);
    game.inputs.key_up(90, &game.config);
    for _ in 0..101 {
        game.tick();
    }
    assert_eq!(game.tick, 102);
    assert_eq!(game.bullets.len(), 1);
    game.tick();
    assert!(game.bullets.is_empty());
}

#[test]
fn ramming_asteroid_kills_the_ship_and_splits() {
    let mut game = Game::new(8);
    // an asteroid sitting right on the ship
    game.asteroids = vec![Asteroid {
        pos: CENTER,
        speed: Vec2D { x: 0, y: 0 },
        angle: 0,
        angle_speed: 0,
        size: 50_000_000,
        style: 5,
        dead: false,
    }];
    let lives_before = game.lives;
    game.tick();
    assert!(matches!(game.game_state, GameState::Respawning));
    assert!(game.ship.dead);
    // dying does not consume a life yet; respawning does
    assert_eq!(game.lives, lives_before);
    // one explosion for the ship, one for the asteroid
    assert_eq!(game.explosions.len(), 2);
    // the rammed asteroid split like any other kill, without scoring
    assert_eq!(game.asteroids.len(), 2);
    assert_eq!(game.asteroids[0].size, 25_000_000);
    assert_eq!(game.asteroids[1].size, 25_000_000);
    assert_eq!(game.score, 0);
}

#[test]
fn firing_interval_limits_the_rate() {
    let mut game = Game::new(4);
    game.asteroids = vec![far_stationary_asteroid()];
    game.inputs.key_down(90, &game.config);
    for _ in 0..9 {
        game.tick();
    }
    // the trigger was held the whole time, yet the 0.15 s interval
    // (nine ticks) admits only the first shot
    assert_eq!(game.bullets.len(), 1);
    game.tick();
    assert_eq!(game.bullets.len(), 2);
}

#[test]
fn clearing_the_field_advances_the_level() {
    let mut game = Game::new(11);
    game.asteroids = vec![];
    game.tick();
    assert_eq!(game.level, 3);
    assert_eq!(game.asteroids.len(), 3);
    for a in game.asteroids.iter() {
        assert_eq!(a.size, 50_000_000);
        assert!(!a.dead);
    }
}
