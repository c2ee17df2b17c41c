//! The game aggregate: configuration, entity types, spawn rules, and
//! the state machine behind the per-frame tick.

use vstd::prelude::*;
use crate::fixed::SCALE;
use crate::fixed::QUARTER;
use crate::fixed::TURN;
use crate::fixed::spec_add;
use crate::fixed::spec_fmul;
use crate::fixed::spec_fdiv;
use crate::fixed::tdiv;
use crate::fixed::fmul;
use crate::fixed::fdiv;
use crate::math::Vec2D;
use crate::math::spec_vadd;
use crate::math::spec_vsub;
use crate::math::spec_scale;
use crate::math::spec_rotate;
use crate::math::spec_len;
use crate::math::spec_clip;
use crate::geom::spec_circle_point;
use crate::geom::spec_circle_triangle;
use crate::geom::test_circle_point;
use crate::geom::test_circle_triangle;
use crate::input::Inputs;
use crate::input::InputIndex;
use crate::input::spec_inputs_new;
use crate::input::spec_inputs_tick;
use crate::input::spec_been_pressed;
use crate::input::spec_is_down;
use crate::input::spec_flag;
use crate::ship::Ship;
use crate::ship::spec_ship_step;
use crate::rng::Rng;
use crate::collide::spec_live_bullets;
use crate::collide::spec_live_explosions;
use crate::collide::spec_step_asteroids;
use crate::collide::spec_step_bullets;
use crate::collide::spec_ab_survivors;
use crate::collide::spec_ab_children;
use crate::collide::spec_ab_explosions;
use crate::collide::spec_ab_hit_count;
use crate::collide::spec_kept_bullets;
use crate::collide::spec_first_ship_hit;
use crate::collide::retain_live_bullets;
use crate::collide::retain_live_explosions;
use crate::collide::step_asteroids;
use crate::collide::step_bullets;
use crate::collide::collide_asteroids_bullets;
use crate::collide::find_ship_hit;
use crate::collide::remove_with_children;
use crate::fixed::sat_u64;
use crate::fixed::sat_add_u64;

verus! {

/// Ticks stay below this bound (a quarter of the `u64` range), so every
/// deadline computed as `tick + duration` fits comfortably in a `u64`.
/// At sixty frames a second the bound is past two billion years.
pub const TICK_LIMIT: u64 = 4_611_686_018_427_387_904;

/// Levels stay below this bound, so a level increment cannot overflow
/// and a level's worth of asteroids fits in a vector.
pub const LEVEL_LIMIT: usize = 100_000_000;

/// Newly spawned asteroids keep at least this distance (300 units) from
/// the ship.
pub const SPAWN_MIN_DIST: i64 = 300_000_000;

/// The simulation constants and key bindings: created once at game
/// start, read-only during a tick.
pub struct Config {
    pub acceleration: i64,
    pub speed_limit: i64,
    pub drag: i64,
    pub explosion_life: i64,
    pub angular_accel: i64,
    pub angular_limit: i64,
    pub angular_drag: i64,
    pub bullet_interval: i64,
    pub bullet_speed: i64,
    pub bullet_lifetime: i64,
    pub delta_t: i64,
    pub asteroid_min_size: i64,
    pub field_size: Vec2D,
    pub key_binds: Vec<(u32, InputIndex)>,
}

/// The default key bindings: Z and Space shoot, the arrow keys steer.
pub open spec fn spec_default_binds() -> Seq<(u32, InputIndex)> {
    seq![
        (90u32, InputIndex::Shoot),
        (32u32, InputIndex::Shoot),
        (38u32, InputIndex::Forward),
        (40u32, InputIndex::Backward),
        (37u32, InputIndex::Left),
        (39u32, InputIndex::Right),
    ]
}

/// Whether a configuration carries the default constants.
pub open spec fn spec_config_default(c: Config) -> bool {
    &&& c.acceleration == 250_000_000i64
    &&& c.speed_limit == 1_000_000_000i64
    &&& c.drag == 5i64
    &&& c.explosion_life == 300_000i64
    &&& c.angular_accel == 30_000_000i64
    &&& c.angular_limit == 4_000_000i64
    &&& c.angular_drag == 8_000_000i64
    &&& c.bullet_interval == 150_000i64
    &&& c.bullet_speed == 400_000_000i64
    &&& c.bullet_lifetime == 1_700_000i64
    &&& c.delta_t == 16_666i64
    &&& c.asteroid_min_size == 20_000_000i64
    &&& c.field_size == (Vec2D { x: 1_280_000_000i64, y: 720_000_000i64 })
    &&& c.key_binds@ == spec_default_binds()
}

/// The center of the playing field, where the ship spawns.
pub open spec fn spec_field_center(c: Config) -> Vec2D {
    spec_scale(c.field_size, 500_000)
}

/// Whether a position keeps the spawn distance from a reference point.
pub open spec fn spec_is_far(p: Vec2D, q: Vec2D) -> bool {
    spec_len(spec_vsub(p, q)) > SPAWN_MIN_DIST
}

impl Config {
    /// The machine-level conditions the simulation needs of a
    /// configuration: a positive time step, a positive field, and
    /// nonnegative durations, so deadlines computed from them are
    /// nonnegative tick counts.
    pub open spec fn wf(&self) -> bool {
        &&& self.delta_t > 0
        &&& self.field_size.x > 0
        &&& self.field_size.y > 0
        &&& self.bullet_interval >= 0
        &&& self.bullet_lifetime >= 0
        &&& self.explosion_life >= 0
    }

    /// The default configuration.
    pub fn new() -> (r: Config)
        ensures
            spec_config_default(r),
            r.wf(),
    {
        let mut key_binds: Vec<(u32, InputIndex)> = Vec::new();
        key_binds.push((90, InputIndex::Shoot));
        key_binds.push((32, InputIndex::Shoot));
        key_binds.push((38, InputIndex::Forward));
        key_binds.push((40, InputIndex::Backward));
        key_binds.push((37, InputIndex::Left));
        key_binds.push((39, InputIndex::Right));
        proof {
            assert(key_binds@ =~= spec_default_binds());
        }
        Config {
            acceleration: 250_000_000,
            speed_limit: 1_000_000_000,
            drag: 5,
            explosion_life: 300_000,
            angular_accel: 30_000_000,
            angular_limit: 4_000_000,
            angular_drag: 8_000_000,
            bullet_interval: 150_000,
            bullet_speed: 400_000_000,
            bullet_lifetime: 1_700_000,
            delta_t: 16_666,
            asteroid_min_size: 20_000_000,
            field_size: Vec2D { x: 1_280_000_000, y: 720_000_000 },
            key_binds,
        }
    }

    /// Find the logical action bound to a raw key code: the first
    /// matching binding wins, and unmapped codes yield nothing.
    pub fn lookup_input_key(&self, code: u32) -> (r: Option<InputIndex>)
        ensures
            r.is_none() ==> forall|k: int|
                0 <= k < self.key_binds@.len() ==> (#[trigger] self.key_binds@[k]).0 != code,
            r.is_some() ==> exists|j: int|
                0 <= j < self.key_binds@.len() && (#[trigger] self.key_binds@[j]).0 == code && r
                    == Some(self.key_binds@[j].1) && forall|k: int|
                    0 <= k < j ==> (#[trigger] self.key_binds@[k]).0 != code,
    {
        let mut i: usize = 0;
        while i < self.key_binds.len()
            invariant
                0 <= i <= self.key_binds@.len(),
                forall|k: int| 0 <= k < i ==> (#[trigger] self.key_binds@[k]).0 != code,
            decreases self.key_binds@.len() - i,
        {
            let (key, val) = self.key_binds[i];
            if key == code {
                return Some(val);
            }
            i += 1;
        }
        None
    }
}

/// Who fired a bullet. The UFO variant is a reserved extension point;
/// current logic only ever fires player bullets.
#[derive(Clone, Copy, Debug, PartialEq, Eq, Structural)]
pub enum BulletSource {
    Player,
    UFO,
}

/// A bullet in flight. `lifetime` is the absolute tick at which it
/// expires.
#[derive(Clone, Copy, Debug, PartialEq, Eq, Structural)]
pub struct Bullet {
    pub pos: Vec2D,
    pub speed: Vec2D,
    pub lifetime: u64,
    pub dead: bool,
    pub source: BulletSource,
}

/// The number of whole ticks in a fixed-point duration.
pub open spec fn spec_duration_ticks(d: i64, dt: i64) -> u64 {
    ((spec_fdiv(d, dt) as u64) / (SCALE as u64)) as u64
}

/// The number of whole ticks in a fixed-point duration, executable.
pub fn duration_ticks(d: i64, dt: i64) -> (r: u64)
    requires
        d >= 0,
        dt > 0,
    ensures
        r == spec_duration_ticks(d, dt),
        r <= 9_223_372_036_854u64,
{
    let q = fdiv(d, dt);
    proof {
        vstd::arithmetic::div_mod::lemma_div_pos_is_pos((d as int) * (SCALE as int), dt as int);
        assert(9_223_372_036_854_775_807int == 9_223_372_036_854int * 1_000_000int + 775_807int)
            by (nonlinear_arith);
        vstd::arithmetic::div_mod::lemma_fundamental_div_mod_converse_div(
            9_223_372_036_854_775_807int,
            1_000_000int,
            9_223_372_036_854int,
            775_807int,
        );
        vstd::arithmetic::div_mod::lemma_div_is_ordered(
            q as int,
            9_223_372_036_854_775_807int,
            1_000_000int,
        );
    }
    (q as u64) / (SCALE as u64)
}

/// A bullet one step after firing from the ship's nose: 20 units ahead,
/// flying along the facing at the configured bullet speed, expiring a
/// bullet lifetime from now.
pub open spec fn spec_new_bullet(ship: Ship, tick: u64, c: Config, source: BulletSource) -> Bullet {
    let direction = spec_rotate(Vec2D { x: SCALE as i64, y: 0i64 }, ship.angle);
    Bullet {
        pos: spec_vadd(ship.pos, spec_scale(direction, 20_000_000)),
        speed: spec_scale(direction, c.bullet_speed),
        lifetime: (tick + spec_duration_ticks(c.bullet_lifetime, c.delta_t)) as u64,
        dead: false,
        source,
    }
}

/// A bullet's per-tick motion: straight flight, wrapped into the field.
pub open spec fn spec_bullet_step(b: Bullet, c: Config) -> Bullet {
    Bullet { pos: spec_clip(spec_vadd(b.pos, spec_scale(b.speed, c.delta_t)), c.field_size), ..b }
}

impl Bullet {
    /// Integrate this bullet's position by one tick.
    pub fn tick(&mut self, config: &Config)
        requires
            config.wf(),
        ensures
            *final(self) == spec_bullet_step(*old(self), *config),
    {
        self.pos = self.pos.add(self.speed.scale(config.delta_t));
        self.pos.clip(&config.field_size);
    }

    /// Fire a bullet from the game's ship.
    pub fn new(game: &Game, source: BulletSource) -> (r: Bullet)
        requires
            game.config.wf(),
            game.tick <= TICK_LIMIT,
        ensures
            r == spec_new_bullet(game.ship, game.tick, game.config, source),
    {
        let ship = &game.ship;
        let config = &game.config;
        let direction = Vec2D::one().rotate(ship.angle);
        Bullet {
            pos: ship.pos.add(direction.scale(20_000_000)),
            speed: direction.scale(config.bullet_speed),
            lifetime: game.tick + duration_ticks(config.bullet_lifetime, config.delta_t),
            dead: false,
            source,
        }
    }
}

/// A drifting asteroid; `size` is both its visual scale and its hit
/// radius, and `style` its polygon vertex count.
#[derive(Clone, Copy, Debug, PartialEq, Eq, Structural)]
pub struct Asteroid {
    pub pos: Vec2D,
    pub speed: Vec2D,
    pub angle: i64,
    pub angle_speed: i64,
    pub size: i64,
    pub style: usize,
    pub dead: bool,
}

/// An asteroid's per-tick motion: straight drift wrapped into the
/// field, spinning at its angular speed.
pub open spec fn spec_asteroid_step(a: Asteroid, c: Config) -> Asteroid {
    Asteroid {
        pos: spec_clip(spec_vadd(a.pos, spec_scale(a.speed, c.delta_t)), c.field_size),
        angle: spec_add(a.angle, spec_fmul(a.angle_speed, c.delta_t)),
        ..a
    }
}

/// The two children of a split: half the parent's size, pushed apart
/// along the parent's facing by half the parent's size, with the same
/// offset kicked into their velocities.
pub open spec fn spec_split_children(a: Asteroid, c: Config) -> Seq<Asteroid> {
    if a.size > c.asteroid_min_size {
        let half = spec_fmul(a.size, 500_000);
        let offset = spec_scale(spec_rotate(Vec2D { x: SCALE as i64, y: 0i64 }, a.angle), half);
        let child0 = Asteroid {
            pos: spec_vadd(a.pos, offset),
            speed: spec_vadd(a.speed, offset),
            size: half,
            ..a
        };
        let child1 = Asteroid {
            pos: spec_vsub(a.pos, offset),
            speed: spec_vsub(a.speed, offset),
            size: half,
            ..a
        };
        seq![child0, child1]
    } else {
        Seq::empty()
    }
}

impl Asteroid {
    /// Integrate this asteroid's position and spin by one tick.
    pub fn tick(&mut self, config: &Config)
        requires
            config.wf(),
        ensures
            *final(self) == spec_asteroid_step(*old(self), *config),
    {
        self.pos = self.pos.add(self.speed.scale(config.delta_t));
        self.pos.clip(&config.field_size);
        self.angle = crate::fixed::sat_add(self.angle, fmul(self.angle_speed, config.delta_t));
    }

    /// Split this asteroid: exactly two half-size children while it is
    /// above the minimum size, none once at or below it.
    pub fn split_off(&self, config: &Config) -> (r: Vec<Asteroid>)
        ensures
            r@ == spec_split_children(*self, *config),
            self.size > config.asteroid_min_size ==> r@.len() == 2,
            self.size <= config.asteroid_min_size ==> r@.len() == 0,
    {
        let mut rv: Vec<Asteroid> = Vec::new();
        if self.size > config.asteroid_min_size {
            let half = fmul(self.size, 500_000);
            let offset = Vec2D::one().rotate(self.angle).scale(half);
            let mut copy0 = *self;
            let mut copy1 = *self;
            copy0.size = half;
            copy1.size = half;
            copy0.pos = copy0.pos.add(offset);
            copy1.pos = copy1.pos.sub(offset);
            copy0.speed = copy0.speed.add(offset);
            copy1.speed = copy1.speed.sub(offset);
            rv.push(copy0);
            rv.push(copy1);
        }
        proof {
            assert(rv@ =~= spec_split_children(*self, *config));
        }
        rv
    }
}

/// Splitting: an asteroid above the minimum size splits into exactly
/// two children of exactly half its size (truncated toward zero); one
/// at or below the minimum size splits into none.
pub proof fn lemma_split_halves(a: Asteroid, c: Config)
    ensures
        a.size > c.asteroid_min_size ==> {
            &&& spec_split_children(a, c).len() == 2
            &&& spec_split_children(a, c)[0].size == tdiv(a.size as int, 2)
            &&& spec_split_children(a, c)[1].size == tdiv(a.size as int, 2)
        },
        a.size <= c.asteroid_min_size ==> spec_split_children(a, c).len() == 0,
{
    if a.size > c.asteroid_min_size {
        let s = a.size as int;
        assert(spec_fmul(a.size, 500_000) == tdiv(s, 2)) by {
            if s >= 0 {
                assert(s * 500_000 == 500_000 * s) by (nonlinear_arith);
                vstd::arithmetic::div_mod::lemma_div_denominator(s * 500_000, 500_000, 2);
                vstd::arithmetic::div_mod::lemma_div_multiples_vanish(s, 500_000);
            } else {
                assert(-(s * 500_000) == (-s) * 500_000 && -(s * 500_000) == 500_000 * (-s))
                    by (nonlinear_arith);
                vstd::arithmetic::div_mod::lemma_div_denominator((-s) * 500_000, 500_000, 2);
                vstd::arithmetic::div_mod::lemma_div_multiples_vanish(-s, 500_000);
            }
        }
    }
}

/// The unidentified flying object: a scaffolded extension point whose
/// behavior is entirely inert.
#[derive(Clone, Copy, Debug, PartialEq, Eq, Structural)]
pub struct UFO {}

impl UFO {
    /// The UFO does nothing, yet.
    pub fn tick(&mut self)
        ensures
            *final(self) == *old(self),
    {
    }
}

/// A purely decorative explosion: spawned on a destruction, it expires
/// on its own and collides with nothing.
#[derive(Clone, Copy, Debug, PartialEq, Eq, Structural)]
pub struct Explosion {
    pub pos: Vec2D,
    pub start_tick: u64,
    pub lifetime: u64,
}

/// The explosion spawned at a position on a given tick.
pub open spec fn spec_new_explosion(pos: Vec2D, tick: u64, c: Config) -> Explosion {
    Explosion {
        pos,
        start_tick: tick,
        lifetime: (tick + spec_duration_ticks(c.explosion_life, c.delta_t)) as u64,
    }
}

impl Explosion {
    /// Spawn an explosion at a position, expiring an explosion lifetime
    /// from now.
    pub fn new(pos: Vec2D, tick: u64, config: &Config) -> (r: Explosion)
        requires
            config.wf(),
            tick <= TICK_LIMIT,
        ensures
            r == spec_new_explosion(pos, tick, *config),
    {
        Explosion {
            pos,
            start_tick: tick,
            lifetime: tick + duration_ticks(config.explosion_life, config.delta_t),
        }
    }
}

/// The phase the game is in: simulating, waiting for a respawn, or
/// waiting for a restart.
#[derive(Clone, Copy, Debug, PartialEq, Eq, Structural)]
pub enum GameState {
    Running,
    Respawning,
    GameOver,
}

/// Whether an asteroid's hit circle covers a bullet's position.
pub open spec fn spec_hit_asteroid_bullet(asteroid: Asteroid, bullet: Bullet) -> bool {
    spec_circle_point(asteroid.pos, asteroid.size, bullet.pos)
}

pub(crate) fn collide_asteroid_bullet(asteroid: &Asteroid, bullet: &Bullet) -> (r: bool)
    ensures
        r == spec_hit_asteroid_bullet(*asteroid, *bullet),
{
    test_circle_point(asteroid.pos, asteroid.size, bullet.pos)
}

/// The ship's hull: a three-point silhouette, doubled by the 2.2 hull
/// scale and turned to the ship's facing around its position.
pub open spec fn spec_ship_hull_point(ship: Ship, p: Vec2D) -> Vec2D {
    spec_vadd(ship.pos, spec_rotate(spec_scale(p, 2_200_000), ship.angle))
}

/// Whether an asteroid's hit circle touches the ship's hull triangle.
pub open spec fn spec_hit_asteroid_ship(asteroid: Asteroid, ship: Ship) -> bool {
    spec_circle_triangle(
        asteroid.pos,
        asteroid.size,
        spec_ship_hull_point(ship, Vec2D { x: 10_000_000i64, y: 0i64 }),
        spec_ship_hull_point(ship, Vec2D { x: -10_000_000i64, y: -5_000_000i64 }),
        spec_ship_hull_point(ship, Vec2D { x: -10_000_000i64, y: 5_000_000i64 }),
    )
}

pub(crate) fn collide_asteroid_ship(asteroid: &Asteroid, ship: &Ship) -> (r: bool)
    ensures
        r == spec_hit_asteroid_ship(*asteroid, *ship),
{
    let p0 = Vec2D { x: 10_000_000, y: 0 };
    let p1 = Vec2D { x: -10_000_000, y: -5_000_000 };
    let p2 = Vec2D { x: -10_000_000, y: 5_000_000 };
    let t0 = ship.pos.add(p0.scale(2_200_000).rotate(ship.angle));
    let t1 = ship.pos.add(p1.scale(2_200_000).rotate(ship.angle));
    let t2 = ship.pos.add(p2.scale(2_200_000).rotate(ship.angle));
    test_circle_triangle(asteroid.pos, asteroid.size, t0, t1, t2)
}

/// A ship-bullet collision: a scaffolded extension point, never a hit.
fn collide_ship_bullet(ship: &Ship, bullet: &Bullet) -> (r: bool)
    ensures
        !r,
{
    false
}

/// A UFO-bullet collision: a scaffolded extension point, never a hit.
fn collide_ufo_bullet(ufo: &UFO, bullet: &Bullet) -> (r: bool)
    ensures
        !r,
{
    false
}

/// An asteroid-UFO collision: a scaffolded extension point, never a
/// hit.
fn collide_asteroid_ufo(asteroid: &Asteroid, ufo: &UFO) -> (r: bool)
    ensures
        !r,
{
    false
}

/// A ship-UFO collision: a scaffolded extension point, never a hit.
fn collide_ship_ufo(ship: &Ship, ufo: &Option<UFO>) -> (r: bool)
    ensures
        !r,
{
    false
}

/// The aggregate root: all entities, the configuration, the input
/// tracker and the generator, advanced one fixed step per `tick` call.
pub struct Game {
    pub game_state: GameState,
    pub ship: Ship,
    pub ufo: Option<UFO>,
    pub ufo_spawn_tick: u64,
    pub lives: u64,
    pub level: usize,
    pub score: u64,
    pub tick: u64,
    pub next_bullet_tick: u64,
    pub explosions: Vec<Explosion>,
    pub bullets: Vec<Bullet>,
    pub asteroids: Vec<Asteroid>,
    pub inputs: Inputs,
    pub config: Config,
    pub rng: Rng,
}

/// A freshly spawned asteroid: full size, five-sided, slowly spinning,
/// alive, drifting at 100 units per second along its random facing, and
/// placed inside the field at spawn distance from the ship.
pub open spec fn spec_spawned_asteroid(a: Asteroid, center: Vec2D, c: Config) -> bool {
    &&& a.size == 50_000_000i64
    &&& a.style == 5usize
    &&& a.angle_speed == 600_000i64
    &&& !a.dead
    &&& 0 <= a.angle < TURN
    &&& a.speed == spec_rotate(Vec2D { x: 100_000_000i64, y: 0i64 }, a.angle)
    &&& 0 <= a.pos.x < c.field_size.x
    &&& 0 <= a.pos.y < c.field_size.y
    &&& spec_is_far(a.pos, center)
}

impl Game {
    /// The conditions every reachable game state maintains: a usable
    /// configuration, a field wide enough to place asteroids away from
    /// its center, headroom on the tick and level counters, and no dead
    /// entity carried across a tick boundary.
    pub open spec fn wf(&self) -> bool {
        &&& self.config.wf()
        &&& spec_is_far(Vec2D { x: 0i64, y: 0i64 }, spec_field_center(self.config))
        &&& self.tick < TICK_LIMIT
        &&& self.level < LEVEL_LIMIT
        &&& self.asteroids@.len() < 1_000_000_000
        &&& forall|i: int|
            0 <= i < self.asteroids@.len() ==> !(#[trigger] self.asteroids@[i]).dead
        &&& forall|i: int| 0 <= i < self.bullets@.len() ==> !(#[trigger] self.bullets@[i]).dead
    }

    /// A fresh game: four lives, level two, nothing scored, running,
    /// the ship centered at rest facing up, and a level's worth of
    /// freshly spawned asteroids.
    pub open spec fn spec_fresh(g: Game) -> bool {
        &&& g.game_state == GameState::Running
        &&& g.lives == 4u64
        &&& g.level == 2usize
        &&& g.score == 0u64
        &&& g.tick == 0u64
        &&& g.next_bullet_tick == 0u64
        &&& g.ufo is None
        &&& g.ufo_spawn_tick == u64::MAX
        &&& g.explosions@.len() == 0
        &&& g.bullets@.len() == 0
        &&& spec_config_default(g.config)
        &&& g.inputs == spec_inputs_new()
        &&& g.ship.pos == spec_field_center(g.config)
        &&& g.ship.speed == (Vec2D { x: 0i64, y: 0i64 })
        &&& g.ship.angle == -QUARTER
        &&& g.ship.angular_speed == 0i64
        &&& !g.ship.dead
        &&& g.asteroids@.len() == g.level
        &&& forall|i: int|
            0 <= i < g.asteroids@.len() ==> spec_spawned_asteroid(
                #[trigger] g.asteroids@[i],
                spec_field_center(g.config),
                g.config,
            )
    }

    /// Build a fresh game from one draw of host entropy.
    pub fn new(seed: u64) -> (r: Game)
        ensures
            Game::spec_fresh(r),
            r.wf(),
    {
        let mut game = Game {
            tick: 0,
            lives: 4,
            level: 2,
            score: 0,
            game_state: GameState::Running,
            next_bullet_tick: 0,
            ship: Ship::new(),
            ufo: None,
            ufo_spawn_tick: u64::MAX,
            explosions: Vec::new(),
            bullets: Vec::new(),
            asteroids: Vec::new(),
            inputs: Inputs::new(),
            config: Config::new(),
            rng: Rng::new(seed),
        };
        proof {
            assert(1_280_000_000int * 500_000int == 640_000_000int * 1_000_000int)
                by (nonlinear_arith);
            assert(720_000_000int * 500_000int == 360_000_000int * 1_000_000int)
                by (nonlinear_arith);
            crate::fixed::lemma_fmul_exact(1_280_000_000i64, 500_000i64, 640_000_000i64);
            crate::fixed::lemma_fmul_exact(720_000_000i64, 500_000i64, 360_000_000i64);
            let center = spec_field_center(game.config);
            assert(center == (Vec2D { x: 640_000_000i64, y: 360_000_000i64 }));
            let d = spec_vsub(Vec2D { x: 0i64, y: 0i64 }, center);
            assert(d == (Vec2D { x: -640_000_000i64, y: -360_000_000i64 }));
            assert((-640_000_000int) * (-640_000_000int) == 409_600_000_000_000_000int)
                by (nonlinear_arith);
            assert((-360_000_000int) * (-360_000_000int) == 129_600_000_000_000_000int)
                by (nonlinear_arith);
            assert(crate::math::spec_len2(d) == 539_200_000_000_000_000int);
            crate::math::lemma_isqrt_is(539_200_000_000_000_000int, 734_302_390int);
        }
        game.spawn_level();
        game
    }

    /// Place the ship at the field center facing up, at rest, and add a
    /// level's worth of freshly spawned asteroids.
    pub fn spawn_level(&mut self)
        requires
            old(self).config.wf(),
            spec_is_far(Vec2D { x: 0i64, y: 0i64 }, spec_field_center(old(self).config)),
            old(self).level <= LEVEL_LIMIT,
            old(self).asteroids@.len() < 1_000_000_000,
        ensures
            final(self).ship == (Ship {
                pos: spec_field_center(old(self).config),
                speed: Vec2D { x: 0i64, y: 0i64 },
                angle: (-QUARTER) as i64,
                ..old(self).ship
            }),
            final(self).asteroids@.len() == old(self).asteroids@.len() + old(self).level,
            forall|i: int|
                0 <= i < old(self).asteroids@.len() ==> final(self).asteroids@[i] == old(
                    self,
                ).asteroids@[i],
            forall|i: int|
                old(self).asteroids@.len() <= i < final(self).asteroids@.len()
                    ==> spec_spawned_asteroid(
                    #[trigger] final(self).asteroids@[i],
                    spec_field_center(old(self).config),
                    old(self).config,
                ),
            final(self).game_state == old(self).game_state,
            final(self).lives == old(self).lives,
            final(self).level == old(self).level,
            final(self).score == old(self).score,
            final(self).tick == old(self).tick,
            final(self).next_bullet_tick == old(self).next_bullet_tick,
            final(self).ufo == old(self).ufo,
            final(self).ufo_spawn_tick == old(self).ufo_spawn_tick,
            final(self).explosions == old(self).explosions,
            final(self).bullets == old(self).bullets,
            final(self).inputs == old(self).inputs,
            final(self).config == old(self).config,
    {
        let field_size = self.config.field_size;
        self.ship.pos = field_size.scale(500_000);
        self.ship.speed = Vec2D::zero();
        self.ship.angle = -QUARTER;

        let ghost orig = self.asteroids@;
        let center = self.ship.pos;
        let mut i: usize = 0;
        while i < self.level
            invariant
                0 <= i <= self.level,
                self.level <= LEVEL_LIMIT,
                orig.len() < 1_000_000_000,
                self.config.wf(),
                field_size == self.config.field_size,
                center == spec_field_center(self.config),
                spec_is_far(Vec2D { x: 0i64, y: 0i64 }, center),
                self.asteroids@.len() == orig.len() + i,
                forall|k: int| 0 <= k < orig.len() ==> self.asteroids@[k] == orig[k],
                forall|k: int|
                    orig.len() <= k < self.asteroids@.len() ==> spec_spawned_asteroid(
                        #[trigger] self.asteroids@[k],
                        center,
                        self.config,
                    ),
                self.ship == (Ship {
                    pos: center,
                    speed: Vec2D { x: 0i64, y: 0i64 },
                    angle: (-QUARTER) as i64,
                    ..old(self).ship
                }),
                self.game_state == old(self).game_state,
                self.lives == old(self).lives,
                self.level == old(self).level,
                self.score == old(self).score,
                self.tick == old(self).tick,
                self.next_bullet_tick == old(self).next_bullet_tick,
                self.ufo == old(self).ufo,
                self.ufo_spawn_tick == old(self).ufo_spawn_tick,
                self.explosions == old(self).explosions,
                self.bullets == old(self).bullets,
                self.inputs == old(self).inputs,
                self.config == old(self).config,
            decreases self.level - i,
        {
            let pos = sample_far_position(&mut self.rng, field_size, center);
            let r = self.rng.next_unit();
            let angle = fmul(TURN, r);
            proof {
                lemma_fmul_unit_range(TURN, r);
            }
            let speed = Vec2D { x: 100_000_000, y: 0 }.rotate(angle);
            self.asteroids.push(
                Asteroid {
                    pos,
                    speed,
                    angle,
                    angle_speed: 600_000,
                    size: 50_000_000,
                    style: 5,
                    dead: false,
                },
            );
            i += 1;
        }
    }

    /// Replace the whole game with a fresh one; the new seed is drawn
    /// from the generator's current state, so a reset needs no new host
    /// entropy.
    pub fn reset(&mut self)
        ensures
            Game::spec_fresh(*final(self)),
            final(self).wf(),
    {
        let seed = self.rng.state;
        *self = Game::new(seed);
    }
}

/// A fixed-point factor in `[0, 1)` keeps a positive length inside its
/// bound.
proof fn lemma_fmul_unit_range(l: i64, r: i64)
    requires
        l > 0,
        0 <= r < SCALE,
    ensures
        0 <= spec_fmul(l, r) < l,
{
    let p = (l as int) * (r as int);
    assert(0 <= p && p < (SCALE as int) * (l as int)) by (nonlinear_arith)
        requires
            l > 0,
            0 <= r < SCALE,
            p == (l as int) * (r as int),
    ;
    vstd::arithmetic::div_mod::lemma_div_pos_is_pos(p, SCALE as int);
    vstd::arithmetic::div_mod::lemma_multiply_divide_lt(p, SCALE as int, l as int);
    assert(tdiv(p, SCALE as int) == p / (SCALE as int));
}

/// Draw field positions until one keeps the spawn distance from the
/// reference point; after too many rejections, fall back to the field
/// corner, which the caller guarantees is far enough.
fn sample_far_position(rng: &mut Rng, field_size: Vec2D, from: Vec2D) -> (pos: Vec2D)
    requires
        field_size.x > 0,
        field_size.y > 0,
        spec_is_far(Vec2D { x: 0i64, y: 0i64 }, from),
    ensures
        0 <= pos.x < field_size.x,
        0 <= pos.y < field_size.y,
        spec_is_far(pos, from),
{
    let mut attempts: usize = 0;
    while attempts < 1000
        invariant
            field_size.x > 0,
            field_size.y > 0,
            spec_is_far(Vec2D { x: 0i64, y: 0i64 }, from),
        decreases 1000 - attempts,
    {
        let rx = rng.next_unit();
        let ry = rng.next_unit();
        let pos = Vec2D { x: fmul(field_size.x, rx), y: fmul(field_size.y, ry) };
        proof {
            lemma_fmul_unit_range(field_size.x, rx);
            lemma_fmul_unit_range(field_size.y, ry);
        }
        if pos.sub(from).len() > SPAWN_MIN_DIST {
            return pos;
        }
        attempts += 1;
    }
    Vec2D { x: 0, y: 0 }
}

/// What one core tick (the common body every non-terminal state runs)
/// yields.
#[verifier::ext_equal]
pub ghost struct TickOutcome {
    pub game_state: GameState,
    pub ship: Ship,
    pub score: u64,
    pub tick: u64,
    pub next_bullet_tick: u64,
    pub explosions: Seq<Explosion>,
    pub bullets: Seq<Bullet>,
    pub asteroids: Seq<Asteroid>,
    pub inputs: Inputs,
}

/// The core of one tick: advance the counter; expire bullets and
/// explosions; integrate ship, asteroids and bullets; fire when the
/// shoot action was pressed this frame, the ship lives, and the firing
/// interval has passed; run the asteroid-bullet pass (split, score,
/// explode); then let at most one asteroid ram the ship, which kills
/// it, splits the asteroid, spawns two explosions and moves the game to
/// `Respawning`; finally retire the frame's input edges. The UFO and
/// ship-bullet scaffolding contributes nothing yet.
#[verifier::opaque]
pub open spec fn spec_tick_core(
    state0: GameState,
    ship0: Ship,
    asts0: Seq<Asteroid>,
    bullets0: Seq<Bullet>,
    expl0: Seq<Explosion>,
    inputs: Inputs,
    c: Config,
    tick0: u64,
    next_bullet0: u64,
    score0: u64,
) -> TickOutcome {
    let t = (tick0 + 1) as u64;
    let bullets1 = spec_live_bullets(bullets0, t, bullets0.len() as int);
    let expl1 = spec_live_explosions(expl0, t, expl0.len() as int);
    let ship1 = spec_ship_step(ship0, inputs, c);
    let asts1 = spec_step_asteroids(asts0, c, asts0.len() as int);
    let bullets2 = spec_step_bullets(bullets1, c, bullets1.len() as int);
    let shooting = !ship1.dead && spec_been_pressed(spec_flag(inputs, InputIndex::Shoot)) && t
        >= next_bullet0;
    let bullets3 = if shooting {
        bullets2.push(spec_new_bullet(ship1, t, c, BulletSource::Player))
    } else {
        bullets2
    };
    let nb1 = if shooting {
        (t + spec_duration_ticks(c.bullet_interval, c.delta_t)) as u64
    } else {
        next_bullet0
    };
    let n = asts1.len() as int;
    let m = bullets3.len() as int;
    let score1 = sat_u64(score0 + 100 * spec_ab_hit_count(asts1, bullets3, n));
    let asts2 = spec_ab_survivors(asts1, bullets3, n) + spec_ab_children(asts1, bullets3, c, n);
    let bullets4 = spec_kept_bullets(asts1, bullets3, m);
    let expl2 = expl1 + spec_ab_explosions(asts1, bullets3, t, c, n);
    let k = spec_first_ship_hit(asts2, ship1, asts2.len() as int);
    if !ship1.dead && k >= 0 {
        TickOutcome {
            game_state: GameState::Respawning,
            ship: Ship { dead: true, ..ship1 },
            score: score1,
            tick: t,
            next_bullet_tick: nb1,
            explosions: expl2.push(spec_new_explosion(ship1.pos, t, c)).push(
                spec_new_explosion(asts2[k].pos, t, c),
            ),
            bullets: bullets4,
            asteroids: asts2.subrange(0, k) + asts2.subrange(k + 1, asts2.len() as int)
                + spec_split_children(asts2[k], c),
            inputs: spec_inputs_tick(inputs),
        }
    } else {
        TickOutcome {
            game_state: state0,
            ship: ship1,
            score: score1,
            tick: t,
            next_bullet_tick: nb1,
            explosions: expl2,
            bullets: bullets4,
            asteroids: asts2,
            inputs: spec_inputs_tick(inputs),
        }
    }
}

/// The core tick of a game, from its own fields.
pub open spec fn spec_tick_core_of(g: Game) -> TickOutcome {
    spec_tick_core(
        g.game_state,
        g.ship,
        g.asteroids@,
        g.bullets@,
        g.explosions@,
        g.inputs,
        g.config,
        g.tick,
        g.next_bullet_tick,
        g.score,
    )
}

/// Whether a game's mutable parts carry exactly a tick outcome.
pub open spec fn spec_game_matches_outcome(g: Game, o: TickOutcome) -> bool {
    &&& g.game_state == o.game_state
    &&& g.ship == o.ship
    &&& g.score == o.score
    &&& g.tick == o.tick
    &&& g.next_bullet_tick == o.next_bullet_tick
    &&& g.explosions@ == o.explosions
    &&& g.bullets@ == o.bullets
    &&& g.asteroids@ == o.asteroids
    &&& g.inputs == o.inputs
}

/// A ship put back at the field center, at rest, facing up.
pub open spec fn spec_centered_ship(s: Ship, c: Config) -> Ship {
    Ship {
        pos: spec_field_center(c),
        speed: Vec2D { x: 0i64, y: 0i64 },
        angle: (-QUARTER) as i64,
        ..s
    }
}

impl Game {
    /// Expiry, integration, and shooting: the first half of the common
    /// tick body.
    fn tick_phase_move(&mut self)
        requires
            old(self).config.wf(),
            old(self).tick < TICK_LIMIT,
        ensures
            final(self).tick == old(self).tick + 1,
            final(self).ship == spec_ship_step(old(self).ship, old(self).inputs, old(self).config),
            final(self).asteroids@ == spec_step_asteroids(
                old(self).asteroids@,
                old(self).config,
                old(self).asteroids@.len() as int,
            ),
            final(self).asteroids@.len() == old(self).asteroids@.len(),
            final(self).explosions@ == spec_live_explosions(
                old(self).explosions@,
                (old(self).tick + 1) as u64,
                old(self).explosions@.len() as int,
            ),
            ({
                let t = (old(self).tick + 1) as u64;
                let c = old(self).config;
                let bullets1 = spec_live_bullets(
                    old(self).bullets@,
                    t,
                    old(self).bullets@.len() as int,
                );
                let ship1 = spec_ship_step(old(self).ship, old(self).inputs, c);
                let bullets2 = spec_step_bullets(bullets1, c, bullets1.len() as int);
                let shooting = !ship1.dead && spec_been_pressed(
                    spec_flag(old(self).inputs, InputIndex::Shoot),
                ) && t >= old(self).next_bullet_tick;
                &&& final(self).bullets@ == (if shooting {
                    bullets2.push(spec_new_bullet(ship1, t, c, BulletSource::Player))
                } else {
                    bullets2
                })
                &&& final(self).next_bullet_tick == (if shooting {
                    (t + spec_duration_ticks(c.bullet_interval, c.delta_t)) as u64
                } else {
                    old(self).next_bullet_tick
                })
            }),
            final(self).score == old(self).score,
            final(self).game_state == old(self).game_state,
            final(self).lives == old(self).lives,
            final(self).level == old(self).level,
            final(self).config == old(self).config,
            final(self).rng == old(self).rng,
            final(self).ufo == old(self).ufo,
            final(self).ufo_spawn_tick == old(self).ufo_spawn_tick,
            final(self).inputs == old(self).inputs,
    {
        self.tick = self.tick + 1;
        let tick = self.tick;

        let live_bullets = retain_live_bullets(&self.bullets, tick);
        self.bullets = live_bullets;
        let live_explosions = retain_live_explosions(&self.explosions, tick);
        self.explosions = live_explosions;

        self.ship.tick(&self.inputs, &self.config);
        let stepped_asteroids = step_asteroids(&self.asteroids, &self.config);
        self.asteroids = stepped_asteroids;
        let stepped_bullets = step_bullets(&self.bullets, &self.config);
        self.bullets = stepped_bullets;
        match &mut self.ufo {
            Some(u) => u.tick(),
            None => {},
        }

        if !self.ship.dead {
            if self.inputs.been_pressed(InputIndex::Shoot) && self.tick >= self.next_bullet_tick {
                self.next_bullet_tick = self.tick + duration_ticks(
                    self.config.bullet_interval,
                    self.config.delta_t,
                );
                let bullet = Bullet::new(self, BulletSource::Player);
                self.bullets.push(bullet);
            }
        }
    }

    /// The collision passes and the trailing input transition: the
    /// second half of the common tick body.
    fn tick_phase_collide(&mut self)
        requires
            old(self).config.wf(),
            old(self).tick <= TICK_LIMIT,
            old(self).asteroids@.len() < 1_000_000_000,
        ensures
            ({
                let asts1 = old(self).asteroids@;
                let bullets3 = old(self).bullets@;
                let t = old(self).tick;
                let c = old(self).config;
                let ship1 = old(self).ship;
                let n = asts1.len() as int;
                let m = bullets3.len() as int;
                let score1 = sat_u64(old(self).score + 100 * spec_ab_hit_count(asts1, bullets3, n));
                let asts2 = spec_ab_survivors(asts1, bullets3, n) + spec_ab_children(
                    asts1,
                    bullets3,
                    c,
                    n,
                );
                let bullets4 = spec_kept_bullets(asts1, bullets3, m);
                let expl2 = old(self).explosions@ + spec_ab_explosions(asts1, bullets3, t, c, n);
                let k = spec_first_ship_hit(asts2, ship1, asts2.len() as int);
                &&& final(self).score == score1
                &&& final(self).bullets@ == bullets4
                &&& (if !ship1.dead && k >= 0 {
                    &&& final(self).game_state == GameState::Respawning
                    &&& final(self).ship == (Ship { dead: true, ..ship1 })
                    &&& final(self).explosions@ == expl2.push(
                        spec_new_explosion(ship1.pos, t, c),
                    ).push(spec_new_explosion(asts2[k].pos, t, c))
                    &&& final(self).asteroids@ == asts2.subrange(0, k) + asts2.subrange(
                        k + 1,
                        asts2.len() as int,
                    ) + spec_split_children(asts2[k], c)
                } else {
                    &&& final(self).game_state == old(self).game_state
                    &&& final(self).ship == ship1
                    &&& final(self).explosions@ == expl2
                    &&& final(self).asteroids@ == asts2
                })
            }),
            final(self).inputs == spec_inputs_tick(old(self).inputs),
            final(self).tick == old(self).tick,
            final(self).next_bullet_tick == old(self).next_bullet_tick,
            final(self).lives == old(self).lives,
            final(self).level == old(self).level,
            final(self).config == old(self).config,
            final(self).rng == old(self).rng,
            final(self).ufo == old(self).ufo,
            final(self).ufo_spawn_tick == old(self).ufo_spawn_tick,
    {
        let tick = self.tick;
        let (new_asteroids, kept_bullets, new_explosions, hits) = collide_asteroids_bullets(
            &self.asteroids,
            &self.bullets,
            tick,
            &self.config,
        );
        self.score = sat_add_u64(self.score, 100 * hits);
        self.asteroids = new_asteroids;
        self.bullets = kept_bullets;
        let mut ne = new_explosions;
        self.explosions.append(&mut ne);

        let ghost before_stub_pass = *self;
        let mut j: usize = 0;
        while j < self.bullets.len()
            invariant
                *self == before_stub_pass,
                0 <= j <= self.bullets@.len(),
            decreases self.bullets@.len() - j,
        {
            let b = self.bullets[j];
            match b.source {
                BulletSource::UFO => {
                    if !self.ship.dead && collide_ship_bullet(&self.ship, &b) {
                        self.game_state = GameState::Respawning;
                        let hit_explosion = Explosion::new(self.ship.pos, self.tick, &self.config);
                        self.explosions.push(hit_explosion);
                        self.ship.dead = true;
                    }
                },
                BulletSource::Player => {
                    let ufo_hit = match &self.ufo {
                        Some(u) => collide_ufo_bullet(u, &b),
                        None => false,
                    };
                    if ufo_hit {
                        self.ufo = None;
                    }
                },
            }
            j += 1;
        }

        if !self.ship.dead {
            match find_ship_hit(&self.asteroids, &self.ship) {
                Some(k) => {
                    self.game_state = GameState::Respawning;
                    let ship_explosion = Explosion::new(self.ship.pos, tick, &self.config);
                    self.explosions.push(ship_explosion);
                    let asteroid_explosion = Explosion::new(
                        self.asteroids[k].pos,
                        tick,
                        &self.config,
                    );
                    self.explosions.push(asteroid_explosion);
                    self.ship.dead = true;
                    let rebuilt = remove_with_children(&self.asteroids, k, &self.config);
                    self.asteroids = rebuilt;
                },
                None => {},
            }
        }

        if collide_ship_ufo(&self.ship, &self.ufo) {
        }

        self.inputs.tick();
    }

    /// The common tick body.
    fn tick_core(&mut self)
        requires
            old(self).config.wf(),
            old(self).tick < TICK_LIMIT,
            old(self).asteroids@.len() < 1_000_000_000,
        ensures
            spec_game_matches_outcome(*final(self), spec_tick_core_of(*old(self))),
            final(self).lives == old(self).lives,
            final(self).level == old(self).level,
            final(self).config == old(self).config,
            final(self).rng == old(self).rng,
            final(self).ufo == old(self).ufo,
            final(self).ufo_spawn_tick == old(self).ufo_spawn_tick,
            final(self).tick == old(self).tick + 1,
            ((forall|i: int| 0 <= i < old(self).asteroids@.len()
                ==> !(#[trigger] old(self).asteroids@[i]).dead) && (forall|i: int|
                0 <= i < old(self).bullets@.len() ==> !(#[trigger] old(self).bullets@[i]).dead))
                ==> {
                &&& final(self).asteroids@.len() <= 2 * old(self).asteroids@.len() + 2
                &&& (forall|i: int| 0 <= i < final(self).asteroids@.len()
                    ==> !(#[trigger] final(self).asteroids@[i]).dead)
                &&& (forall|i: int| 0 <= i < final(self).bullets@.len()
                    ==> !(#[trigger] final(self).bullets@[i]).dead)
            },
    {
        self.tick_phase_move();
        self.tick_phase_collide();
        proof {
            reveal(spec_tick_core);
            let g = *old(self);
            let c = g.config;
            let all_alive = (forall|i: int|
                0 <= i < g.asteroids@.len() ==> !(#[trigger] g.asteroids@[i]).dead) && (forall|
                i: int,
            |
                0 <= i < g.bullets@.len() ==> !(#[trigger] g.bullets@[i]).dead);
            if all_alive {
                let t = (g.tick + 1) as u64;
                let bullets1 = spec_live_bullets(g.bullets@, t, g.bullets@.len() as int);
                let ship1 = spec_ship_step(g.ship, g.inputs, c);
                let asts1 = spec_step_asteroids(g.asteroids@, c, g.asteroids@.len() as int);
                crate::collide::lemma_live_bullets_alive(g.bullets@, t, g.bullets@.len() as int);
                crate::collide::lemma_step_asteroids_alive(
                    g.asteroids@,
                    c,
                    g.asteroids@.len() as int,
                );
                let bullets2 = spec_step_bullets(bullets1, c, bullets1.len() as int);
                crate::collide::lemma_step_bullets_alive(bullets1, c, bullets1.len() as int);
                let shooting = !ship1.dead && spec_been_pressed(spec_flag(g.inputs, InputIndex::Shoot))
                    && t >= g.next_bullet_tick;
                let bullets3 = if shooting {
                    bullets2.push(spec_new_bullet(ship1, t, c, BulletSource::Player))
                } else {
                    bullets2
                };
                assert(forall|i: int| 0 <= i < bullets3.len() ==> !(#[trigger] bullets3[i]).dead);
                let n = asts1.len() as int;
                let m = bullets3.len() as int;
                crate::collide::lemma_ab_outputs_alive(asts1, bullets3, c, n);
                crate::collide::lemma_kept_bullets_alive(asts1, bullets3, m);
                let asts2 = spec_ab_survivors(asts1, bullets3, n) + spec_ab_children(
                    asts1,
                    bullets3,
                    c,
                    n,
                );
                assert(forall|i: int| 0 <= i < asts2.len() ==> !(#[trigger] asts2[i]).dead);
                let k = spec_first_ship_hit(asts2, ship1, asts2.len() as int);
                if !ship1.dead && k >= 0 {
                    assert(0 <= k < asts2.len()) by {
                        crate::collide::lemma_first_ship_hit_in_range(
                            asts2,
                            ship1,
                            asts2.len() as int,
                        );
                    }
                    crate::collide::lemma_split_children_alive(asts2[k], c);
                }
            }
        }
    }

    /// Advance the game by one frame.
    ///
    /// In `GameOver`, holding Shoot restarts with a fresh game and
    /// nothing else happens. In `Respawning` with no lives left the
    /// game ends at once; with lives left, holding Shoot consumes one
    /// life and revives the ship at the field center before the common
    /// body runs. In `Running` with the field cleared, the level and
    /// its asteroid count go up by one before the common body runs.
    pub fn tick(&mut self)
        requires
            old(self).wf(),
        ensures
            old(self).game_state == GameState::GameOver ==> (if spec_is_down(
                spec_flag(old(self).inputs, InputIndex::Shoot),
            ) {
                Game::spec_fresh(*final(self)) && final(self).wf()
            } else {
                *final(self) == *old(self)
            }),
            old(self).game_state == GameState::Respawning && old(self).lives == 0 ==> *final(self)
                == (Game { game_state: GameState::GameOver, ..*old(self) }),
            old(self).game_state == GameState::Respawning && old(self).lives > 0 ==> {
                let pressed = spec_is_down(spec_flag(old(self).inputs, InputIndex::Shoot));
                let mid_ship = if pressed {
                    Ship { dead: false, ..spec_centered_ship(old(self).ship, old(self).config) }
                } else {
                    old(self).ship
                };
                let mid_state = if pressed {
                    GameState::Running
                } else {
                    GameState::Respawning
                };
                &&& spec_game_matches_outcome(
                    *final(self),
                    spec_tick_core(
                        mid_state,
                        mid_ship,
                        old(self).asteroids@,
                        old(self).bullets@,
                        old(self).explosions@,
                        old(self).inputs,
                        old(self).config,
                        old(self).tick,
                        old(self).next_bullet_tick,
                        old(self).score,
                    ),
                )
                &&& final(self).lives == (if pressed {
                    (old(self).lives - 1) as u64
                } else {
                    old(self).lives
                })
                &&& final(self).level == old(self).level
                &&& final(self).config == old(self).config
                &&& final(self).rng == old(self).rng
                &&& final(self).ufo == old(self).ufo
                &&& final(self).ufo_spawn_tick == old(self).ufo_spawn_tick
            },
            old(self).game_state == GameState::Running && old(self).asteroids@.len() > 0 ==> {
                &&& spec_game_matches_outcome(*final(self), spec_tick_core_of(*old(self)))
                &&& final(self).lives == old(self).lives
                &&& final(self).level == old(self).level
                &&& final(self).config == old(self).config
                &&& final(self).rng == old(self).rng
                &&& final(self).ufo == old(self).ufo
                &&& final(self).ufo_spawn_tick == old(self).ufo_spawn_tick
            },
            (old(self).tick + 1 < TICK_LIMIT && old(self).level + 1 < LEVEL_LIMIT && old(
                self,
            ).asteroids@.len() < 400_000_000) ==> final(self).wf(),
            old(self).game_state == GameState::Running && old(self).asteroids@.len() == 0 ==> {
                &&& exists|spawned: Seq<Asteroid>|
                    {
                        &&& spawned.len() == old(self).level + 1
                        &&& (forall|i: int|
                            0 <= i < spawned.len() ==> spec_spawned_asteroid(
                                #[trigger] spawned[i],
                                spec_field_center(old(self).config),
                                old(self).config,
                            ))
                        &&& spec_game_matches_outcome(
                            *final(self),
                            spec_tick_core(
                                GameState::Running,
                                spec_centered_ship(old(self).ship, old(self).config),
                                spawned,
                                old(self).bullets@,
                                old(self).explosions@,
                                old(self).inputs,
                                old(self).config,
                                old(self).tick,
                                old(self).next_bullet_tick,
                                old(self).score,
                            ),
                        )
                    }
                &&& final(self).lives == old(self).lives
                &&& final(self).level == old(self).level + 1
                &&& final(self).config == old(self).config
                &&& final(self).ufo == old(self).ufo
                &&& final(self).ufo_spawn_tick == old(self).ufo_spawn_tick
            },
    {
        match self.game_state {
            GameState::GameOver => {
                if self.inputs.is_down(InputIndex::Shoot) {
                    self.reset();
                }
                return;
            },
            GameState::Respawning => {
                if self.lives == 0 {
                    self.game_state = GameState::GameOver;
                    return;
                }
                if self.inputs.is_down(InputIndex::Shoot) {
                    self.game_state = GameState::Running;
                    self.lives = self.lives - 1;
                    self.ship.speed = Vec2D::zero();
                    self.ship.pos = self.config.field_size.scale(500_000);
                    self.ship.angle = -QUARTER;
                    self.ship.dead = false;
                }
            },
            GameState::Running => {
                if self.asteroids.len() == 0 {
                    self.level = self.level + 1;
                    self.spawn_level();
                }
            },
        }
        let ghost mid = *self;
        self.tick_core();
        proof {
            if old(self).game_state == GameState::Running && old(self).asteroids@.len() == 0 {
                assert(mid.asteroids@.len() == old(self).level + 1);
                assert(spec_game_matches_outcome(*self, spec_tick_core_of(mid)));
            }
        }
    }
}

} // verus!
