//! The per-tick list transformations: expiry, integration, and the
//! asteroid-bullet and asteroid-ship collision passes.
//!
//! Every pass is stated as a recursive builder over a prefix of the
//! entity list, so a loop invariant can follow it index by index. The
//! asteroid-bullet pass is mark-free: an asteroid is hit when any
//! player bullet covers it, a bullet dies when it covers any asteroid,
//! so one bullet may take part in several kills and several bullets in
//! one, and the outcome does not depend on iteration order.

use vstd::prelude::*;
use crate::game::Config;
use crate::game::Bullet;
use crate::game::BulletSource;
use crate::game::Asteroid;
use crate::game::Explosion;
use crate::game::TICK_LIMIT;
use crate::game::spec_asteroid_step;
use crate::game::spec_bullet_step;
use crate::game::spec_split_children;
use crate::game::spec_new_explosion;
use crate::game::spec_hit_asteroid_bullet;
use crate::game::spec_hit_asteroid_ship;
use crate::ship::Ship;

verus! {

/// The bullets of a prefix that have not yet expired at tick `t`.
pub open spec fn spec_live_bullets(s: Seq<Bullet>, t: u64, n: int) -> Seq<Bullet>
    decreases n,
{
    if n <= 0 {
        Seq::empty()
    } else {
        let pre = spec_live_bullets(s, t, n - 1);
        if s[n - 1].lifetime > t {
            pre.push(s[n - 1])
        } else {
            pre
        }
    }
}

/// The explosions of a prefix that have not yet expired at tick `t`.
pub open spec fn spec_live_explosions(s: Seq<Explosion>, t: u64, n: int) -> Seq<Explosion>
    decreases n,
{
    if n <= 0 {
        Seq::empty()
    } else {
        let pre = spec_live_explosions(s, t, n - 1);
        if s[n - 1].lifetime > t {
            pre.push(s[n - 1])
        } else {
            pre
        }
    }
}

/// A prefix of asteroids, each integrated by one tick.
pub open spec fn spec_step_asteroids(s: Seq<Asteroid>, c: Config, n: int) -> Seq<Asteroid>
    decreases n,
{
    if n <= 0 {
        Seq::empty()
    } else {
        spec_step_asteroids(s, c, n - 1).push(spec_asteroid_step(s[n - 1], c))
    }
}

/// A prefix of bullets, each integrated by one tick.
pub open spec fn spec_step_bullets(s: Seq<Bullet>, c: Config, n: int) -> Seq<Bullet>
    decreases n,
{
    if n <= 0 {
        Seq::empty()
    } else {
        spec_step_bullets(s, c, n - 1).push(spec_bullet_step(s[n - 1], c))
    }
}

/// Whether any player bullet covers this asteroid.
pub open spec fn spec_asteroid_is_hit(a: Asteroid, bullets: Seq<Bullet>) -> bool {
    exists|j: int|
        0 <= j < bullets.len() && (#[trigger] bullets[j]).source == BulletSource::Player
            && spec_hit_asteroid_bullet(a, bullets[j])
}

/// Whether this player bullet covers any asteroid (a bullet of another
/// source never dies here).
pub open spec fn spec_bullet_is_spent(b: Bullet, asteroids: Seq<Asteroid>) -> bool {
    b.source == BulletSource::Player && exists|i: int|
        0 <= i < asteroids.len() && spec_hit_asteroid_bullet(#[trigger] asteroids[i], b)
}

/// The asteroids of a prefix that no player bullet hit, in order.
pub open spec fn spec_ab_survivors(asteroids: Seq<Asteroid>, bullets: Seq<Bullet>, n: int) -> Seq<
    Asteroid,
>
    decreases n,
{
    if n <= 0 {
        Seq::empty()
    } else {
        let pre = spec_ab_survivors(asteroids, bullets, n - 1);
        if spec_asteroid_is_hit(asteroids[n - 1], bullets) {
            pre
        } else {
            pre.push(asteroids[n - 1])
        }
    }
}

/// The split children of every hit asteroid of a prefix, in order.
pub open spec fn spec_ab_children(
    asteroids: Seq<Asteroid>,
    bullets: Seq<Bullet>,
    c: Config,
    n: int,
) -> Seq<Asteroid>
    decreases n,
{
    if n <= 0 {
        Seq::empty()
    } else {
        let pre = spec_ab_children(asteroids, bullets, c, n - 1);
        if spec_asteroid_is_hit(asteroids[n - 1], bullets) {
            pre + spec_split_children(asteroids[n - 1], c)
        } else {
            pre
        }
    }
}

/// One explosion at each hit asteroid of a prefix, in order.
pub open spec fn spec_ab_explosions(
    asteroids: Seq<Asteroid>,
    bullets: Seq<Bullet>,
    t: u64,
    c: Config,
    n: int,
) -> Seq<Explosion>
    decreases n,
{
    if n <= 0 {
        Seq::empty()
    } else {
        let pre = spec_ab_explosions(asteroids, bullets, t, c, n - 1);
        if spec_asteroid_is_hit(asteroids[n - 1], bullets) {
            pre.push(spec_new_explosion(asteroids[n - 1].pos, t, c))
        } else {
            pre
        }
    }
}

/// How many asteroids of a prefix were hit. Each hit asteroid counts
/// once, however many bullets cover it.
pub open spec fn spec_ab_hit_count(asteroids: Seq<Asteroid>, bullets: Seq<Bullet>, n: int) -> nat
    decreases n,
{
    if n <= 0 {
        0nat
    } else {
        spec_ab_hit_count(asteroids, bullets, n - 1) + if spec_asteroid_is_hit(
            asteroids[n - 1],
            bullets,
        ) {
            1nat
        } else {
            0nat
        }
    }
}

/// The bullets of a prefix that were not spent on an asteroid.
pub open spec fn spec_kept_bullets(
    asteroids: Seq<Asteroid>,
    bullets: Seq<Bullet>,
    n: int,
) -> Seq<Bullet>
    decreases n,
{
    if n <= 0 {
        Seq::empty()
    } else {
        let pre = spec_kept_bullets(asteroids, bullets, n - 1);
        if spec_bullet_is_spent(bullets[n - 1], asteroids) {
            pre
        } else {
            pre.push(bullets[n - 1])
        }
    }
}

/// The index of the first asteroid of a prefix whose circle touches the
/// ship's hull, or -1 when none does.
pub open spec fn spec_first_ship_hit(asteroids: Seq<Asteroid>, ship: Ship, n: int) -> int
    decreases n,
{
    if n <= 0 {
        -1
    } else {
        let pre = spec_first_ship_hit(asteroids, ship, n - 1);
        if pre >= 0 {
            pre
        } else if spec_hit_asteroid_ship(asteroids[n - 1], ship) {
            n - 1
        } else {
            -1
        }
    }
}

/// The first hit of a prefix, when there is one, indexes into that
/// prefix.
pub proof fn lemma_first_ship_hit_in_range(asteroids: Seq<Asteroid>, ship: Ship, n: int)
    requires
        0 <= n,
    ensures
        spec_first_ship_hit(asteroids, ship, n) == -1 || 0 <= spec_first_ship_hit(
            asteroids,
            ship,
            n,
        ) < n,
    decreases n,
{
    if n > 0 {
        lemma_first_ship_hit_in_range(asteroids, ship, n - 1);
    }
}

/// Once a prefix holds a first hit, every longer prefix holds the same
/// one.
pub proof fn lemma_first_ship_hit_persists(asteroids: Seq<Asteroid>, ship: Ship, m: int, n: int)
    requires
        0 <= m <= n,
        spec_first_ship_hit(asteroids, ship, m) >= 0,
    ensures
        spec_first_ship_hit(asteroids, ship, n) == spec_first_ship_hit(asteroids, ship, m),
    decreases n - m,
{
    if n > m {
        lemma_first_ship_hit_persists(asteroids, ship, m, n - 1);
    }
}

/// Scoring counts asteroids, not bullets: adding one asteroid to the
/// scan adds one point of score per hit asteroid, however many bullets
/// cover it at once.
pub proof fn lemma_hit_count_step(asteroids: Seq<Asteroid>, bullets: Seq<Bullet>, n: int)
    requires
        0 < n <= asteroids.len(),
    ensures
        spec_ab_hit_count(asteroids, bullets, n) == spec_ab_hit_count(asteroids, bullets, n - 1)
            + (if spec_asteroid_is_hit(asteroids[n - 1], bullets) {
            1nat
        } else {
            0nat
        }),
{
}

/// Destroying one previously-undamaged asteroid in a tick adds exactly
/// 100 to the score, regardless of how many bullets hit it
/// simultaneously.
pub proof fn lemma_one_kill_scores_100(a: Asteroid, bullets: Seq<Bullet>, score: u64)
    requires
        spec_asteroid_is_hit(a, bullets),
        score + 100 <= u64::MAX,
    ensures
        crate::fixed::sat_u64(score + 100 * spec_ab_hit_count(seq![a], bullets, 1)) == score + 100,
{
    assert(spec_ab_hit_count(seq![a], bullets, 0) == 0);
    assert(spec_ab_hit_count(seq![a], bullets, 1) == 1) by {
        assert(seq![a][0] == a);
    }
}

/// Expiry keeps only bullets of the prefix, so it keeps them alive and
/// no more numerous.
pub proof fn lemma_live_bullets_alive(s: Seq<Bullet>, t: u64, n: int)
    requires
        0 <= n <= s.len(),
        forall|i: int| 0 <= i < s.len() ==> !(#[trigger] s[i]).dead,
    ensures
        spec_live_bullets(s, t, n).len() <= n,
        forall|i: int|
            0 <= i < spec_live_bullets(s, t, n).len() ==> !(#[trigger] spec_live_bullets(
                s,
                t,
                n,
            )[i]).dead,
    decreases n,
{
    if n > 0 {
        lemma_live_bullets_alive(s, t, n - 1);
    }
}

/// Integration never changes a bullet's death flag.
pub proof fn lemma_step_bullets_alive(s: Seq<Bullet>, c: Config, n: int)
    requires
        0 <= n <= s.len(),
        forall|i: int| 0 <= i < s.len() ==> !(#[trigger] s[i]).dead,
    ensures
        spec_step_bullets(s, c, n).len() == n,
        forall|i: int|
            0 <= i < n ==> !(#[trigger] spec_step_bullets(s, c, n)[i]).dead,
    decreases n,
{
    if n > 0 {
        lemma_step_bullets_alive(s, c, n - 1);
    }
}

/// Integration never changes an asteroid's death flag.
pub proof fn lemma_step_asteroids_alive(s: Seq<Asteroid>, c: Config, n: int)
    requires
        0 <= n <= s.len(),
        forall|i: int| 0 <= i < s.len() ==> !(#[trigger] s[i]).dead,
    ensures
        spec_step_asteroids(s, c, n).len() == n,
        forall|i: int|
            0 <= i < n ==> !(#[trigger] spec_step_asteroids(s, c, n)[i]).dead,
    decreases n,
{
    if n > 0 {
        lemma_step_asteroids_alive(s, c, n - 1);
    }
}

/// The asteroid-bullet pass hands back at most two asteroids for each
/// one scanned, and only live ones: survivors come from the live input,
/// children inherit their live parent's flag.
pub proof fn lemma_ab_outputs_alive(
    asteroids: Seq<Asteroid>,
    bullets: Seq<Bullet>,
    c: Config,
    n: int,
)
    requires
        0 <= n <= asteroids.len(),
        forall|i: int| 0 <= i < asteroids.len() ==> !(#[trigger] asteroids[i]).dead,
    ensures
        spec_ab_survivors(asteroids, bullets, n).len() <= n,
        spec_ab_children(asteroids, bullets, c, n).len() <= 2 * n,
        spec_ab_survivors(asteroids, bullets, n).len() + spec_ab_children(
            asteroids,
            bullets,
            c,
            n,
        ).len() <= 2 * n,
        forall|i: int|
            0 <= i < spec_ab_survivors(asteroids, bullets, n).len() ==> !(
            #[trigger] spec_ab_survivors(asteroids, bullets, n)[i]).dead,
        forall|i: int|
            0 <= i < spec_ab_children(asteroids, bullets, c, n).len() ==> !(
            #[trigger] spec_ab_children(asteroids, bullets, c, n)[i]).dead,
    decreases n,
{
    if n > 0 {
        lemma_ab_outputs_alive(asteroids, bullets, c, n - 1);
    }
}

/// The bullets kept by the pass are live bullets of the input.
pub proof fn lemma_kept_bullets_alive(asteroids: Seq<Asteroid>, bullets: Seq<Bullet>, n: int)
    requires
        0 <= n <= bullets.len(),
        forall|i: int| 0 <= i < bullets.len() ==> !(#[trigger] bullets[i]).dead,
    ensures
        spec_kept_bullets(asteroids, bullets, n).len() <= n,
        forall|i: int|
            0 <= i < spec_kept_bullets(asteroids, bullets, n).len() ==> !(
            #[trigger] spec_kept_bullets(asteroids, bullets, n)[i]).dead,
    decreases n,
{
    if n > 0 {
        lemma_kept_bullets_alive(asteroids, bullets, n - 1);
    }
}

/// The children of a split inherit their parent's death flag.
pub proof fn lemma_split_children_alive(a: Asteroid, c: Config)
    requires
        !a.dead,
    ensures
        spec_split_children(a, c).len() <= 2,
        forall|i: int|
            0 <= i < spec_split_children(a, c).len() ==> !(#[trigger] spec_split_children(
                a,
                c,
            )[i]).dead,
{
}

/// Keep the bullets whose lifetime is still ahead of tick `t`.
pub fn retain_live_bullets(bullets: &Vec<Bullet>, t: u64) -> (r: Vec<Bullet>)
    ensures
        r@ == spec_live_bullets(bullets@, t, bullets@.len() as int),
{
    let mut out: Vec<Bullet> = Vec::new();
    let mut i: usize = 0;
    while i < bullets.len()
        invariant
            0 <= i <= bullets@.len(),
            out@ == spec_live_bullets(bullets@, t, i as int),
        decreases bullets@.len() - i,
    {
        let b = bullets[i];
        if b.lifetime > t {
            out.push(b);
        }
        i += 1;
    }
    out
}

/// Keep the explosions whose lifetime is still ahead of tick `t`.
pub fn retain_live_explosions(explosions: &Vec<Explosion>, t: u64) -> (r: Vec<Explosion>)
    ensures
        r@ == spec_live_explosions(explosions@, t, explosions@.len() as int),
{
    let mut out: Vec<Explosion> = Vec::new();
    let mut i: usize = 0;
    while i < explosions.len()
        invariant
            0 <= i <= explosions@.len(),
            out@ == spec_live_explosions(explosions@, t, i as int),
        decreases explosions@.len() - i,
    {
        let e = explosions[i];
        if e.lifetime > t {
            out.push(e);
        }
        i += 1;
    }
    out
}

/// Integrate every asteroid by one tick.
pub fn step_asteroids(asteroids: &Vec<Asteroid>, config: &Config) -> (r: Vec<Asteroid>)
    requires
        config.wf(),
    ensures
        r@ == spec_step_asteroids(asteroids@, *config, asteroids@.len() as int),
        r@.len() == asteroids@.len(),
{
    let mut out: Vec<Asteroid> = Vec::new();
    let mut i: usize = 0;
    while i < asteroids.len()
        invariant
            0 <= i <= asteroids@.len(),
            config.wf(),
            out@ == spec_step_asteroids(asteroids@, *config, i as int),
            out@.len() == i,
        decreases asteroids@.len() - i,
    {
        let mut a = asteroids[i];
        a.tick(config);
        out.push(a);
        i += 1;
    }
    out
}

/// Integrate every bullet by one tick.
pub fn step_bullets(bullets: &Vec<Bullet>, config: &Config) -> (r: Vec<Bullet>)
    requires
        config.wf(),
    ensures
        r@ == spec_step_bullets(bullets@, *config, bullets@.len() as int),
        r@.len() == bullets@.len(),
{
    let mut out: Vec<Bullet> = Vec::new();
    let mut i: usize = 0;
    while i < bullets.len()
        invariant
            0 <= i <= bullets@.len(),
            config.wf(),
            out@ == spec_step_bullets(bullets@, *config, i as int),
            out@.len() == i,
        decreases bullets@.len() - i,
    {
        let mut b = bullets[i];
        b.tick(config);
        out.push(b);
        i += 1;
    }
    out
}

fn any_player_bullet_hits(a: &Asteroid, bullets: &Vec<Bullet>) -> (r: bool)
    ensures
        r == spec_asteroid_is_hit(*a, bullets@),
{
    let mut j: usize = 0;
    while j < bullets.len()
        invariant
            0 <= j <= bullets@.len(),
            forall|jj: int|
                0 <= jj < j ==> !((#[trigger] bullets@[jj]).source == BulletSource::Player
                    && spec_hit_asteroid_bullet(*a, bullets@[jj])),
        decreases bullets@.len() - j,
    {
        let b = &bullets[j];
        let is_player = match b.source {
            BulletSource::Player => true,
            BulletSource::UFO => false,
        };
        if is_player && crate::game::collide_asteroid_bullet(a, b) {
            proof {
                assert(0 <= j < bullets@.len() && bullets@[j as int].source
                    == BulletSource::Player && spec_hit_asteroid_bullet(*a, bullets@[j as int]));
            }
            return true;
        }
        j += 1;
    }
    false
}

fn bullet_hits_any(b: &Bullet, asteroids: &Vec<Asteroid>) -> (r: bool)
    ensures
        r == spec_bullet_is_spent(*b, asteroids@),
{
    let is_player = match b.source {
        BulletSource::Player => true,
        BulletSource::UFO => false,
    };
    if !is_player {
        return false;
    }
    let mut i: usize = 0;
    while i < asteroids.len()
        invariant
            0 <= i <= asteroids@.len(),
            b.source == BulletSource::Player,
            forall|ii: int|
                0 <= ii < i ==> !spec_hit_asteroid_bullet(#[trigger] asteroids@[ii], *b),
        decreases asteroids@.len() - i,
    {
        if crate::game::collide_asteroid_bullet(&asteroids[i], b) {
            proof {
                assert(0 <= i < asteroids@.len() && spec_hit_asteroid_bullet(
                    asteroids@[i as int],
                    *b,
                ));
            }
            return true;
        }
        i += 1;
    }
    false
}

/// The asteroid-bullet pass: the surviving asteroids followed by the
/// split children of the hit ones, the bullets not spent, one explosion
/// per hit asteroid, and the number of hit asteroids.
pub fn collide_asteroids_bullets(
    asteroids: &Vec<Asteroid>,
    bullets: &Vec<Bullet>,
    tick: u64,
    config: &Config,
) -> (r: (Vec<Asteroid>, Vec<Bullet>, Vec<Explosion>, u64))
    requires
        config.wf(),
        tick <= TICK_LIMIT,
        asteroids@.len() < 1_000_000_000,
    ensures
        r.0@ == spec_ab_survivors(asteroids@, bullets@, asteroids@.len() as int) + spec_ab_children(
            asteroids@,
            bullets@,
            *config,
            asteroids@.len() as int,
        ),
        r.1@ == spec_kept_bullets(asteroids@, bullets@, bullets@.len() as int),
        r.2@ == spec_ab_explosions(asteroids@, bullets@, tick, *config, asteroids@.len() as int),
        r.3 == spec_ab_hit_count(asteroids@, bullets@, asteroids@.len() as int),
        r.3 <= asteroids@.len(),
{
    let mut survivors: Vec<Asteroid> = Vec::new();
    let mut children: Vec<Asteroid> = Vec::new();
    let mut explosions: Vec<Explosion> = Vec::new();
    let mut hits: u64 = 0;
    let mut i: usize = 0;
    while i < asteroids.len()
        invariant
            0 <= i <= asteroids@.len(),
            asteroids@.len() < 1_000_000_000,
            config.wf(),
            tick <= TICK_LIMIT,
            survivors@ == spec_ab_survivors(asteroids@, bullets@, i as int),
            children@ == spec_ab_children(asteroids@, bullets@, *config, i as int),
            explosions@ == spec_ab_explosions(asteroids@, bullets@, tick, *config, i as int),
            hits == spec_ab_hit_count(asteroids@, bullets@, i as int),
            hits <= i,
        decreases asteroids@.len() - i,
    {
        let a = asteroids[i];
        if any_player_bullet_hits(&a, bullets) {
            hits = hits + 1;
            let mut kids = a.split_off(config);
            children.append(&mut kids);
            explosions.push(Explosion::new(a.pos, tick, config));
        } else {
            survivors.push(a);
        }
        i += 1;
    }
    let mut kept: Vec<Bullet> = Vec::new();
    let mut j: usize = 0;
    while j < bullets.len()
        invariant
            0 <= j <= bullets@.len(),
            kept@ == spec_kept_bullets(asteroids@, bullets@, j as int),
        decreases bullets@.len() - j,
    {
        let b = bullets[j];
        if !bullet_hits_any(&b, asteroids) {
            kept.push(b);
        }
        j += 1;
    }
    let mut out_asteroids = survivors;
    out_asteroids.append(&mut children);
    (out_asteroids, kept, explosions, hits)
}

/// The index of the first asteroid touching the ship's hull, if any.
pub fn find_ship_hit(asteroids: &Vec<Asteroid>, ship: &Ship) -> (r: Option<usize>)
    ensures
        r is None ==> spec_first_ship_hit(asteroids@, *ship, asteroids@.len() as int) == -1,
        r matches Some(k) ==> spec_first_ship_hit(asteroids@, *ship, asteroids@.len() as int)
            == k as int && k < asteroids@.len(),
{
    let mut i: usize = 0;
    while i < asteroids.len()
        invariant
            0 <= i <= asteroids@.len(),
            spec_first_ship_hit(asteroids@, *ship, i as int) == -1,
        decreases asteroids@.len() - i,
    {
        if crate::game::collide_asteroid_ship(&asteroids[i], ship) {
            proof {
                assert(spec_first_ship_hit(asteroids@, *ship, i + 1) == i as int);
                lemma_first_ship_hit_persists(
                    asteroids@,
                    *ship,
                    i + 1,
                    asteroids@.len() as int,
                );
            }
            return Some(i);
        }
        i += 1;
    }
    None
}

/// All asteroids except the one at `k`, in order, followed by that
/// one's split children.
pub fn remove_with_children(asteroids: &Vec<Asteroid>, k: usize, config: &Config) -> (r: Vec<
    Asteroid,
>)
    requires
        k < asteroids@.len(),
    ensures
        r@ == asteroids@.subrange(0, k as int) + asteroids@.subrange(
            k as int + 1,
            asteroids@.len() as int,
        ) + spec_split_children(asteroids@[k as int], *config),
{
    let mut out: Vec<Asteroid> = Vec::new();
    let mut i: usize = 0;
    while i < asteroids.len()
        invariant
            0 <= i <= asteroids@.len(),
            k < asteroids@.len(),
            i <= k ==> out@ == asteroids@.subrange(0, i as int),
            i > k ==> out@ == asteroids@.subrange(0, k as int) + asteroids@.subrange(
                k as int + 1,
                i as int,
            ),
        decreases asteroids@.len() - i,
    {
        if i != k {
            out.push(asteroids[i]);
        }
        proof {
            if i < k {
                assert(out@ =~= asteroids@.subrange(0, i + 1));
            } else if i == k {
                assert(out@ =~= asteroids@.subrange(0, k as int) + asteroids@.subrange(
                    k as int + 1,
                    i + 1,
                ));
            } else {
                assert(out@ =~= asteroids@.subrange(0, k as int) + asteroids@.subrange(
                    k as int + 1,
                    i + 1,
                ));
            }
        }
        i += 1;
    }
    let mut kids = asteroids[k].split_off(config);
    out.append(&mut kids);
    out
}

} // verus!
