//! The decision logic of the level update: translating control events into
//! action state, retiring waves that outgrew the world, spawning enemies
//! away from the player, and noticing when an enemy has caught the player.
//! The surrounding loop — timers, rendering, input devices — lives outside
//! the crate and hands plain values in.

use vstd::prelude::*;

use crate::maths::lemma_square_nonneg;
use crate::maths::lemma_square_strictly_monotonic;
use crate::maths::Point;
use crate::models::bodies_collide;
use crate::models::collidable;
use crate::models::collides_with;
use crate::models::Collide;
use crate::models::Enemy;
use crate::models::Player;
use crate::models::Pose;
use crate::models::Size;
use crate::models::Wave;

verus! {

/// A control event from a keyboard or a game pad: face buttons, the two
/// axes of the left stick, or nothing.
#[derive(Clone, Copy, PartialEq, Eq, Structural, Debug)]
pub enum Controls {
    A(bool),
    B(bool),
    X(bool),
    X1(i64),
    Y1(i64),
    Idle,
}

/// The action state the level acts on every tick.
#[derive(Clone, Copy, PartialEq, Eq, Structural, Debug)]
pub struct Actions {
    pub player_velocity: Point,
    pub boost: bool,
    pub shoot: bool,
    pub grass: bool,
    pub water: bool,
    pub fire: bool,
}

impl Default for Actions {
    /// Everything at rest: no velocity, nothing pressed.
    fn default() -> (a: Actions)
        ensures
            a == (Actions {
                player_velocity: Point { x: 0, y: 0 },
                boost: false,
                shoot: false,
                grass: false,
                water: false,
                fire: false,
            }),
    {
        Actions {
            player_velocity: Point { x: 0, y: 0 },
            boost: false,
            shoot: false,
            grass: false,
            water: false,
            fire: false,
        }
    }
}

/// Applies one control event to the action state: the stick axes steer the
/// player's velocity, the X button shoots, every other event changes
/// nothing.
pub fn handle_control(actions: &mut Actions, control: Controls)
    ensures
        match control {
            Controls::X1(v) => *final(actions) == (Actions {
                player_velocity: Point { x: v, y: old(actions).player_velocity.y },
                ..*old(actions)
            }),
            Controls::Y1(v) => *final(actions) == (Actions {
                player_velocity: Point { x: old(actions).player_velocity.x, y: v },
                ..*old(actions)
            }),
            Controls::X(pressed) => *final(actions) == (Actions {
                shoot: pressed,
                ..*old(actions)
            }),
            _ => *final(actions) == *old(actions),
        },
{
    match control {
        Controls::X1(v) => {
            actions.player_velocity.x = v;
        },
        Controls::Y1(v) => {
            actions.player_velocity.y = v;
        },
        Controls::X(pressed) => {
            actions.shoot = pressed;
        },
        _ => {},
    }
}

/// Applies the game pad dead zone to a raw axis reading: values within
/// 5000 of the centre read as no deflection at all, larger values lose
/// those first 5000 so the deflection still starts from zero.
pub fn dead_zoned_axis_value(value: i64) -> (r: i64)
    requires
        i64::MIN + 5000 <= value <= i64::MAX - 5000,
    ensures
        -5000 < value < 5000 ==> r == 0,
        value >= 5000 ==> r == value - 5000,
        value <= -5000 ==> r == value + 5000,
{
    if -5000 < value && value < 5000 {
        0
    } else if value >= 5000 {
        value - 5000
    } else {
        value + 5000
    }
}

/// A wave stays alive while its radius is below three quarters of the sum
/// of the world's extents; written over integers: four times the radius
/// below three times the sum.
pub open spec fn wave_live(w: Wave, size: Size) -> bool {
    4 * w.radius < 3 * (size.width + size.height)
}

/// Drops every wave that has outgrown the world, keeping the others in
/// order.
pub fn retain_live_waves(waves: &mut Vec<Wave>, size: &Size)
    requires
        size.wf(),
        forall|i: int| 0 <= i < old(waves)@.len() ==> 0 <= (#[trigger] old(waves)@[i]).radius
            <= 2_000_000_000,
    ensures
        final(waves)@ == old(waves)@.filter(|w: Wave| wave_live(w, *size)),
{
    broadcast use vstd::prelude::Seq::lemma_filter_push;

    let ghost pred = |w: Wave| wave_live(w, *size);
    let threshold: i64 = 3 * (size.width + size.height);
    let mut kept: Vec<Wave> = Vec::new();
    let mut i: usize = 0;
    proof {
        assert(waves@.take(0) =~= Seq::<Wave>::empty());
        assert(Seq::<Wave>::empty().filter(pred) =~= Seq::<Wave>::empty()) by {
            reveal(Seq::filter);
        }
    }
    while i < waves.len()
        invariant
            i <= waves@.len(),
            size.wf(),
            threshold == 3 * (size.width + size.height),
            pred == (|w: Wave| wave_live(w, *size)),
            forall|k: int| 0 <= k < waves@.len() ==> 0 <= (#[trigger] waves@[k]).radius
                <= 2_000_000_000,
            kept@ == waves@.take(i as int).filter(pred),
        decreases waves@.len() - i,
    {
        let wave = waves[i];
        proof {
            assert(waves@.take(i as int + 1) =~= waves@.take(i as int).push(waves@[i as int]));
            waves@.take(i as int).lemma_filter_push(waves@[i as int], pred);
        }
        if 4 * wave.radius < threshold {
            kept.push(wave);
        }
        i = i + 1;
    }
    proof {
        assert(waves@.take(waves@.len() as int) =~= waves@);
    }
    *waves = kept;
}

/// Whether some enemy has caught the player.
pub fn any_enemy_hits_player(player: &Player, enemies: &Vec<Enemy>) -> (r: bool)
    requires
        collidable(*player),
        forall|i: int| 0 <= i < enemies@.len() ==> collidable(#[trigger] enemies@[i]),
    ensures
        r == exists|i: int| 0 <= i < enemies@.len() && bodies_collide(
            player.centre(),
            player.radius_value(),
            (#[trigger] enemies@[i]).centre(),
            enemies@[i].radius_value(),
        ),
{
    let mut i: usize = 0;
    while i < enemies.len()
        invariant
            i <= enemies@.len(),
            collidable(*player),
            forall|k: int| 0 <= k < enemies@.len() ==> collidable(#[trigger] enemies@[k]),
            !(exists|k: int| 0 <= k < i && bodies_collide(
                player.centre(),
                player.radius_value(),
                (#[trigger] enemies@[k]).centre(),
                enemies@[k].radius_value(),
            )),
        decreases enemies@.len() - i,
    {
        if collides_with(player, &enemies[i]) {
            return true;
        }
        i = i + 1;
    }
    false
}

/// Spawns an enemy inside the bounds where it does not collide with the
/// player: random draws first, and if the draws keep landing on the player,
/// a spot half the world's width away from them. The world must be wide
/// enough that such a clear spot exists at all — in a world smaller than
/// the two bodies no position could meet the contract.
pub fn spawn_enemy(player: &Player, bounds: &Size) -> (e: Enemy)
    requires
        bounds.wf(),
        bounds.width >= 64,
        0 <= player.vector.position.x < bounds.width,
        0 <= player.vector.position.y < bounds.height,
    ensures
        !bodies_collide(player.centre(), player.radius_value(), e.centre(), e.radius_value()),
        0 <= e.vector.position.x < bounds.width,
        0 <= e.vector.position.y < bounds.height,
        e.vector.heading != (Point { x: 0, y: 0 }),
{
    let mut tries: usize = 0;
    while tries < 16
        invariant
            bounds.wf(),
            bounds.width >= 64,
            0 <= player.vector.position.x < bounds.width,
            0 <= player.vector.position.y < bounds.height,
        decreases 16 - tries,
    {
        let candidate = Enemy::new(Pose::random(bounds));
        if !collides_with(player, &candidate) {
            return candidate;
        }
        tries = tries + 1;
    }
    let half = bounds.width / 2;
    let px = player.vector.position.x;
    let x = if px < half {
        px + half
    } else {
        px - half
    };
    let pose = Pose::random(bounds);
    let fallback = Enemy::new(Pose::new(Point::new(x, pose.position.y), pose.heading));
    proof {
        let ddx = player.vector.position.x - fallback.vector.position.x;
        let ddy = player.vector.position.y - fallback.vector.position.y;
        assert(ddx == half || ddx == -half);
        lemma_square_strictly_monotonic(16, half as int);
        lemma_square_nonneg(ddy);
        assert(ddx * ddx == half * half) by (nonlinear_arith)
            requires
                ddx == half || ddx == -half,
        ;
    }
    fallback
}

} // verus!
