//! The gameplay entities — player, enemies, bullets, waves and the
//! collision-test balls — together with the radius-only collision capability
//! that drives the game: two moving bodies collide exactly when the squared
//! distance between their centres is below the square of their summed radii.

use vstd::prelude::*;

use crate::collision::Circle;
use crate::collision::HitBoxes;
use crate::maths::lemma_mul_bound;
use crate::maths::squared_distance;
use crate::maths::Point;
use crate::maths::COORD_LIMIT;

verus! {

/// The speed a fresh player starts with, in grid units per second.
pub const PLAYER_DEFAULT_SPEED: i64 = 200;

/// The bounds of the game world.
#[derive(Clone, Copy, PartialEq, Eq, Structural, Debug)]
pub struct Size {
    pub width: i64,
    pub height: i64,
}

/// Relies on rand::random_range: a sample drawn from the given half-open
/// range, which must not be empty.
#[verifier::external_body]
fn random_in_range(low: i64, high: i64) -> (r: i64)
    requires
        low < high,
    ensures
        low <= r < high,
{
    rand::random_range(low..high)
}

impl Size {
    /// A usable world: positive extents on the bounded grid.
    pub open spec fn wf(self) -> bool {
        0 < self.width <= COORD_LIMIT && 0 < self.height <= COORD_LIMIT
    }

    /// Returns a new `Size` with the given extents.
    pub fn new(width: i64, height: i64) -> (s: Size)
        ensures
            s == (Size { width, height }),
    {
        Size { width, height }
    }

    /// A horizontal coordinate drawn from within the bounds.
    pub fn random_x(&self) -> (x: i64)
        requires
            self.wf(),
        ensures
            0 <= x < self.width,
    {
        random_in_range(0, self.width)
    }

    /// A vertical coordinate drawn from within the bounds.
    pub fn random_y(&self) -> (y: i64)
        requires
            self.wf(),
        ensures
            0 <= y < self.height,
    {
        random_in_range(0, self.height)
    }
}

impl Point {
    /// Returns a random `Point` within the given bounds (exclusive).
    pub fn random(bounds: &Size) -> (p: Point)
        requires
            bounds.wf(),
        ensures
            0 <= p.x < bounds.width,
            0 <= p.y < bounds.height,
            p.in_bounds(),
    {
        Point { x: bounds.random_x(), y: bounds.random_y() }
    }
}

/// One wrapping step at the world border: a coordinate that left `[0, bound)`
/// on one side comes back by one whole `bound`, exactly as the original
/// world wraps its entities. (A coordinate further out than one world stays
/// out; callers move entities by less than a world per tick.)
pub open spec fn wrap_once(k: int, bound: int) -> int {
    if k < 0 {
        k + bound
    } else if k >= bound {
        k - bound
    } else {
        k
    }
}

/// A reusable "has position and heading" component, embedded by value in
/// every entity that moves.
///
/// The heading is a direction vector on the grid rather than an angle in
/// radians: turning a pose around is then exact — negate the vector — and
/// the front end owns whatever trigonometry its movement and rendering
/// need.
#[derive(Clone, Copy, PartialEq, Eq, Structural, Debug)]
pub struct Pose {
    /// The position of the entity.
    pub position: Point,
    /// The direction the entity faces, as a non-zero vector.
    pub heading: Point,
}

impl Pose {
    /// A pose on the bounded grid.
    pub open spec fn wf(self) -> bool {
        self.position.in_bounds() && self.heading.in_bounds()
    }

    /// Returns a new `Pose`.
    pub fn new(position: Point, heading: Point) -> (v: Pose)
        ensures
            v == (Pose { position, heading }),
    {
        Pose { position, heading }
    }

    /// Returns a random `Pose` within the given bounds: a position drawn
    /// from inside them and some non-zero heading.
    pub fn random(bounds: &Size) -> (v: Pose)
        requires
            bounds.wf(),
        ensures
            0 <= v.position.x < bounds.width,
            0 <= v.position.y < bounds.height,
            v.heading.in_bounds(),
            v.heading != (Point { x: 0, y: 0 }),
            v.wf(),
    {
        let x = bounds.random_x();
        let y = bounds.random_y();
        let hx = random_in_range(-1000, 1001);
        let hy = random_in_range(-1000, 1001);
        let heading = if hx == 0 && hy == 0 {
            Point { x: 1000, y: 0 }
        } else {
            Point { x: hx, y: hy }
        };
        Pose { position: Point { x, y }, heading }
    }

    /// Turns the heading to face the given target exactly: the heading
    /// becomes the vector from the position to the target. (A target equal
    /// to the position would zero the heading, so it is left out.)
    pub fn point_to(&mut self, target: Point)
        requires
            old(self).position.in_bounds(),
            target.in_bounds(),
            target != old(self).position,
        ensures
            final(self).position == old(self).position,
            final(self).heading.x == target.x - old(self).position.x,
            final(self).heading.y == target.y - old(self).position.y,
    {
        self.heading = Point {
            x: target.x - self.position.x,
            y: target.y - self.position.y,
        };
    }

    /// Moves the position by the given displacement and wraps each
    /// coordinate once at the world border.
    pub fn advance_with_wrapping(&mut self, displacement: Point, bounds: &Size)
        requires
            old(self).position.in_bounds(),
            displacement.in_bounds(),
            bounds.wf(),
        ensures
            final(self).heading == old(self).heading,
            final(self).position.x == wrap_once(
                old(self).position.x + displacement.x,
                bounds.width as int,
            ),
            final(self).position.y == wrap_once(
                old(self).position.y + displacement.y,
                bounds.height as int,
            ),
    {
        let x = wrap_coordinate(self.position.x + displacement.x, bounds.width);
        let y = wrap_coordinate(self.position.y + displacement.y, bounds.height);
        self.position = Point { x, y };
    }

    /// Consumes the pose and returns one facing the opposite way (half a
    /// turn away, exactly).
    pub fn invert(self) -> (v: Pose)
        requires
            self.wf(),
        ensures
            v.position == self.position,
            v.heading.x == -self.heading.x,
            v.heading.y == -self.heading.y,
    {
        Pose { position: self.position, heading: self.heading.invert() }
    }
}

/// Two bodies reduced to a centre and a radius collide exactly when the
/// squared distance between the centres is strictly below the square of the
/// summed radii — no square root, and mere touching does not count.
pub open spec fn bodies_collide(p1: Point, r1: int, p2: Point, r2: int) -> bool {
    squared_distance(p1, p2) < (r1 + r2) * (r1 + r2)
}

/// The gameplay collision capability: anything with a centre and a radius
/// takes part in the circle-only collision test.
pub trait Collide: Sized {
    /// The centre the body is reduced to.
    spec fn centre(&self) -> Point;

    /// The radius the body is reduced to.
    spec fn radius_value(&self) -> int;

    /// The centre, as a value.
    fn position(&self) -> (p: Point)
        ensures
            p == self.centre(),
    ;

    /// The radius, as a value.
    fn radius(&self) -> (r: i64)
        ensures
            r == self.radius_value(),
    ;
}

/// The body sits on the bounded grid with a radius the predicate can
/// square.
pub open spec fn collidable<T: Collide>(x: T) -> bool {
    x.centre().in_bounds() && 0 <= x.radius_value() <= COORD_LIMIT
}

/// Decides `wrap_once` for one coordinate.
fn wrap_coordinate(k: i64, bound: i64) -> (r: i64)
    requires
        -2 * COORD_LIMIT <= k <= 2 * COORD_LIMIT,
        0 < bound <= COORD_LIMIT,
    ensures
        r == wrap_once(k as int, bound as int),
{
    if k < 0 {
        k + bound
    } else if k >= bound {
        k - bound
    } else {
        k
    }
}

/// Returns the diameter of a body: twice its radius.
pub fn diameter<T: Collide>(x: &T) -> (r: i64)
    requires
        collidable(*x),
    ensures
        r == 2 * x.radius_value(),
{
    x.radius() * 2
}

/// Returns true if the two bodies collide and false otherwise.
pub fn collides_with<A: Collide, B: Collide>(a: &A, b: &B) -> (r: bool)
    requires
        collidable(*a),
        collidable(*b),
    ensures
        r == bodies_collide(a.centre(), a.radius_value(), b.centre(), b.radius_value()),
{
    let sq = a.position().squared_distance_to(b.position());
    let radii = a.radius() + b.radius();
    proof {
        lemma_mul_bound(radii as int, radii as int, 2_000_000_000, 2_000_000_000);
    }
    sq < radii * radii
}

/// Enemies follow the player in order to cause a collision.
#[derive(Clone, Copy, PartialEq, Eq, Structural, Debug)]
pub struct Enemy {
    /// Where the enemy is and where it faces.
    pub vector: Pose,
}

impl Enemy {
    /// Create a enemy with the given vector.
    pub fn new(vector: Pose) -> (e: Enemy)
        ensures
            e == (Enemy { vector }),
    {
        Enemy { vector }
    }
}

impl Collide for Enemy {
    open spec fn centre(&self) -> Point {
        self.vector.position
    }

    open spec fn radius_value(&self) -> int {
        10
    }

    fn position(&self) -> (p: Point) {
        self.vector.position
    }

    fn radius(&self) -> (r: i64) {
        10
    }
}

/// Bullets are spawned when the player shoots; an enemy reached by one
/// explodes.
#[derive(Clone, Copy, PartialEq, Eq, Structural, Debug)]
pub struct Bullet {
    /// Where the bullet is and where it flies.
    pub vector: Pose,
}

impl Bullet {
    /// Create a bullet with the given vector.
    pub fn new(vector: Pose) -> (b: Bullet)
        ensures
            b == (Bullet { vector }),
    {
        Bullet { vector }
    }
}

impl Collide for Bullet {
    open spec fn centre(&self) -> Point {
        self.vector.position
    }

    open spec fn radius_value(&self) -> int {
        3
    }

    fn position(&self) -> (p: Point) {
        self.vector.position
    }

    fn radius(&self) -> (r: i64) {
        3
    }
}

/// The `Player` is the craft controlled by the user.
#[derive(Clone, Copy, PartialEq, Eq, Structural, Debug)]
pub struct Player {
    /// Where the player is and where it faces.
    pub vector: Pose,
    /// How fast the player moves, in grid units per second.
    pub speed: i64,
}

impl Player {
    /// Create a new `Player` with a random position and direction.
    pub fn random(bounds: &Size) -> (p: Player)
        requires
            bounds.wf(),
        ensures
            0 <= p.vector.position.x < bounds.width,
            0 <= p.vector.position.y < bounds.height,
            p.vector.wf(),
            p.speed == PLAYER_DEFAULT_SPEED,
    {
        Player { vector: Pose::random(bounds), speed: PLAYER_DEFAULT_SPEED }
    }
}

/// The element a wave carries; the renderer turns it into a colour.
#[derive(Clone, Copy, PartialEq, Eq, Structural, Debug)]
pub enum WaveKind {
    Grass,
    Fire,
    Water,
}

/// How much a wave's radius grows per second, in grid units.
pub const WAVE_SPEED_PER_SECOND: i64 = 500;

/// An expanding ring spawned where the player shoots.
#[derive(Clone, Copy, PartialEq, Eq, Structural, Debug)]
pub struct Wave {
    /// Where the wave was spawned.
    pub position: Point,
    /// The pose the wave was spawned with.
    pub vector: Pose,
    /// The current radius of the ring; it grows with every update.
    pub radius: i64,
    /// The element the wave carries.
    pub kind: WaveKind,
}

impl Wave {
    /// Create a wave centred at the given position.
    pub fn new(position: Point) -> (w: Wave)
        ensures
            w == (Wave {
                position,
                vector: Pose { position, heading: Point { x: 1, y: 0 } },
                radius: 30,
                kind: WaveKind::Grass,
            }),
    {
        let vector = Pose::new(position, Point::new(1, 0));
        Wave { position, vector, radius: 30, kind: WaveKind::Grass }
    }

    /// A fresh wave carrying grass.
    pub fn new_grass(position: Point) -> (w: Wave)
        ensures
            w == (Wave { kind: WaveKind::Grass, ..Wave::fresh(position) }),
    {
        let wave = Wave::new(position);
        wave
    }

    /// A fresh wave carrying fire.
    pub fn new_fire(position: Point) -> (w: Wave)
        ensures
            w == (Wave { kind: WaveKind::Fire, ..Wave::fresh(position) }),
    {
        let mut wave = Wave::new(position);
        wave.kind = WaveKind::Fire;
        wave
    }

    /// A fresh wave carrying water.
    pub fn new_water(position: Point) -> (w: Wave)
        ensures
            w == (Wave { kind: WaveKind::Water, ..Wave::fresh(position) }),
    {
        let mut wave = Wave::new(position);
        wave.kind = WaveKind::Water;
        wave
    }

    /// What a freshly spawned wave at `position` looks like.
    pub open spec fn fresh(position: Point) -> Wave {
        Wave {
            position,
            vector: Pose { position, heading: Point { x: 1, y: 0 } },
            radius: 30,
            kind: WaveKind::Grass,
        }
    }

    /// Grow the wave by the time passed, given in milliseconds.
    pub fn update(&mut self, dt_millis: i64)
        requires
            0 <= dt_millis <= 1_000_000_000_000_000,
            0 <= old(self).radius <= COORD_LIMIT,
        ensures
            *final(self) == (Wave {
                radius: (old(self).radius + WAVE_SPEED_PER_SECOND * dt_millis / 1000) as i64,
                ..*old(self)
            }),
    {
        self.radius = self.radius + WAVE_SPEED_PER_SECOND * dt_millis / 1000;
    }
}

impl Collide for Wave {
    open spec fn centre(&self) -> Point {
        self.vector.position
    }

    open spec fn radius_value(&self) -> int {
        self.radius as int
    }

    fn position(&self) -> (p: Point) {
        self.vector.position
    }

    fn radius(&self) -> (r: i64) {
        self.radius
    }
}

/// A ball of the collision-test visualization: it drifts with a fixed
/// velocity and shows whether it currently touches the player's position or
/// any of its neighbours.
#[derive(Clone, Debug)]
pub struct CollisionTestBall {
    /// Where the ball is.
    pub position: Point,
    /// How far the ball drifts per update.
    pub velocity: Point,
    /// The shape the ball collides as.
    pub hitbox: HitBoxes,
    /// Whether the last update found the ball in collision; the renderer
    /// turns this into a colour.
    pub colliding: bool,
}

/// The ball's circular hitbox meets the given circle; a ball carrying any
/// other shape never reports a hit here, mirroring that only circular
/// hitboxes take part in the ball-to-ball test.
pub open spec fn ball_hit_by(circle: Circle, ball: CollisionTestBall) -> bool {
    match ball.hitbox {
        HitBoxes::Circle(c) => circle.intersects_circle(c),
        _ => false,
    }
}

impl CollisionTestBall {
    /// A fresh test ball: a circular hitbox of radius 15 drifting from
    /// (50, 50), not yet colliding with anything.
    pub fn new() -> (ball: CollisionTestBall)
        ensures
            ball.position == (Point { x: 50, y: 50 }),
            ball.velocity == (Point { x: 50, y: 50 }),
            ball.hitbox == HitBoxes::Circle(
                Circle { radius: 15, centre: Point { x: 50, y: 50 } },
            ),
            !ball.colliding,
    {
        CollisionTestBall {
            position: Point::new(50, 50),
            velocity: Point::new(50, 50),
            hitbox: HitBoxes::Circle(Circle { radius: 15, centre: Point::new(50, 50) }),
            colliding: false,
        }
    }

    /// One step of the collision-test visualization: the ball drifts by its
    /// velocity; a ball with a circular hitbox re-centres it there and then
    /// flags whether it holds the player's position or touches the circular
    /// hitbox of any other ball. `units` is accepted for interface parity
    /// with the other update calls and plays no part in the drift.
    #[allow(unused_variables)]
    pub fn update_2(
        &mut self,
        units: i64,
        entities: &Vec<CollisionTestBall>,
        my_entity_index: i64,
        player_pos: Point,
    )
        requires
            old(self).position.in_bounds(),
            old(self).velocity.in_bounds(),
            -COORD_LIMIT <= old(self).position.x + old(self).velocity.x <= COORD_LIMIT,
            -COORD_LIMIT <= old(self).position.y + old(self).velocity.y <= COORD_LIMIT,
            old(self).hitbox.wf(),
            player_pos.in_bounds(),
            entities@.len() < 0x8000_0000_0000_0000,
            forall|j: int| 0 <= j < entities@.len() ==> (#[trigger] entities@[j]).hitbox.wf(),
        ensures
            final(self).position.x == old(self).position.x + old(self).velocity.x,
            final(self).position.y == old(self).position.y + old(self).velocity.y,
            final(self).velocity == old(self).velocity,
            match old(self).hitbox {
                HitBoxes::Circle(c) => {
                    let moved = Circle { radius: c.radius, centre: final(self).position };
                    &&& final(self).hitbox == HitBoxes::Circle(moved)
                    &&& final(self).colliding == (moved.contains_point(player_pos) || exists|j: int|
                        0 <= j < entities@.len() && j != my_entity_index && ball_hit_by(
                            moved,
                            #[trigger] entities@[j],
                        ))
                },
                _ => final(self).hitbox == old(self).hitbox && final(self).colliding == old(
                    self,
                ).colliding,
            },
    {
        self.position = self.position.translate(self.velocity);
        let own_radius = match &self.hitbox {
            HitBoxes::Circle(c) => Some(c.radius),
            _ => Option::None,
        };
        if let Some(radius) = own_radius {
            let moved = Circle { radius, centre: self.position };
            let mut found = false;
            let mut i: usize = 0;
            while i < entities.len()
                invariant
                    i <= entities@.len(),
                    entities@.len() < 0x8000_0000_0000_0000,
                    moved.wf(),
                    forall|j: int|
                        0 <= j < entities@.len() ==> (#[trigger] entities@[j]).hitbox.wf(),
                    found == (exists|j: int|
                        0 <= j < i && j != my_entity_index && ball_hit_by(
                            moved,
                            #[trigger] entities@[j],
                        )),
                decreases entities@.len() - i,
            {
                if (i as i64) != my_entity_index {
                    match &entities[i].hitbox {
                        HitBoxes::Circle(other_circle) => {
                            if moved.collide_with_circle(other_circle) {
                                found = true;
                            }
                        },
                        _ => {},
                    }
                }
                i = i + 1;
            }
            self.colliding = moved.collide_with_point(player_pos) || found;
            self.hitbox = HitBoxes::Circle(moved);
        }
    }
}

impl Collide for Player {
    open spec fn centre(&self) -> Point {
        self.vector.position
    }

    open spec fn radius_value(&self) -> int {
        6
    }

    fn position(&self) -> (p: Point) {
        self.vector.position
    }

    fn radius(&self) -> (r: i64) {
        6
    }
}

} // verus!
