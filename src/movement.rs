use vstd::prelude::*;

verus! {

/// Facing of a character.
#[derive(Clone, Copy, PartialEq, Eq, Structural, Debug)]
#[allow(non_camel_case_types)]
pub enum Directions {
    UP,
    DOWN,
    LEFT,
    RIGHT,
}

/// The four movement keys that are held down in one frame.
#[derive(Clone, Copy, PartialEq, Eq, Structural, Debug)]
pub struct PressedKeys {
    /// Up.
    pub w: bool,
    /// Left.
    pub a: bool,
    /// Down.
    pub s: bool,
    /// Right.
    pub d: bool,
}

/// Stats of the player.
#[derive(Clone, Copy, PartialEq, Eq, Structural, Debug)]
pub struct Stats {
    /// World units per second contributed by each held key.
    pub movement_speed: i32,
}

/// The player's stat block.
#[derive(Clone, Copy, PartialEq, Eq, Structural, Debug)]
pub struct Player {
    pub max_life: usize,
    pub life: usize,
    pub stats: Stats,
}

/// Velocity intent of one frame (world units per second) and the last
/// facing that input gave.
#[derive(Clone, Copy, PartialEq, Eq, Structural, Debug)]
pub struct Movement {
    pub x: i64,
    pub y: i64,
    pub direction: Directions,
}

/// A world-space position, in nano-units (a billionth of a world unit).
#[derive(Clone, Copy, PartialEq, Eq, Structural, Debug)]
pub struct Position {
    pub x: i64,
    pub y: i64,
}

/// Speed contributed by one key: `speed` if it is held, else nothing.
pub open spec fn contribution(held: bool, speed: int) -> int {
    if held {
        speed
    } else {
        0
    }
}

/// Horizontal velocity for the held keys: right counts positive, left negative.
pub open spec fn velocity_x(keys: PressedKeys, speed: int) -> int {
    contribution(keys.d, speed) - contribution(keys.a, speed)
}

/// Vertical velocity for the held keys: up counts positive, down negative.
pub open spec fn velocity_y(keys: PressedKeys, speed: int) -> int {
    contribution(keys.w, speed) - contribution(keys.s, speed)
}

/// Facing after the keys are processed in the order W, A, S, D: the last held
/// key wins, and with no key held the previous facing stays.
pub open spec fn resolved_direction(keys: PressedKeys, previous: Directions) -> Directions {
    if keys.d {
        Directions::RIGHT
    } else if keys.s {
        Directions::DOWN
    } else if keys.a {
        Directions::LEFT
    } else if keys.w {
        Directions::UP
    } else {
        previous
    }
}

/// One coordinate moved at velocity `v` for `dt` nanoseconds.
pub open spec fn advanced(p: int, v: int, dt: int) -> int {
    p + v * dt
}

/// One coordinate after `n` frames of `dt` nanoseconds each at velocity `v`.
pub open spec fn advanced_frames(p: int, v: int, dt: int, n: nat) -> int
    decreases n,
{
    if n == 0 {
        p
    } else {
        advanced(advanced_frames(p, v, dt, (n - 1) as nat), v, dt)
    }
}

impl PressedKeys {
    /// No key held.
    pub fn none() -> (r: PressedKeys)
        ensures
            !r.w && !r.a && !r.s && !r.d,
    {
        PressedKeys { w: false, a: false, s: false, d: false }
    }
}

impl Player {
    /// The player as it enters the world: full life out of 100, speed 50.
    pub fn new() -> (r: Player)
        ensures
            r.max_life == 100,
            r.life == 100,
            r.stats.movement_speed == 50,
    {
        Player { max_life: 100, life: 100, stats: Stats { movement_speed: 50 } }
    }
}

impl Movement {
    /// At rest, facing down.
    pub fn new() -> (r: Movement)
        ensures
            r.x == 0,
            r.y == 0,
            r.direction == Directions::DOWN,
    {
        Movement { x: 0, y: 0, direction: Directions::DOWN }
    }

    /// Zeroes the velocity and keeps the facing.
    pub fn clear(&mut self)
        ensures
            final(self).x == 0,
            final(self).y == 0,
            final(self).direction == old(self).direction,
    {
        self.x = 0;
        self.y = 0;
    }
}

/// Resolves this frame's input: clears the velocity, then adds each held
/// key's contribution in the order W, A, S, D, each held key also setting the
/// facing.
pub fn move_player(player: &Player, movement: &mut Movement, keys: PressedKeys)
    ensures
        final(movement).x == velocity_x(keys, player.stats.movement_speed as int),
        final(movement).y == velocity_y(keys, player.stats.movement_speed as int),
        final(movement).direction == resolved_direction(keys, old(movement).direction),
{
    let speed = player.stats.movement_speed as i64;
    movement.clear();
    if keys.w {
        movement.y = movement.y + speed;
        movement.direction = Directions::UP;
    }
    if keys.a {
        movement.x = movement.x - speed;
        movement.direction = Directions::LEFT;
    }
    if keys.s {
        movement.y = movement.y - speed;
        movement.direction = Directions::DOWN;
    }
    if keys.d {
        movement.x = movement.x + speed;
        movement.direction = Directions::RIGHT;
    }
}

/// Advances `position` by the velocity over `delta` nanoseconds, each axis on
/// its own. The new position must fit the coordinate type.
pub fn movement_system(position: &mut Position, movement: &Movement, delta: u64)
    requires
        i64::MIN <= advanced(old(position).x as int, movement.x as int, delta as int) <= i64::MAX,
        i64::MIN <= advanced(old(position).y as int, movement.y as int, delta as int) <= i64::MAX,
    ensures
        final(position).x == advanced(old(position).x as int, movement.x as int, delta as int),
        final(position).y == advanced(old(position).y as int, movement.y as int, delta as int),
{
    let dx = scaled(movement.x, delta);
    let dy = scaled(movement.y, delta);
    position.x = (position.x as i128 + dx) as i64;
    position.y = (position.y as i128 + dy) as i64;
}

/// `v * dt`, which always fits in 128 bits.
fn scaled(v: i64, dt: u64) -> (r: i128)
    ensures
        r == v * dt,
{
    proof {
        let vi = v as int;
        let di = dt as int;
        assert(-0x8000_0000_0000_0000 * 0xffff_ffff_ffff_ffff <= vi * di <= 0x7fff_ffff_ffff_ffff
            * 0xffff_ffff_ffff_ffff) by (nonlinear_arith)
            requires
                -0x8000_0000_0000_0000 <= vi <= 0x7fff_ffff_ffff_ffff,
                0 <= di <= 0xffff_ffff_ffff_ffff,
        ;
    }
    (v as i128) * (dt as i128)
}

/// Integration does not drift: `n` frames of `dt` nanoseconds each at a
/// constant velocity `v` move a coordinate exactly as far as one step of
/// `n * dt` nanoseconds would.
pub proof fn lemma_constant_velocity_no_drift(p: int, v: int, dt: int, n: nat)
    ensures
        advanced_frames(p, v, dt, n) == advanced(p, v, n * dt),
    decreases n,
{
    if n > 0 {
        lemma_constant_velocity_no_drift(p, v, dt, (n - 1) as nat);
        assert(p + v * ((n - 1) * dt) + v * dt == p + v * (n * dt)) by (nonlinear_arith);
    } else {
        assert(v * (n * dt) == 0) by (nonlinear_arith)
            requires
                n == 0,
        ;
    }
}

} // verus!
