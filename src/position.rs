use rand::Rng;
use vstd::prelude::*;

verus! {

/// Largest coordinate of the dispatch grid on each axis.
pub const GRID_LIMIT: u32 = 100;

/// A point on the 0..=100 grid, or the sentinel "infinity" that marks a
/// driver as unavailable for dispatch.
#[derive(Debug, Clone, Copy, PartialEq, Eq, Structural)]
pub struct Position {
    pub x: u32,
    pub y: u32,
}

pub open spec fn in_grid(p: Position) -> bool {
    p.x <= GRID_LIMIT && p.y <= GRID_LIMIT
}

pub open spec fn abs_diff(a: int, b: int) -> int {
    if a >= b {
        a - b
    } else {
        b - a
    }
}

/// Manhattan distance between two points, as a mathematical integer.
pub open spec fn manhattan(a: Position, b: Position) -> int {
    abs_diff(a.x as int, b.x as int) + abs_diff(a.y as int, b.y as int)
}

/// The distance reported by `distance_to`: Manhattan distance between
/// in-grid points, `u32::MAX` as soon as one of them is off the grid.
pub open spec fn grid_distance(a: Position, b: Position) -> u32 {
    if in_grid(a) && in_grid(b) {
        manhattan(a, b) as u32
    } else {
        u32::MAX
    }
}

pub open spec fn infinity_spec() -> Position {
    Position { x: u32::MAX, y: u32::MAX }
}

/// One coordinate moved toward `target` by at most `step` units.
pub open spec fn axis_step(cur: u32, target: u32, step: u32) -> u32 {
    if cur < target {
        if target - cur <= step {
            target
        } else {
            (cur + step) as u32
        }
    } else if cur > target {
        if cur - target <= step {
            target
        } else {
            (cur - step) as u32
        }
    } else {
        cur
    }
}

/// One movement tick toward `target`, with independent per-axis steps.
pub open spec fn stepped(cur: Position, target: Position, sx: u32, sy: u32) -> Position {
    Position { x: axis_step(cur.x, target.x, sx), y: axis_step(cur.y, target.y, sy) }
}

/// Largest step a driver makes on one axis in one movement tick.
pub const MAX_STEP: u32 = 3;

/// Largest drift of an idle driver on one axis between two reports.
pub const MAX_DRIFT: i32 = 10;

pub open spec fn clamp_to_grid(v: int) -> u32 {
    if v < 0 {
        0
    } else if v > GRID_LIMIT as int {
        GRID_LIMIT
    } else {
        v as u32
    }
}

/// An idle driver's position after a drift by `(-dx, -dy)`, clamped to the grid.
pub open spec fn drifted(p: Position, dx: int, dy: int) -> Position {
    Position { x: clamp_to_grid(p.x as int - dx), y: clamp_to_grid(p.y as int - dy) }
}

/// Relies on rand::Rng::gen_range over the thread-local generator: a value
/// drawn from the inclusive range `lo..=hi` (which must not be empty).
#[verifier::external_body]
pub(crate) fn random_between(lo: i32, hi: i32) -> (r: i32)
    requires
        lo <= hi,
    ensures
        lo <= r <= hi,
{
    rand::thread_rng().gen_range(lo..=hi)
}

fn axis_toward(cur: u32, target: u32, step: u32) -> (r: u32)
    ensures
        r == axis_step(cur, target, step),
{
    if cur < target {
        if target - cur <= step {
            target
        } else {
            cur + step
        }
    } else if cur > target {
        if cur - target <= step {
            target
        } else {
            cur - step
        }
    } else {
        cur
    }
}

fn clamp_axis(v: i64) -> (r: u32)
    ensures
        r == clamp_to_grid(v as int),
{
    if v < 0 {
        0
    } else if v > GRID_LIMIT as i64 {
        GRID_LIMIT
    } else {
        v as u32
    }
}

impl Position {
    /// A position with the given coordinates.
    pub fn new(x: u32, y: u32) -> (r: Self)
        ensures
            r.x == x,
            r.y == y,
    {
        Self { x, y }
    }

    /// A random in-grid position, each coordinate drawn from `0..100`.
    pub fn random() -> (r: Self)
        ensures
            r.x < 100,
            r.y < 100,
    {
        let x = random_between(0, 99);
        let y = random_between(0, 99);
        Self { x: x as u32, y: y as u32 }
    }

    /// The sentinel position of a driver that must not be offered work.
    pub fn infinity() -> (r: Self)
        ensures
            r == infinity_spec(),
    {
        Self { x: u32::MAX, y: u32::MAX }
    }

    /// Whether both coordinates lie on the grid.
    pub fn is_in_grid(&self) -> (r: bool)
        ensures
            r == in_grid(*self),
    {
        self.x <= GRID_LIMIT && self.y <= GRID_LIMIT
    }

    /// Manhattan distance to `p`; `u32::MAX` when either point is off the grid.
    pub fn distance_to(&self, p: &Position) -> (r: u32)
        ensures
            r == grid_distance(*self, *p),
            in_grid(*self) && in_grid(*p) ==> r as int == manhattan(*self, *p) && r <= 200,
    {
        if self.x > GRID_LIMIT || p.x > GRID_LIMIT || self.y > GRID_LIMIT || p.y > GRID_LIMIT {
            return u32::MAX;
        }
        let dx: u32 = if p.x >= self.x { p.x - self.x } else { self.x - p.x };
        let dy: u32 = if p.y >= self.y { p.y - self.y } else { self.y - p.y };
        dx + dy
    }

    /// Moves one tick toward `p`, each axis by `step_x` / `step_y` units at
    /// most, never past the target.
    pub fn step_toward(&mut self, p: &Position, step_x: u32, step_y: u32)
        ensures
            *final(self) == stepped(*old(self), *p, step_x, step_y),
    {
        self.x = axis_toward(self.x, p.x, step_x);
        self.y = axis_toward(self.y, p.y, step_y);
    }

    /// Moves one tick toward `p` with per-axis steps drawn from `0..=3`.
    pub fn go_to(&mut self, p: &Position)
        ensures
            exists|sx: u32, sy: u32|
                sx <= MAX_STEP && sy <= MAX_STEP && *final(self) == stepped(
                    *old(self),
                    *p,
                    sx,
                    sy,
                ),
    {
        let sx = random_between(0, MAX_STEP as i32) as u32;
        let sy = random_between(0, MAX_STEP as i32) as u32;
        self.step_toward(p, sx, sy);
    }

    /// A copy of this position.
    pub fn clone(&self) -> (r: Self)
        ensures
            r == *self,
    {
        Self { x: self.x, y: self.y }
    }

    /// Drifts by `(-dx, -dy)` and clamps each coordinate to `0..=100`.
    pub fn drift(&mut self, dx: i32, dy: i32)
        ensures
            *final(self) == drifted(*old(self), dx as int, dy as int),
    {
        self.x = clamp_axis(self.x as i64 - dx as i64);
        self.y = clamp_axis(self.y as i64 - dy as i64);
    }

    /// Drifts by an amount drawn from `-10..=10` on each axis, clamped to the grid.
    pub fn simulate(&mut self)
        ensures
            in_grid(*final(self)),
            exists|dx: int, dy: int|
                -MAX_DRIFT <= dx <= MAX_DRIFT && -MAX_DRIFT <= dy <= MAX_DRIFT && *final(self)
                    == drifted(*old(self), dx, dy),
    {
        let dx = random_between(-MAX_DRIFT, MAX_DRIFT);
        let dy = random_between(-MAX_DRIFT, MAX_DRIFT);
        self.drift(dx, dy);
    }
}

/// Distance is symmetric on any two points.
pub proof fn lemma_distance_symmetric(a: Position, b: Position)
    ensures
        grid_distance(a, b) == grid_distance(b, a),
{
}

/// On in-grid points distance obeys the triangle inequality.
pub proof fn lemma_distance_triangle(a: Position, b: Position, c: Position)
    requires
        in_grid(a),
        in_grid(b),
        in_grid(c),
    ensures
        grid_distance(a, c) as int <= grid_distance(a, b) as int + grid_distance(b, c) as int,
{
}

/// A point off the grid is at distance `u32::MAX` from every point.
pub proof fn lemma_distance_off_grid(a: Position, b: Position)
    requires
        !in_grid(a) || !in_grid(b),
    ensures
        grid_distance(a, b) == u32::MAX,
{
}

} // verus!
