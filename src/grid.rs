use vstd::prelude::*;
use rand::Rng;
use vstd::arithmetic::div_mod::{lemma_fundamental_div_mod, lemma_fundamental_div_mod_converse};

verus! {

/// Number of columns of the grid.
pub const GRID_SIZE_X: i16 = 25;

/// Number of rows of the grid.
pub const GRID_SIZE_Y: i16 = 25;

/// `value` brought into `[0, n)` by a non-negative remainder.
pub open spec fn wrap(value: int, n: int) -> int {
    value % n
}

/// The non-negative remainder of `value` by `n`: `((value % n) + n) % n`
/// with Rust's truncating `%`.
pub fn modulus_signed(value: i32, n: i32) -> (r: i32)
    requires
        n > 0,
    ensures
        r == wrap(value as int, n as int),
        0 <= r < n,
{
    let v: i64 = value as i64;
    let m: i64 = n as i64;
    let t: i64 = v % m;
    let s: i64 = t + m;
    let r: i64 = s % m;
    proof {
        let a: int = v as int;
        let d: int = m as int;
        if v >= 0 {
            lemma_fundamental_div_mod(a, d);
            lemma_fundamental_div_mod_converse(s as int, d, 1, t as int);
        } else {
            let b: int = -a;
            let q: int = b / d;
            let w: int = b % d;
            lemma_fundamental_div_mod(b, d);
            assert(t == -w);
            if w == 0 {
                lemma_fundamental_div_mod_converse(s as int, d, 1, 0);
                assert(a == (-q) * d + 0) by (nonlinear_arith)
                    requires
                        b == d * q + w,
                        w == 0,
                        a == -b,
                ;
                lemma_fundamental_div_mod_converse(a, d, -q, 0);
            } else {
                lemma_fundamental_div_mod_converse(s as int, d, 0, s as int);
                assert(a == (-q - 1) * d + (d - w)) by (nonlinear_arith)
                    requires
                        b == d * q + w,
                        a == -b,
                ;
                lemma_fundamental_div_mod_converse(a, d, -q - 1, d - w);
            }
        }
    }
    r as i32
}

/// Law of wraparound: for every width `w > 0` and every integer `v`,
/// `wrap(v, w)` lies in `[0, w)`, and adding `w` to `v` does not change it.
pub proof fn lemma_wrap(v: int, w: int)
    requires
        w > 0,
    ensures
        0 <= wrap(v, w) < w,
        wrap(v + w, w) == wrap(v, w),
{
    lemma_fundamental_div_mod(v, w);
    assert(v + w == (v / w + 1) * w + v % w) by (nonlinear_arith)
        requires
            v == w * (v / w) + v % w,
    ;
    lemma_fundamental_div_mod_converse(v + w, w, v / w + 1, v % w);
}

/// One of the four directions of movement.
#[derive(Clone, Copy, Debug, PartialEq, Eq, Structural)]
pub enum Direction {
    Up,
    Down,
    Left,
    Right,
}

/// The opposite direction: Up and Down, Left and Right.
pub open spec fn inverse_of(d: Direction) -> Direction {
    match d {
        Direction::Up => Direction::Down,
        Direction::Down => Direction::Up,
        Direction::Left => Direction::Right,
        Direction::Right => Direction::Left,
    }
}

/// Column step of a unit move in direction `d`.
pub open spec fn step_x(d: Direction) -> int {
    match d {
        Direction::Left => -1,
        Direction::Right => 1,
        _ => 0,
    }
}

/// Row step of a unit move in direction `d` (rows grow downwards).
pub open spec fn step_y(d: Direction) -> int {
    match d {
        Direction::Up => -1,
        Direction::Down => 1,
        _ => 0,
    }
}

impl Direction {
    /// The opposite direction.
    pub fn inverse(&self) -> (r: Direction)
        ensures
            r == inverse_of(*self),
    {
        match *self {
            Direction::Up => Direction::Down,
            Direction::Down => Direction::Up,
            Direction::Left => Direction::Right,
            Direction::Right => Direction::Left,
        }
    }
}

/// A cell of the grid.
#[derive(Clone, Copy, Debug, PartialEq, Eq, Structural)]
pub struct GridPosition {
    pub x: i16,
    pub y: i16,
}

/// The cell reached from `p` by one step in direction `d`: the coordinate
/// along `d` moves by one and wraps around the grid, the other stays.
pub open spec fn moved(p: GridPosition, d: Direction) -> GridPosition {
    match d {
        Direction::Up | Direction::Down => GridPosition {
            x: p.x,
            y: wrap(p.y + step_y(d), GRID_SIZE_Y as int) as i16,
        },
        Direction::Left | Direction::Right => GridPosition {
            x: wrap(p.x + step_x(d), GRID_SIZE_X as int) as i16,
            y: p.y,
        },
    }
}

/// Whether `p` lies on the grid.
pub open spec fn in_grid(p: GridPosition) -> bool {
    0 <= p.x < GRID_SIZE_X && 0 <= p.y < GRID_SIZE_Y
}

impl From<(i16, i16)> for GridPosition {
    fn from(position: (i16, i16)) -> (r: GridPosition) {
        GridPosition { x: position.0, y: position.1 }
    }
}

impl vstd::std_specs::convert::FromSpecImpl<(i16, i16)> for GridPosition {
    open spec fn obeys_from_spec() -> bool {
        true
    }

    open spec fn from_spec(position: (i16, i16)) -> GridPosition {
        GridPosition { x: position.0, y: position.1 }
    }
}

impl GridPosition {
    pub fn new(x: i16, y: i16) -> (r: GridPosition)
        ensures
            r.x == x,
            r.y == y,
    {
        GridPosition { x, y }
    }

    /// A cell drawn uniformly from `[0, max_x) x [0, max_y)`.
    /// Relies on rand's `thread_rng().gen_range(low..high)`, which returns a
    /// value in `[low, high)` and panics only on an empty range.
    #[verifier::external_body]
    pub(crate) fn random(max_x: i16, max_y: i16) -> (r: GridPosition)
        requires
            max_x > 0,
            max_y > 0,
        ensures
            0 <= r.x < max_x,
            0 <= r.y < max_y,
    {
        let mut rng = rand::thread_rng();
        GridPosition { x: rng.gen_range(0..max_x), y: rng.gen_range(0..max_y) }
    }

    /// The cell one step from `position` in `direction`, wrapped onto the grid.
    pub fn new_from_move(position: GridPosition, direction: Direction) -> (r: GridPosition)
        ensures
            r == moved(position, direction),
            in_grid(position) ==> in_grid(r),
    {
        proof {
            lemma_wrap(position.x as int, GRID_SIZE_X as int);
            lemma_wrap(position.y as int, GRID_SIZE_Y as int);
            lemma_wrap(position.x - 1, GRID_SIZE_X as int);
            lemma_wrap(position.y - 1, GRID_SIZE_Y as int);
            lemma_wrap(position.x + 1, GRID_SIZE_X as int);
            lemma_wrap(position.y + 1, GRID_SIZE_Y as int);
        }
        let x: i32 = position.x as i32;
        let y: i32 = position.y as i32;
        let w: i32 = GRID_SIZE_X as i32;
        let h: i32 = GRID_SIZE_Y as i32;
        match direction {
            Direction::Up => GridPosition::new(position.x, modulus_signed(y - 1, h) as i16),
            Direction::Down => GridPosition::new(position.x, modulus_signed(y + 1, h) as i16),
            Direction::Left => GridPosition::new(modulus_signed(x - 1, w) as i16, position.y),
            Direction::Right => GridPosition::new(modulus_signed(x + 1, w) as i16, position.y),
        }
    }
}

} // verus!
