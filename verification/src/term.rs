//! Terminal-side arithmetic: mapping raw pixel sizes to character grids
//! and interpreting touch series as scroll motions.
//!
//! Reading the actual window, screen, and touch events is browser work
//! and stays outside this library; these functions take the raw numbers
//! and are verified on them.

use vstd::prelude::*;

verus! {

/// One scroll step, as a touch series produces it.
#[derive(Debug, PartialEq, Eq, Clone, Copy, Structural)]
pub enum ScrollMotion {
    Up,
    Down,
}

/// The number of characters that fit in a window of the given raw size.
pub fn get_window_size(raw_width: u16, raw_height: u16) -> (r: (u16, u16))
    ensures
        r.0 == raw_width / 10,
        r.1 == raw_height / 20,
{
    (raw_width / 10, raw_height / 20)
}

/// The number of characters that fit on a screen of the given raw size.
pub fn get_screen_size(raw_width: u16, raw_height: u16) -> (r: (u16, u16))
    ensures
        r.0 == raw_width / 10,
        r.1 == raw_height / 19,
{
    (raw_width / 10, raw_height / 19)
}

/// The page position at which a touch event occurred.
#[derive(Debug, Default, Clone, Copy, PartialEq, Eq, Structural)]
pub struct Position {
    pub x: i32,
    pub y: i32,
}

/// The absolute value of an integer.
pub open spec fn abs_int(v: int) -> int {
    if v >= 0 {
        v
    } else {
        -v
    }
}

/// Whether two touch positions lie close enough to belong to one motion:
/// within 200 length units of each other, that is, with a squared
/// distance below 201 squared.
pub open spec fn spec_connected(a: Position, b: Position) -> bool {
    (a.x - b.x) * (a.x - b.x) + (a.y - b.y) * (a.y - b.y) < 40401
}

impl Position {
    /// A position from raw page coordinates.
    pub fn new(x: i32, y: i32) -> (r: Self)
        ensures
            r == (Position { x, y }),
    {
        Position { x, y }
    }

    /// Whether the given position is feasibly part of the same touch
    /// motion as this one.
    pub fn is_connected(&self, pos: Position) -> (r: bool)
        ensures
            r == spec_connected(*self, pos),
    {
        let dx = (self.x as i128) - (pos.x as i128);
        let dy = (self.y as i128) - (pos.y as i128);
        proof {
            assert(0 <= dx * dx <= 0x10000000000000000) by (nonlinear_arith)
                requires
                    -0x100000000 <= dx <= 0x100000000,
            ;
            assert(0 <= dy * dy <= 0x10000000000000000) by (nonlinear_arith)
                requires
                    -0x100000000 <= dy <= 0x100000000,
            ;
        }
        dx * dx + dy * dy < 40401
    }
}

/// Interprets a series of touch events as scroll motions: vertical
/// movement accumulates, and every full 20 units of accumulated travel
/// yields one scroll step.
#[derive(Debug, Default, Clone, PartialEq, Eq, Structural)]
pub struct TouchScroll {
    last: Position,
    acc: i64,
}

impl TouchScroll {
    /// The accumulated vertical travel, for the contracts below.
    pub closed spec fn spec_acc(&self) -> i64 {
        self.acc
    }

    /// The last position seen, for the contracts below.
    pub closed spec fn spec_last(&self) -> Position {
        self.last
    }

    /// A new accumulator with no touch history.
    pub fn new() -> (r: Self)
        ensures
            r.spec_acc() == 0,
            r.spec_last() == (Position { x: 0, y: 0 }),
    {
        Self { last: Position { x: 0, y: 0 }, acc: 0 }
    }

    /// Starts a new touch series at the given position, resetting any
    /// accumulated travel.
    pub fn init_touch(&mut self, x: i32, y: i32)
        ensures
            final(self).spec_last() == (Position { x, y }),
            final(self).spec_acc() == 0,
    {
        self.last = Position::new(x, y);
        self.acc = 0;
    }

    /// Adds one touch to the series and returns the scroll steps it
    /// produced: nothing when the touch is too far from the last one to
    /// be connected; otherwise one step per full 20 units of accumulated
    /// vertical travel — upward steps for upward travel, downward steps
    /// otherwise — with the remainder kept for the next touch.
    pub fn add_touch(&mut self, x: i32, y: i32) -> (r: Vec<ScrollMotion>)
        requires
            -0x80000000 <= old(self).spec_acc() <= 0x80000000,
        ensures
            ({
                let pos = Position { x, y };
                if !spec_connected(old(self).spec_last(), pos) {
                    &&& r@.len() == 0
                    &&& *final(self) == *old(self)
                } else {
                    let travel = old(self).spec_acc() + (old(self).spec_last().y - pos.y);
                    &&& final(self).spec_last() == pos
                    &&& r@.len() == abs_int(travel) / 20
                    &&& (travel > 0 ==> (forall|i: int|
                        0 <= i < r@.len() ==> r@[i] == ScrollMotion::Up) && final(self).spec_acc()
                        == abs_int(travel) % 20)
                    &&& (travel <= 0 ==> (forall|i: int|
                        0 <= i < r@.len() ==> r@[i] == ScrollMotion::Down)
                        && final(self).spec_acc() == -(abs_int(travel) % 20))
                }
            }),
            -20 < final(self).spec_acc() < 20 || *final(self) == *old(self),
    {
        let pos = Position::new(x, y);
        if self.last.is_connected(pos) {
            let travel: i64 = self.acc + (self.last.y as i64 - pos.y as i64);
            let positive = travel > 0;
            let mag: u64 = if positive {
                travel as u64
            } else {
                (-travel) as u64
            };
            let count: u64 = mag / 20;
            let rem: u64 = mag % 20;
            let val = if positive {
                self.acc = rem as i64;
                ScrollMotion::Up
            } else {
                self.acc = -(rem as i64);
                ScrollMotion::Down
            };
            self.last = pos;
            let mut out: Vec<ScrollMotion> = Vec::new();
            let mut k: u64 = 0;
            while k < count
                invariant
                    0 <= k <= count,
                    out@.len() == k,
                    forall|i: int| 0 <= i < k ==> out@[i] == val,
                decreases count - k,
            {
                out.push(val);
                k += 1;
            }
            out
        } else {
            Vec::new()
        }
    }
}

} // verus!
