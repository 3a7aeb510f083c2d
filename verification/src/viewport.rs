//! Scroll position of the viewport, in whole pixels.
//!
//! Scroll input arrives as a number of wheel lines per axis. A gesture of `d`
//! lines moves the content by `speed * d * d` pixels in the direction of `d`, so a
//! fast gesture travels disproportionately farther than a slow one. The content
//! never moves right of or below the window origin.

use vstd::prelude::*;
use crate::pixel::{saturate, saturate_i128};

verus! {

/// Direction of a scroll delta: `1`, `0` or `-1`.
pub open spec fn sign(delta: int) -> int {
    if delta > 0 {
        1
    } else if delta < 0 {
        -1
    } else {
        0
    }
}

/// Pixels travelled for a gesture of `delta` lines: the square of the magnitude,
/// scaled by `speed`, in the direction of `delta`.
pub open spec fn displacement(delta: int, speed: int) -> int {
    speed * (delta * delta) * sign(delta)
}

/// One axis of the offset after a gesture: moved by the displacement, then kept
/// at or below zero and inside the pixel range.
pub open spec fn scroll_axis(offset: int, delta: int, speed: int) -> int {
    let moved = saturate(offset + displacement(delta, speed));
    if moved > 0 {
        0
    } else {
        moved
    }
}

/// Computes [`displacement`] exactly; the result of any `i32` inputs fits.
pub fn acceleration(delta: i32, speed: i32) -> (r: i128)
    ensures
        r == displacement(delta as int, speed as int),
        -0x2000_0000_0000_0000_0000_0000 <= r <= 0x2000_0000_0000_0000_0000_0000,
{
    let d: i128 = delta as i128;
    let s: i128 = speed as i128;
    assert(0 <= d * d <= 0x4000_0000_0000_0000) by (nonlinear_arith)
        requires
            -0x8000_0000 <= d <= 0x8000_0000,
    ;
    let square: i128 = d * d;
    assert(-0x2000_0000_0000_0000_0000_0000 <= s * square <= 0x2000_0000_0000_0000_0000_0000)
        by (nonlinear_arith)
        requires
            -0x8000_0000 <= s <= 0x8000_0000,
            0 <= square <= 0x4000_0000_0000_0000,
    ;
    let scaled: i128 = s * square;
    if delta > 0 {
        scaled
    } else if delta < 0 {
        -scaled
    } else {
        0
    }
}

/// How far the grid content is moved from the window origin, in pixels.
#[derive(Clone, Copy, Debug, PartialEq, Eq, Structural)]
pub struct ViewportOffset {
    pub x: i64,
    pub y: i64,
}

impl Default for ViewportOffset {
    /// The offset of a fresh session.
    fn default() -> (o: ViewportOffset)
        ensures
            o == (ViewportOffset { x: 0, y: 0 }),
    {
        ViewportOffset { x: 0, y: 0 }
    }
}

impl ViewportOffset {
    /// Content may only move left and up: neither component is positive.
    pub open spec fn wf(&self) -> bool {
        self.x <= 0 && self.y <= 0
    }

    /// The offset that a gesture of `(delta_x, delta_y)` lines leads to.
    pub open spec fn scrolled(self, delta_x: int, delta_y: int, speed: int) -> ViewportOffset {
        ViewportOffset {
            x: scroll_axis(self.x as int, delta_x, speed) as i64,
            y: scroll_axis(self.y as int, delta_y, speed) as i64,
        }
    }

    /// The offset of a fresh session: the top-left corner of the dataset.
    pub fn origin() -> (o: ViewportOffset)
        ensures
            o.x == 0,
            o.y == 0,
            o.wf(),
    {
        ViewportOffset { x: 0, y: 0 }
    }

    /// Applies one scroll gesture and returns the new offset.
    pub fn apply_scroll(self, delta_x: i32, delta_y: i32, speed: i32) -> (o: ViewportOffset)
        ensures
            o == self.scrolled(delta_x as int, delta_y as int, speed as int),
            o.wf(),
    {
        ViewportOffset {
            x: scroll_one(self.x, delta_x, speed),
            y: scroll_one(self.y, delta_y, speed),
        }
    }
}

/// The scroll position of one session. All changes go through
/// [`ViewportState::apply_scroll`], so the offset is never positive.
pub struct ViewportState {
    offset: ViewportOffset,
}

impl View for ViewportState {
    type V = ViewportOffset;

    closed spec fn view(&self) -> ViewportOffset {
        self.offset
    }
}

impl ViewportState {
    #[verifier::type_invariant]
    spec fn inv(self) -> bool {
        self.offset.wf()
    }

    /// A viewport at the top-left corner of the dataset.
    pub fn new() -> (state: ViewportState)
        ensures
            state@ == (ViewportOffset { x: 0, y: 0 }),
    {
        ViewportState { offset: ViewportOffset::origin() }
    }

    /// The current offset.
    pub fn offset(&self) -> (o: ViewportOffset)
        ensures
            o == self@,
            o.wf(),
    {
        proof {
            use_type_invariant(self);
        }
        self.offset
    }

    /// Applies one scroll gesture of `(delta_x, delta_y)` lines and returns the
    /// new offset.
    pub fn apply_scroll(&mut self, delta_x: i32, delta_y: i32, speed: i32) -> (o: ViewportOffset)
        ensures
            final(self)@ == old(self)@.scrolled(delta_x as int, delta_y as int, speed as int),
            o == final(self)@,
            o.wf(),
    {
        self.offset = self.offset.apply_scroll(delta_x, delta_y, speed);
        self.offset
    }
}

/// One scroll gesture: lines along x, lines along y, and the speed in force.
pub type Gesture = (int, int, int);

/// The offset reached from `start` after the gestures of `gestures`, in order.
pub open spec fn scrolled_through(start: ViewportOffset, gestures: Seq<Gesture>) -> ViewportOffset
    decreases gestures.len(),
{
    if gestures.len() == 0 {
        start
    } else {
        let g = gestures.last();
        scrolled_through(start, gestures.drop_last()).scrolled(g.0, g.1, g.2)
    }
}

/// Whatever the starting offset and the gesture, neither component of the new
/// offset is positive.
pub proof fn lemma_scrolled_is_clamped(start: ViewportOffset, delta_x: int, delta_y: int, speed: int)
    ensures
        start.scrolled(delta_x, delta_y, speed).wf(),
{
}

/// After every gesture of any sequence of gestures, from any starting offset,
/// `x <= 0` and `y <= 0`.
pub proof fn lemma_clamp_invariant(start: ViewportOffset, gestures: Seq<Gesture>)
    ensures
        forall|n: int|
            1 <= n <= gestures.len() ==> (#[trigger] scrolled_through(start, gestures.take(n))).wf(),
{
    assert forall|n: int| 1 <= n <= gestures.len() implies (#[trigger] scrolled_through(
        start,
        gestures.take(n),
    )).wf() by {
        let prefix = gestures.take(n);
        let g = prefix.last();
        lemma_scrolled_is_clamped(scrolled_through(start, prefix.drop_last()), g.0, g.1, g.2);
    }
}

/// From an offset of zero, a gesture of `delta` lines at `speed` leaves the axis
/// at `speed * delta^2 * sign(delta)` where that is negative and fits the pixel
/// range, and at zero where it is positive.
pub proof fn lemma_acceleration(delta_x: int, delta_y: int, speed: int)
    ensures
        displacement(delta_y, speed) == speed * delta_y * delta_y * sign(delta_y),
        i64::MIN <= displacement(delta_y, speed) <= 0 ==> (ViewportOffset { x: 0, y: 0 }).scrolled(
            delta_x,
            delta_y,
            speed,
        ).y == displacement(delta_y, speed),
        displacement(delta_y, speed) >= 0 ==> (ViewportOffset { x: 0, y: 0 }).scrolled(
            delta_x,
            delta_y,
            speed,
        ).y == 0,
        i64::MIN <= displacement(delta_x, speed) <= 0 ==> (ViewportOffset { x: 0, y: 0 }).scrolled(
            delta_x,
            delta_y,
            speed,
        ).x == displacement(delta_x, speed),
        displacement(delta_x, speed) >= 0 ==> (ViewportOffset { x: 0, y: 0 }).scrolled(
            delta_x,
            delta_y,
            speed,
        ).x == 0,
{
    assert(speed * (delta_y * delta_y) * sign(delta_y) == speed * delta_y * delta_y * sign(delta_y))
        by (nonlinear_arith);
}

/// A gesture of zero lines on both axes leaves a well-formed offset as it is,
/// whatever the speed.
pub proof fn lemma_zero_scroll(start: ViewportOffset, speed: int)
    requires
        start.wf(),
    ensures
        start.scrolled(0, 0, speed) == start,
{
    assert(speed * (0int * 0int) * sign(0) == 0) by (nonlinear_arith);
}

/// Any number of zero gestures in a row leaves a well-formed offset as it is.
pub proof fn lemma_zero_scrolls(start: ViewportOffset, gestures: Seq<Gesture>)
    requires
        start.wf(),
        forall|i: int| 0 <= i < gestures.len() ==> gestures[i].0 == 0 && gestures[i].1 == 0,
    ensures
        scrolled_through(start, gestures) == start,
    decreases gestures.len(),
{
    if gestures.len() > 0 {
        lemma_zero_scrolls(start, gestures.drop_last());
        lemma_zero_scroll(start, gestures.last().2);
    }
}

fn scroll_one(offset: i64, delta: i32, speed: i32) -> (r: i64)
    ensures
        r == scroll_axis(offset as int, delta as int, speed as int),
        r <= 0,
{
    let moved: i64 = saturate_i128(offset as i128 + acceleration(delta, speed));
    if moved > 0 {
        0
    } else {
        moved
    }
}

} // verus!
