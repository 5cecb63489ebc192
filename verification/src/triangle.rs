//! The bouncing-triangle demo: a triangle that slides down and up the screen
//! in steps of five pixels per frame, turning round whenever its offset
//! leaves `0..240`.
use vstd::prelude::*;

verus! {

/// A point on the display, in pixels.
#[derive(Clone, Copy, PartialEq, Eq, Structural, Debug)]
pub struct Point {
    pub x: i32,
    pub y: i32,
}

/// Vertical distance covered per frame.
pub const BOUNCE_STEP: i32 = 5;

/// End (exclusive) of the band of offsets in which the triangle keeps its
/// direction.
pub const BOUNCE_LIMIT: i32 = 240;

/// Number of frames after which the motion repeats.
pub const BOUNCE_PERIOD: u32 = 98;

/// One frame of the motion on (offset, step): move by the step, then turn
/// round if the new offset lies outside `0..BOUNCE_LIMIT`.
pub open spec fn bounce_next(s: (int, int)) -> (int, int) {
    let a = s.0 + s.1;
    if 0 <= a < BOUNCE_LIMIT {
        (a, s.1)
    } else {
        (a, -s.1)
    }
}

/// The state in which the demo starts: no offset, moving down.
pub open spec fn bounce_start() -> (int, int) {
    (0, BOUNCE_STEP as int)
}

/// The state after `n` frames from `s`.
pub open spec fn bounce_after(s: (int, int), n: nat) -> (int, int)
    decreases n,
{
    if n == 0 {
        s
    } else {
        bounce_next(bounce_after(s, (n - 1) as nat))
    }
}

/// The states that the motion can be in: the offset is a multiple of five
/// in `-5..=240`, the step is five either way, and at the two turning points
/// the step already points back.
pub open spec fn bounce_valid(s: (int, int)) -> bool {
    &&& s.1 == 5 || s.1 == -5
    &&& -5 <= s.0 <= 240
    &&& s.0 % 5 == 0
    &&& s.0 == 240 ==> s.1 == -5
    &&& s.0 == -5 ==> s.1 == 5
}

/// The state of frame `k` of one period (`k < 98`): down in 48 frames to
/// offset 240, up in 49 frames to offset -5, then one frame back to 0.
pub open spec fn bounce_phase(k: int) -> (int, int) {
    if k < 48 {
        (5 * k, 5)
    } else if k < 97 {
        (480 - 5 * k, -5)
    } else {
        (-5, 5)
    }
}

/// Every frame keeps the motion valid: the offset never leaves `-5..=240`.
pub proof fn lemma_bounce_stays_valid(s: (int, int))
    requires
        bounce_valid(s),
    ensures
        bounce_valid(bounce_next(s)),
{
}

proof fn lemma_phase_step(k: int)
    requires
        0 <= k < 98,
    ensures
        bounce_next(bounce_phase(k)) == bounce_phase(if k < 97 { k + 1 } else { 0 }),
{
}

/// After `n` frames from the start, the demo is at frame `n % 98` of the
/// period.
pub proof fn lemma_bounce_closed_form(n: nat)
    ensures
        bounce_after(bounce_start(), n) == bounce_phase(n as int % 98),
    decreases n,
{
    if n > 0 {
        lemma_bounce_closed_form((n - 1) as nat);
        let k = (n - 1) as int % 98;
        lemma_phase_step(k);
        assert(n as int % 98 == if k < 97 { k + 1 } else { 0 });
    }
}

/// The motion is periodic: 98 frames later the demo is in the same state.
pub proof fn lemma_bounce_periodic(n: nat)
    ensures
        bounce_after(bounce_start(), n + BOUNCE_PERIOD as nat) == bounce_after(bounce_start(), n),
{
    lemma_bounce_closed_form(n);
    lemma_bounce_closed_form(n + 98);
    assert((n + 98) as int % 98 == n as int % 98);
}

/// Every state reached from the start is valid.
pub proof fn lemma_bounce_reachable_valid(n: nat)
    ensures
        bounce_valid(bounce_after(bounce_start(), n)),
    decreases n,
{
    if n > 0 {
        lemma_bounce_reachable_valid((n - 1) as nat);
        lemma_bounce_stays_valid(bounce_after(bounce_start(), (n - 1) as nat));
    }
}

/// The triangle `(0, 0), (50, 0), (25, 50)` moved down by `offset`.
pub open spec fn triangle_at(offset: int) -> (Point, Point, Point) {
    (
        Point { x: 0, y: offset as i32 },
        Point { x: 50, y: offset as i32 },
        Point { x: 25, y: (offset + 50) as i32 },
    )
}

/// The demo's triangle and its motion.
pub struct BouncingTriangle {
    a: Point,
    b: Point,
    c: Point,
    amount: i32,
    step: i32,
}

impl BouncingTriangle {
    /// The offset and step of the motion.
    pub closed spec fn state(&self) -> (int, int) {
        (self.amount as int, self.step as int)
    }

    /// The three vertices.
    pub closed spec fn vertices(&self) -> (Point, Point, Point) {
        (self.a, self.b, self.c)
    }

    #[verifier::type_invariant]
    spec fn inv(&self) -> bool {
        &&& bounce_valid(self.state())
        &&& self.a == (Point { x: 0, y: self.amount })
        &&& self.b == (Point { x: 50, y: self.amount })
        &&& self.c == (Point { x: 25, y: (self.amount + 50) as i32 })
    }

    /// The triangle at its starting place, about to move down.
    pub fn new() -> (t: Self)
        ensures
            t.state() == bounce_start(),
            t.vertices() == triangle_at(0),
    {
        BouncingTriangle {
            a: Point { x: 0, y: 0 },
            b: Point { x: 50, y: 0 },
            c: Point { x: 25, y: 50 },
            amount: 0,
            step: BOUNCE_STEP,
        }
    }

    /// Moves the triangle by one frame and returns the vertical distance it
    /// moved (the step before any turn).
    pub fn advance(&mut self) -> (moved: i32)
        ensures
            final(self).state() == bounce_next(old(self).state()),
            final(self).vertices() == triangle_at(final(self).state().0),
            moved as int == old(self).state().1,
            bounce_valid(final(self).state()),
    {
        proof { use_type_invariant(&*self); }
        let moved = self.step;
        let amount = self.amount + moved;
        let step = if 0 <= amount && amount < BOUNCE_LIMIT { moved } else { -moved };
        *self = BouncingTriangle {
            a: Point { x: self.a.x, y: self.a.y + moved },
            b: Point { x: self.b.x, y: self.b.y + moved },
            c: Point { x: self.c.x, y: self.c.y + moved },
            amount,
            step,
        };
        moved
    }

    /// The three vertices, in the order `(0, 0), (50, 0), (25, 50)` moved down
    /// by the current offset.
    pub fn vertices_now(&self) -> (v: (Point, Point, Point))
        ensures
            v == self.vertices(),
            v == triangle_at(self.state().0),
            bounce_valid(self.state()),
    {
        proof { use_type_invariant(self); }
        (self.a, self.b, self.c)
    }

    /// The current vertical offset.
    pub fn offset(&self) -> (o: i32)
        ensures
            o as int == self.state().0,
    {
        self.amount
    }
}

} // verus!
