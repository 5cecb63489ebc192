//! Double buffering between the drawing code and the display task.
//!
//! Two frame buffers circulate through two channels of capacity one: the
//! application draws into its back buffer, presents it by sending it on the
//! front channel, and then waits for the other buffer on the back channel;
//! the display task takes each presented buffer from the front channel,
//! writes it to the panel and sends it back. `SwapChain` is the
//! application's side; `Place`, `Pipeline` and the laws below describe the
//! whole cycle.
use vstd::prelude::*;

verus! {

/// The application's side of the double buffer: the buffer it may draw into,
/// absent only while a frame is being presented.
pub struct SwapChain<B> {
    back_buffer: Option<B>,
}

impl<B> SwapChain<B> {
    /// The buffer held for drawing, if any.
    pub closed spec fn back(&self) -> Option<B> {
        self.back_buffer
    }

    /// A swap chain that draws into `back`; the caller hands the other
    /// buffer to the display side's back channel.
    pub fn new(back: B) -> (s: Self)
        ensures
            s.back() == Some(back),
    {
        SwapChain { back_buffer: Some(back) }
    }

    /// Whether a buffer is held for drawing.
    pub fn has_back_buffer(&self) -> (r: bool)
        ensures
            r == self.back() is Some,
    {
        self.back_buffer.is_some()
    }

    /// The buffer to draw into.
    pub fn back_buffer(&mut self) -> (b: &mut B)
        requires
            old(self).back() is Some,
        ensures
            *b == old(self).back()->0,
            final(self).back() == Some(*final(b)),
    {
        match &mut self.back_buffer {
            Some(b) => b,
            None => unreached(),
        }
    }

    /// Starts presenting: gives up the back buffer, to be sent on the front
    /// channel.
    pub fn take_back_buffer(&mut self) -> (b: B)
        requires
            old(self).back() is Some,
        ensures
            b == old(self).back()->0,
            final(self).back() is None,
    {
        self.back_buffer.take().unwrap()
    }

    /// Finishes presenting: the buffer received from the back channel becomes
    /// the back buffer.
    pub fn put_back_buffer(&mut self, recycled: B)
        ensures
            final(self).back() == Some(recycled),
    {
        self.back_buffer = Some(recycled);
    }
}

/// Where a frame buffer is in the cycle.
#[derive(Clone, Copy, PartialEq, Eq, Structural, Debug)]
pub enum Place {
    /// The application's back buffer, being drawn into.
    Drawing,
    /// Taken by `present`, waiting for room on the front channel.
    Submitting,
    /// In the front channel.
    Queued,
    /// Held by the display task, being written to the panel.
    Scanning,
    /// Written out, waiting for room on the back channel.
    Returning,
    /// In the back channel, waiting for the application.
    Recycled,
}

/// The places of the two frame buffers.
#[derive(Clone, Copy, PartialEq, Eq, Structural, Debug)]
pub struct Pipeline {
    pub first: Place,
    pub second: Place,
}

/// The buffer is in the application's hands.
pub open spec fn held_by_app(p: Place) -> bool {
    p == Place::Drawing || p == Place::Submitting
}

/// The buffer is in the display task's hands.
pub open spec fn held_by_display(p: Place) -> bool {
    p == Place::Scanning || p == Place::Returning
}

/// Where a buffer at `p` goes in the next step of its holder, given where the
/// other buffer is; `None` where that holder has to wait.
pub open spec fn advance(p: Place, other: Place) -> Option<Place> {
    match p {
        Place::Drawing => Some(Place::Submitting),
        Place::Submitting => if other != Place::Queued {
            Some(Place::Queued)
        } else {
            None
        },
        Place::Queued => if !held_by_display(other) {
            Some(Place::Scanning)
        } else {
            None
        },
        Place::Scanning => Some(Place::Returning),
        Place::Returning => if other != Place::Recycled {
            Some(Place::Recycled)
        } else {
            None
        },
        Place::Recycled => if !held_by_app(other) {
            Some(Place::Drawing)
        } else {
            None
        },
    }
}

/// The pipeline after moving the first buffer one step, if it can move.
pub open spec fn step_first(s: Pipeline) -> Option<Pipeline> {
    match advance(s.first, s.second) {
        Some(p) => Some(Pipeline { first: p, second: s.second }),
        None => None,
    }
}

/// The pipeline after moving the second buffer one step, if it can move.
pub open spec fn step_second(s: Pipeline) -> Option<Pipeline> {
    match advance(s.second, s.first) {
        Some(p) => Some(Pipeline { first: s.first, second: p }),
        None => None,
    }
}

/// `t` follows `s` by one step of the application or the display task.
pub open spec fn pipeline_step(s: Pipeline, t: Pipeline) -> bool {
    step_first(s) == Some(t) || step_second(s) == Some(t)
}

/// The state right after `SwapChain::new`: the application draws into the
/// first buffer, the second waits in the back channel.
pub open spec fn pipeline_start() -> Pipeline {
    Pipeline { first: Place::Drawing, second: Place::Recycled }
}

/// The two buffers are in different places, the application holds at most
/// one of them and so does the display task.
pub open spec fn pipeline_valid(s: Pipeline) -> bool {
    &&& s.first != s.second
    &&& !(held_by_app(s.first) && held_by_app(s.second))
    &&& !(held_by_display(s.first) && held_by_display(s.second))
}

/// The state after the steps `moves` from `s`, each step moving the first
/// buffer (`false`) or the second (`true`); `None` if some step cannot be
/// taken.
pub open spec fn pipeline_run(s: Pipeline, moves: Seq<bool>) -> Option<Pipeline>
    decreases moves.len(),
{
    if moves.len() == 0 {
        Some(s)
    } else {
        match pipeline_run(s, moves.drop_last()) {
            Some(m) => if moves.last() {
                step_second(m)
            } else {
                step_first(m)
            },
            None => None,
        }
    }
}

/// The starting state is valid.
pub proof fn lemma_pipeline_start_valid()
    ensures
        pipeline_valid(pipeline_start()),
{
}

/// Every step keeps the pipeline valid: a channel never holds two buffers,
/// and neither side ever holds both.
pub proof fn lemma_pipeline_step_valid(s: Pipeline, t: Pipeline)
    requires
        pipeline_valid(s),
        pipeline_step(s, t),
    ensures
        pipeline_valid(t),
{
}

/// Every state reachable from the start is valid.
pub proof fn lemma_pipeline_reachable_valid(moves: Seq<bool>)
    ensures
        pipeline_run(pipeline_start(), moves) matches Some(t) ==> pipeline_valid(t),
    decreases moves.len(),
{
    if moves.len() > 0 {
        lemma_pipeline_reachable_valid(moves.drop_last());
        if let Some(m) = pipeline_run(pipeline_start(), moves.drop_last()) {
            if let Some(t) = pipeline_run(pipeline_start(), moves) {
                assert(pipeline_step(m, t));
                lemma_pipeline_step_valid(m, t);
            }
        }
    }
}

/// The pipeline never deadlocks: in every valid state one of the two sides
/// can move a buffer on.
pub proof fn lemma_pipeline_live(s: Pipeline)
    requires
        pipeline_valid(s),
    ensures
        step_first(s) is Some || step_second(s) is Some,
{
}

/// The place after `p` in the cycle every buffer runs through.
pub open spec fn cycle_next(p: Place) -> Place {
    match p {
        Place::Drawing => Place::Submitting,
        Place::Submitting => Place::Queued,
        Place::Queued => Place::Scanning,
        Place::Scanning => Place::Returning,
        Place::Returning => Place::Recycled,
        Place::Recycled => Place::Drawing,
    }
}

/// A buffer only ever moves to the next place of the cycle: a presented
/// frame is written to the panel before its buffer is drawn into again.
pub proof fn lemma_pipeline_cycle(p: Place, other: Place)
    ensures
        advance(p, other) matches Some(q) ==> q == cycle_next(p),
{
}

} // verus!
