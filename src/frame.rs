use vstd::prelude::*;
use crate::buffer::SampleBuffer;
use crate::pipeline::{draw_trace, trace_call, DrawCall};

verus! {

/// Number of offset copies of the waveform drawn each frame.
pub const TRACE_COUNT: usize = 9;

/// Vertical distance between consecutive traces, in pixels; the first trace
/// is shifted by one step.
pub const SHIFT_STEP: u32 = 100;

/// The vertical shift of trace `j`.
pub open spec fn trace_shift(j: int) -> u32 {
    (SHIFT_STEP * (j + 1)) as u32
}

/// The draw calls of one frame over a buffer of `n` points, in order.
pub open spec fn frame_calls(n: nat) -> Seq<DrawCall> {
    Seq::new(TRACE_COUNT as nat, |j: int| trace_call(n, trace_shift(j)))
}

/// The frame counter after `frame`.
pub open spec fn next_frame(frame: u64) -> u64 {
    if frame == u64::MAX { 0 } else { (frame + 1) as u64 }
}

/// The per-frame driver: it owns the frame counter, which is the phase of
/// the waveform drawn in that frame.
pub struct FrameScheduler {
    frame: u64,
}

impl View for FrameScheduler {
    type V = u64;

    closed spec fn view(&self) -> u64 {
        self.frame
    }
}

impl FrameScheduler {
    /// A scheduler before its first frame.
    pub fn new() -> (r: FrameScheduler)
        ensures
            r@ == 0,
    {
        FrameScheduler { frame: 0 }
    }

    /// The counter of the next frame.
    pub fn frame(&self) -> (r: u64)
        ensures
            r == self@,
    {
        self.frame
    }

    /// One tick: rewrites the buffer with the current frame counter as phase,
    /// advances the counter, and returns the draw calls to issue after the
    /// buffer is uploaded, one per trace in ascending order of shift.
    pub fn tick(&mut self, buffer: &mut SampleBuffer) -> (draws: Vec<DrawCall>)
        requires
            old(buffer).wf(),
        ensures
            final(buffer).wf(),
            final(buffer)@ == old(buffer)@.rewritten(old(self)@),
            final(self)@ == next_frame(old(self)@),
            draws@ == frame_calls(old(buffer)@.points.len()),
    {
        buffer.rewrite(self.frame);
        self.frame = if self.frame == u64::MAX { 0 } else { self.frame + 1 };
        let mut draws: Vec<DrawCall> = Vec::new();
        let mut j: usize = 0;
        while j < TRACE_COUNT
            invariant
                buffer.wf(),
                j <= TRACE_COUNT,
                draws@.len() == j,
                forall|i: int| 0 <= i < j ==> draws@[i] == frame_calls(buffer@.points.len())[i],
            decreases TRACE_COUNT - j,
        {
            let shift = SHIFT_STEP * (j as u32 + 1);
            draws.push(draw_trace(buffer, shift));
            j += 1;
        }
        assert(draws@ =~= frame_calls(buffer@.points.len()));
        draws
    }
}

} // verus!
