use vstd::prelude::*;
use crate::buffer::SampleBuffer;

verus! {

/// The uniforms and vertex range of one line-strip draw call over the
/// uploaded buffer.
#[derive(Clone, Copy, Debug, PartialEq, Eq, Structural)]
pub struct DrawCall {
    /// The x-modulus uniform; zero leaves the x-coordinates unfolded.
    pub xmod_x: u32,
    pub xmod_y: u32,
    /// The shift uniform, added to every point.
    pub shift_x: u32,
    pub shift_y: u32,
    /// First vertex of the strip.
    pub first: i32,
    /// Number of vertices of the strip.
    pub count: i32,
}

/// The draw call of one trace of a buffer of `n` points, shifted down by `shift_y`.
pub open spec fn trace_call(n: nat, shift_y: u32) -> DrawCall {
    DrawCall { xmod_x: 0, xmod_y: 0, shift_x: 0, shift_y, first: 0, count: n as i32 }
}

/// One trace of the buffer: no x-folding, a vertical shift of `shift_y`, and
/// a line strip over every point, that is `capacity / 2` vertices.
pub fn draw_trace(buffer: &SampleBuffer, shift_y: u32) -> (r: DrawCall)
    requires
        buffer.wf(),
    ensures
        r == trace_call(buffer@.points.len(), shift_y),
        r.count == buffer@.capacity() / 2,
{
    let n = buffer.points_len();
    DrawCall { xmod_x: 0, xmod_y: 0, shift_x: 0, shift_y, first: 0, count: n as i32 }
}

/// Whatever the shift, a trace is drawn over the same vertices: all `n` points.
pub proof fn lemma_trace_count_ignores_shift(n: nat, s1: u32, s2: u32)
    requires
        n <= crate::buffer::MAX_POINTS,
    ensures
        trace_call(n, s1).count == trace_call(n, s2).count,
        trace_call(n, s1).first == 0,
        trace_call(n, s1).count == n,
{
}

} // verus!
