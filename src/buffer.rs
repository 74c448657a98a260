use vstd::prelude::*;
use vstd::arithmetic::div_mod::{lemma_small_mod, lemma_mod_self_0};

verus! {

/// Largest number of points a buffer holds: one per pixel column of the canvas.
pub const MAX_POINTS: usize = 4000;

/// The y-coordinate of one point, kept exactly so that the host turns it into
/// a pixel height when it uploads the buffer.
#[derive(Clone, Copy, Debug, PartialEq, Eq, Structural)]
pub enum Height {
    /// The waveform `sin(2 * index / 10 + phase / 2) * 50`, sampled at point `index`.
    Wave { index: u32, phase: u64 },
    /// A streamed sample, held as the bit pattern of an IEEE-754 single.
    Sample { bits: u32 },
}

/// One point of the plot: its x-coordinate in pixels and its height.
#[derive(Clone, Copy, Debug, PartialEq, Eq, Structural)]
pub struct Point {
    pub x: u32,
    pub y: Height,
}

/// Why a buffer could not be configured for a canvas.
#[derive(Clone, Copy, Debug, PartialEq, Eq, Structural)]
pub enum ConfigError {
    /// The canvas has no pixel columns.
    ZeroWidth,
    /// The canvas is wider than `MAX_POINTS` pixels.
    TooWide,
}

/// The abstract state of a `SampleBuffer`.
pub struct BufferModel {
    pub points: Seq<Point>,
    pub write_cursor: nat,
    pub sample_index: nat,
}

/// The point that the waveform of `phase` puts at index `k`.
pub open spec fn wave_point(k: int, phase: u64) -> Point {
    Point { x: k as u32, y: Height::Wave { index: k as u32, phase } }
}

/// The whole waveform of `phase` over `n` points.
pub open spec fn wave(n: nat, phase: u64) -> Seq<Point> {
    Seq::new(n, |k: int| wave_point(k, phase))
}

impl BufferModel {
    /// Number of floats the buffer uploads: two per point.
    pub open spec fn capacity(self) -> nat {
        2 * self.points.len()
    }

    pub open spec fn wf(self) -> bool {
        &&& 1 <= self.points.len() <= MAX_POINTS
        &&& self.sample_index < self.points.len()
        &&& self.write_cursor == 2 * self.sample_index
    }

    /// The state after streaming one sample.
    pub open spec fn appended(self, bits: u32) -> BufferModel {
        BufferModel {
            points: self.points.update(
                self.sample_index as int,
                Point { x: self.sample_index as u32, y: Height::Sample { bits } },
            ),
            write_cursor: (self.write_cursor + 2) % self.capacity(),
            sample_index: (self.sample_index + 1) % self.points.len(),
        }
    }

    /// The state after recomputing every point from `phase`; the streaming
    /// cursors are left as they were.
    pub open spec fn rewritten(self, phase: u64) -> BufferModel {
        BufferModel {
            points: wave(self.points.len(), phase),
            write_cursor: self.write_cursor,
            sample_index: self.sample_index,
        }
    }
}

/// A fixed-capacity circular store of points.
pub struct SampleBuffer {
    points: Vec<Point>,
    write_cursor: usize,
    sample_index: usize,
}

impl View for SampleBuffer {
    type V = BufferModel;

    closed spec fn view(&self) -> BufferModel {
        BufferModel {
            points: self.points@,
            write_cursor: self.write_cursor as nat,
            sample_index: self.sample_index as nat,
        }
    }
}

/// The configuration check on a canvas width.
pub open spec fn width_error(width: u32) -> Option<ConfigError> {
    if width == 0 {
        Some(ConfigError::ZeroWidth)
    } else if width > MAX_POINTS {
        Some(ConfigError::TooWide)
    } else {
        None
    }
}

/// The state of a fresh buffer of `n` points.
pub open spec fn blank(n: nat) -> BufferModel {
    BufferModel {
        points: Seq::new(n, |k: int| Point { x: 0, y: Height::Sample { bits: 0 } }),
        write_cursor: 0,
        sample_index: 0,
    }
}

impl SampleBuffer {
    pub open spec fn wf(&self) -> bool {
        self@.wf()
    }

    /// A buffer with one point per pixel column of a canvas `width` pixels
    /// wide, every point at the origin, both cursors at the start.
    pub fn new(width: u32) -> (r: Result<SampleBuffer, ConfigError>)
        ensures
            r is Ok <==> width_error(width) is None,
            r matches Err(e) ==> width_error(width) == Some(e),
            r matches Ok(b) ==> (b.wf() && b@ == blank(width as nat)),
    {
        if width == 0 {
            return Err(ConfigError::ZeroWidth);
        }
        if width as usize > MAX_POINTS {
            return Err(ConfigError::TooWide);
        }
        let n = width as usize;
        let mut points: Vec<Point> = Vec::new();
        let origin = Point { x: 0, y: Height::Sample { bits: 0 } };
        while points.len() < n
            invariant
                n <= MAX_POINTS,
                points.len() <= n,
                forall|k: int| 0 <= k < points@.len() ==> points@[k] == origin,
            decreases n - points.len(),
        {
            points.push(origin);
        }
        let b = SampleBuffer { points, write_cursor: 0, sample_index: 0 };
        assert(b@.points =~= blank(n as nat).points);
        Ok(b)
    }

    /// Number of points.
    pub fn points_len(&self) -> (r: usize)
        ensures
            r == self@.points.len(),
    {
        self.points.len()
    }

    /// Number of floats the buffer uploads: two per point.
    pub fn capacity(&self) -> (r: usize)
        requires
            self.wf(),
        ensures
            r == self@.capacity(),
    {
        2 * self.points.len()
    }

    /// Index of the float where the next streamed sample goes.
    pub fn write_cursor(&self) -> (r: usize)
        ensures
            r == self@.write_cursor,
    {
        self.write_cursor
    }

    /// Index of the point where the next streamed sample goes.
    pub fn sample_index(&self) -> (r: usize)
        ensures
            r == self@.sample_index,
    {
        self.sample_index
    }

    /// The points, in order, for the host to upload.
    pub fn points(&self) -> (r: &Vec<Point>)
        ensures
            r@ == self@.points,
    {
        &self.points
    }

    /// Streams one sample: writes `(sample_index, bits)` at the cursor and
    /// advances both cursors, wrapping to the start at the end of the buffer.
    pub fn add_point(&mut self, bits: u32)
        requires
            old(self).wf(),
        ensures
            final(self).wf(),
            final(self)@ == old(self)@.appended(bits),
    {
        let n = self.points.len();
        let i = self.sample_index;
        self.points.set(i, Point { x: i as u32, y: Height::Sample { bits } });
        self.write_cursor = (self.write_cursor + 2) % (2 * n);
        self.sample_index = (i + 1) % n;
        proof {
            if i + 1 < n {
                lemma_small_mod((i + 1) as nat, n as nat);
                lemma_small_mod((2 * i + 2) as nat, (2 * n) as nat);
            } else {
                lemma_mod_self_0(n as int);
                lemma_mod_self_0((2 * n) as int);
            }
        }
    }

    /// Recomputes every point from `phase`: point `k` gets x-coordinate `k`
    /// and the height of the waveform of `phase` at `k`.
    pub fn rewrite(&mut self, phase: u64)
        requires
            old(self).wf(),
        ensures
            final(self).wf(),
            final(self)@ == old(self)@.rewritten(phase),
    {
        let n = self.points.len();
        let mut k: usize = 0;
        while k < n
            invariant
                n == self.points.len(),
                n == old(self)@.points.len(),
                n <= MAX_POINTS,
                k <= n,
                self.write_cursor == old(self).write_cursor,
                self.sample_index == old(self).sample_index,
                forall|j: int| 0 <= j < k ==> self.points@[j] == wave_point(j, phase),
            decreases n - k,
        {
            self.points.set(k, Point { x: k as u32, y: Height::Wave { index: k as u32, phase } });
            k += 1;
        }
        assert(self.points@ =~= wave(n as nat, phase));
    }
}

/// After a rewrite a buffer of capacity `c` holds exactly `c / 2` points, whose
/// x-coordinates are `0, 1, ..., c / 2 - 1` in order.
pub proof fn lemma_rewrite_x_coordinates(b: BufferModel, phase: u64)
    requires
        b.wf(),
    ensures
        b.rewritten(phase).points.len() == b.capacity() / 2,
        forall|k: int|
            0 <= k < b.capacity() / 2 ==> #[trigger] b.rewritten(phase).points[k].x == k,
{
}

/// A second rewrite replaces every height of the first: nothing of the first
/// phase remains, and each point carries the waveform of the second.
pub proof fn lemma_rewrite_overwrites(b: BufferModel, p1: u64, p2: u64)
    requires
        b.wf(),
    ensures
        b.rewritten(p1).rewritten(p2) == b.rewritten(p2),
        forall|k: int|
            0 <= k < b.points.len() ==> #[trigger] b.rewritten(p1).rewritten(p2).points[k].y
                == (Height::Wave { index: k as u32, phase: p2 }),
{
    assert(b.rewritten(p1).rewritten(p2).points =~= b.rewritten(p2).points);
}

/// A rewrite is a function of the phase and the size alone: rewriting twice
/// with one phase changes nothing more, and two buffers of one size rewritten
/// with one phase hold the same points.
pub proof fn lemma_rewrite_deterministic(a: BufferModel, b: BufferModel, phase: u64)
    requires
        a.wf(),
        b.wf(),
        a.points.len() == b.points.len(),
    ensures
        a.rewritten(phase).rewritten(phase) == a.rewritten(phase),
        a.rewritten(phase).points == b.rewritten(phase).points,
{
    assert(a.rewritten(phase).points =~= b.rewritten(phase).points);
}

} // verus!
