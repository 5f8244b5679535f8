//! The frame buffer pair: a depth buffer and a parallel character buffer.
//!
//! Both buffers are flat arrays over the terminal grid, indexed by
//! `row * width + column`. The depth buffer stores an ordered depth key per
//! cell — larger means nearer to the camera — and the character buffer the
//! glyph of the sample that currently owns the cell. A sample lands in the
//! buffers only if its flat index is on the grid and its depth key strictly
//! exceeds the stored one; everything else is discarded silently. Depth keys
//! are plain unsigned integers: any order-preserving encoding of reciprocal
//! depth (for positive IEEE floats, the raw bit pattern is one) works, and
//! the cleared buffer holds the key of "nothing drawn yet", which is zero.

use vstd::prelude::*;
use vstd::pervasive::VecAdditionalExecFns;

verus! {

/// One projected sample: integer grid coordinates, an ordered depth key,
/// and the glyph of the face the sample belongs to.
#[derive(Clone, Copy, Debug, PartialEq, Eq, Structural)]
pub struct Sample {
    /// Column of the grid cell the sample projects to.
    pub xp: u32,
    /// Row of the grid cell the sample projects to.
    pub yp: u32,
    /// Ordered depth key; larger means nearer to the camera.
    pub depth: u32,
    /// Display character of the sample's face.
    pub glyph: char,
}

/// Flat buffer index a sample projects to, over a grid of the given width.
pub open spec fn sample_index(s: Sample, width: int) -> int {
    s.yp as int * width + s.xp as int
}

/// Effect of one sample on the buffer pair: if the sample's flat index is on
/// the grid and its depth key strictly exceeds the stored one, both cells
/// are overwritten; otherwise the buffers are left untouched.
pub open spec fn apply_sample(
    depth: Seq<u32>,
    glyphs: Seq<char>,
    s: Sample,
    width: int,
) -> (Seq<u32>, Seq<char>) {
    let n = sample_index(s, width);
    if 0 <= n && n < depth.len() && s.depth > depth[n] {
        (depth.update(n, s.depth), glyphs.update(n, s.glyph))
    } else {
        (depth, glyphs)
    }
}

/// Effect of a whole sequence of samples on the buffer pair, applied in
/// order.
pub open spec fn apply_samples(
    depth: Seq<u32>,
    glyphs: Seq<char>,
    samples: Seq<Sample>,
    width: int,
) -> (Seq<u32>, Seq<char>)
    decreases samples.len(),
{
    if samples.len() == 0 {
        (depth, glyphs)
    } else {
        let prev = apply_samples(depth, glyphs, samples.drop_last(), width);
        apply_sample(prev.0, prev.1, samples.last(), width)
    }
}

/// The depth buffer and the parallel character buffer for one frame.
pub struct FrameBuffer {
    /// Number of grid columns.
    pub width: u32,
    /// Number of grid rows.
    pub height: u32,
    /// Depth key per cell; larger means nearer. Zero means nothing drawn.
    pub depth: Vec<u32>,
    /// Glyph per cell; blank means nothing drawn.
    pub glyphs: Vec<char>,
}

impl FrameBuffer {
    /// Number of cells of the grid.
    pub open spec fn area(self) -> int {
        self.width as int * self.height as int
    }

    /// Both buffers cover the grid exactly.
    pub open spec fn wf(self) -> bool {
        self.depth@.len() == self.area() && self.glyphs@.len() == self.area()
    }

    /// A cleared buffer pair: every depth key zero, every glyph blank.
    pub open spec fn is_clear(self) -> bool {
        &&& forall|n: int| 0 <= n < self.area() ==> self.depth@[n] == 0
        &&& forall|n: int| 0 <= n < self.area() ==> self.glyphs@[n] == ' '
    }

    /// Allocate a cleared buffer pair for a grid of the given dimensions.
    pub fn new(width: u32, height: u32) -> (fb: FrameBuffer)
        requires
            width as int * height as int <= usize::MAX as int,
        ensures
            fb.wf(),
            fb.is_clear(),
            fb.width == width,
            fb.height == height,
    {
        let cells: usize = (width as usize) * (height as usize);
        let mut depth: Vec<u32> = Vec::new();
        let mut glyphs: Vec<char> = Vec::new();
        let mut n: usize = 0;
        while n < cells
            invariant
                n <= cells,
                depth@.len() == n,
                glyphs@.len() == n,
                forall|m: int| 0 <= m < n ==> depth@[m] == 0,
                forall|m: int| 0 <= m < n ==> glyphs@[m] == ' ',
            decreases cells - n,
        {
            depth.push(0);
            glyphs.push(' ');
            n = n + 1;
        }
        FrameBuffer { width, height, depth, glyphs }
    }

    /// Reset both buffers to the cleared state, keeping the dimensions.
    pub fn clear(&mut self)
        requires
            old(self).wf(),
        ensures
            final(self).wf(),
            final(self).is_clear(),
            final(self).width == old(self).width,
            final(self).height == old(self).height,
    {
        let cells: usize = self.depth.len();
        let mut n: usize = 0;
        while n < cells
            invariant
                n <= cells,
                self.depth@.len() == cells,
                self.glyphs@.len() == cells,
                self.width == old(self).width,
                self.height == old(self).height,
                forall|m: int| 0 <= m < n ==> self.depth@[m] == 0,
                forall|m: int| 0 <= m < n ==> self.glyphs@[m] == ' ',
            decreases cells - n,
        {
            self.depth.set(n, 0);
            self.glyphs.set(n, ' ');
            n = n + 1;
        }
    }

    /// Write one sample into the buffer pair: depth-test it against the
    /// stored key and overwrite both cells if it wins, drop it otherwise.
    /// A sample whose flat index lies off the grid never changes anything.
    pub fn plot(&mut self, s: Sample)
        requires
            old(self).wf(),
        ensures
            final(self).wf(),
            final(self).width == old(self).width,
            final(self).height == old(self).height,
            (final(self).depth@, final(self).glyphs@) == apply_sample(
                old(self).depth@,
                old(self).glyphs@,
                s,
                old(self).width as int,
            ),
    {
        let cells: usize = self.depth.len();
        proof {
            assert((s.yp as int) * (self.width as int) + (s.xp as int) <= u64::MAX)
                by (nonlinear_arith)
                requires s.yp <= u32::MAX, self.width <= u32::MAX, s.xp <= u32::MAX;
        }
        let flat: u64 = (s.yp as u64) * (self.width as u64) + (s.xp as u64);
        if flat < cells as u64 {
            let n: usize = flat as usize;
            if s.depth > self.depth[n] {
                self.depth.set(n, s.depth);
                self.glyphs.set(n, s.glyph);
            }
        }
    }

    /// Write a whole frame's worth of samples into the buffer pair, in
    /// order, depth-testing each one.
    pub fn rasterize(&mut self, samples: &Vec<Sample>)
        requires
            old(self).wf(),
        ensures
            final(self).wf(),
            final(self).width == old(self).width,
            final(self).height == old(self).height,
            (final(self).depth@, final(self).glyphs@) == apply_samples(
                old(self).depth@,
                old(self).glyphs@,
                samples@,
                old(self).width as int,
            ),
    {
        let ghost depth0 = self.depth@;
        let ghost glyphs0 = self.glyphs@;
        let ghost w0: u32 = self.width;
        let ghost h0: u32 = self.height;
        let mut t: usize = 0;
        while t < samples.len()
            invariant
                t <= samples.len(),
                self.wf(),
                self.width == w0,
                self.height == h0,
                (self.depth@, self.glyphs@) == apply_samples(
                    depth0,
                    glyphs0,
                    samples@.take(t as int),
                    w0 as int,
                ),
            decreases samples.len() - t,
        {
            proof {
                assert(samples@.take(t as int + 1).drop_last() =~= samples@.take(t as int));
                assert(samples@.take(t as int + 1).last() == samples@[t as int]);
            }
            let s = samples[t];
            self.plot(s);
            t = t + 1;
        }
        proof {
            assert(samples@.take(samples@.len() as int) =~= samples@);
        }
    }

    /// Flatten the character buffer into the text of one frame, row
    /// separators included: the cell at every flat index that is a multiple
    /// of the grid width is emitted as a newline instead of its stored
    /// glyph, so the first column of every row is never displayed.
    pub fn frame_chars(&self) -> (out: Vec<char>)
        requires
            self.wf(),
        ensures
            out@ == frame_text(self.glyphs@, self.width as int),
    {
        let mut out: Vec<char> = Vec::new();
        let mut k: usize = 0;
        let cells: usize = self.glyphs.len();
        while k < cells
            invariant
                k <= cells,
                self.wf(),
                cells == self.glyphs@.len(),
                out@ == frame_text(self.glyphs@, self.width as int).take(k as int),
            decreases cells - k,
        {
            let c: char = if self.width > 0 && k % (self.width as usize) == 0 {
                '\n'
            } else {
                self.glyphs[k]
            };
            out.push(c);
            proof {
                assert(out@ =~= frame_text(self.glyphs@, self.width as int).take(k as int + 1));
            }
            k = k + 1;
        }
        proof {
            assert(frame_text(self.glyphs@, self.width as int).take(cells as int)
                =~= frame_text(self.glyphs@, self.width as int));
        }
        out
    }
}

/// Text of one frame: one character per cell, except that the cell at every
/// flat index that is a multiple of the grid width becomes a newline.
pub open spec fn frame_text(glyphs: Seq<char>, width: int) -> Seq<char> {
    Seq::new(
        glyphs.len(),
        |k: int| if width != 0 && k % width == 0 { '\n' } else { glyphs[k] },
    )
}

/// Applying samples changes the cells' contents, never the buffers' sizes.
pub proof fn lemma_apply_samples_preserves_len(
    depth: Seq<u32>,
    glyphs: Seq<char>,
    samples: Seq<Sample>,
    width: int,
)
    requires
        glyphs.len() == depth.len(),
    ensures
        ({
            let end = apply_samples(depth, glyphs, samples, width);
            (end.0).len() == depth.len() && (end.1).len() == glyphs.len()
        }),
    decreases samples.len(),
{
    if samples.len() > 0 {
        lemma_apply_samples_preserves_len(depth, glyphs, samples.drop_last(), width);
    }
}

/// Depth-buffer law: a cell's stored depth key never decreases while a
/// frame's samples are applied, and no sample aimed at the cell — written
/// or discarded — carries a depth key greater than the one the cell stores
/// at the end.
pub proof fn lemma_no_nearer_sample_discarded(
    depth: Seq<u32>,
    glyphs: Seq<char>,
    samples: Seq<Sample>,
    width: int,
    n: int,
)
    requires
        0 <= n < depth.len(),
        glyphs.len() == depth.len(),
    ensures
        depth[n] <= apply_samples(depth, glyphs, samples, width).0[n],
        forall|t: int|
            0 <= t < samples.len() && sample_index(samples[t], width) == n
                ==> samples[t].depth <= apply_samples(depth, glyphs, samples, width).0[n],
    decreases samples.len(),
{
    if samples.len() > 0 {
        let shorter = samples.drop_last();
        let prev = apply_samples(depth, glyphs, shorter, width);
        let end = apply_samples(depth, glyphs, samples, width);
        lemma_no_nearer_sample_discarded(depth, glyphs, shorter, width, n);
        lemma_apply_samples_preserves_len(depth, glyphs, shorter, width);
        assert(prev.0[n] <= end.0[n]);
        assert forall|t: int|
            0 <= t < samples.len() && sample_index(samples[t], width) == n
                implies samples[t].depth <= end.0[n] by {
            if t < samples.len() - 1 {
                assert(shorter[t] == samples[t]);
            } else {
                assert(samples[t] == samples.last());
            }
        }
    }
}

/// The glyph a cell shows always came in together with the depth key the
/// cell stores: either the cell was never overwritten, or some sample aimed
/// at the cell carried exactly the stored depth key and the stored glyph.
pub proof fn lemma_stored_glyph_matches_stored_depth(
    depth: Seq<u32>,
    glyphs: Seq<char>,
    samples: Seq<Sample>,
    width: int,
    n: int,
)
    requires
        0 <= n < depth.len(),
        glyphs.len() == depth.len(),
    ensures
        ({
            let end = apply_samples(depth, glyphs, samples, width);
            (end.0[n] == depth[n] && end.1[n] == glyphs[n]) || (exists|t: int|
                0 <= t < samples.len() && sample_index(#[trigger] samples[t], width) == n
                    && samples[t].depth == end.0[n] && samples[t].glyph == end.1[n])
        }),
    decreases samples.len(),
{
    if samples.len() > 0 {
        let shorter = samples.drop_last();
        let prev = apply_samples(depth, glyphs, shorter, width);
        let end = apply_samples(depth, glyphs, samples, width);
        lemma_stored_glyph_matches_stored_depth(depth, glyphs, shorter, width, n);
        lemma_apply_samples_preserves_len(depth, glyphs, shorter, width);
        let s = samples.last();
        if sample_index(s, width) == n && s.depth > prev.0[n] {
            assert(sample_index(samples[samples.len() - 1], width) == n
                && samples[samples.len() - 1].depth == end.0[n]
                && samples[samples.len() - 1].glyph == end.1[n]);
        } else {
            assert(end.0[n] == prev.0[n] && end.1[n] == prev.1[n]);
            if !(prev.0[n] == depth[n] && prev.1[n] == glyphs[n]) {
                let t = choose|t: int|
                    0 <= t < shorter.len() && sample_index(#[trigger] shorter[t], width) == n
                        && shorter[t].depth == prev.0[n] && shorter[t].glyph == prev.1[n];
                assert(samples[t] == shorter[t]);
                assert(sample_index(samples[t], width) == n && samples[t].depth == end.0[n]
                    && samples[t].glyph == end.1[n]);
            }
        }
    }
}

/// Off-screen law: a sample whose flat index lies outside the buffer never
/// changes either buffer.
pub proof fn lemma_off_screen_sample_ignored(
    depth: Seq<u32>,
    glyphs: Seq<char>,
    s: Sample,
    width: int,
)
    requires
        sample_index(s, width) < 0 || sample_index(s, width) >= depth.len(),
    ensures
        apply_sample(depth, glyphs, s, width) == (depth, glyphs),
{
}

/// Row-separator law: in the flushed text of a frame, the character at
/// every flat index that is a multiple of the grid width is a newline and
/// never a face glyph; every other cell shows its stored glyph.
pub proof fn lemma_row_separator_quirk(glyphs: Seq<char>, width: int, k: int)
    requires
        0 < width,
        0 <= k < glyphs.len(),
    ensures
        k % width == 0 ==> frame_text(glyphs, width)[k] == '\n',
        k % width != 0 ==> frame_text(glyphs, width)[k] == glyphs[k],
{
}

} // verus!
