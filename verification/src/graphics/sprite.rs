//! The sprite batching core: a fixed-capacity staging queue of quad vertex
//! data with parallel texture handles, and a batch session that groups the
//! queued quads into maximal same-texture runs, one draw submission each.
//!
//! The GPU itself lives outside this crate: a batch hands back a
//! [`FlushPlan`] naming exactly which vertex data to upload and which
//! vertex/index sub-ranges to submit with which texture; the caller performs
//! the uploads and submissions.

use vstd::prelude::*;

use vstd::arithmetic::div_mod::lemma_fundamental_div_mod_converse;

use crate::graphics::texture::{Frac, Texture, TextureRegion, spec_corners};

verus! {

/// Vertices per quad.
pub const QUAD_VERTEX_SIZE: usize = 4;

/// Indices per quad: two triangles.
pub const QUAD_INDEX_SIZE: usize = 6;

/// Quads a batch stages before it must flush.
pub const BATCH_SIZE: usize = 1024;

/// Vertices the staging queue and the GPU vertex buffer are sized for.
pub const BATCH_VERTEX_SIZE: usize = QUAD_VERTEX_SIZE * BATCH_SIZE;

/// Indices the GPU index buffer is sized for.
pub const BATCH_INDEX_SIZE: usize = QUAD_INDEX_SIZE * BATCH_SIZE;

/// The number of maximal stretches of consecutive same-identity textures in
/// a queue of texture handles: the number of draw submissions one flush of
/// that queue issues.
pub open spec fn run_count(ts: Seq<Texture>) -> int
    decreases ts.len(),
{
    if ts.len() == 0 {
        0
    } else if ts.len() == 1 {
        1
    } else if ts[ts.len() - 1].id == ts[ts.len() - 2].id {
        run_count(ts.drop_last())
    } else {
        run_count(ts.drop_last()) + 1
    }
}

/// One draw submission of a flush: the quads `start_quad..end_quad`, all
/// bearing the texture `texture`.
#[derive(Clone, Copy, PartialEq, Eq, Structural, Debug)]
pub struct DrawRun {
    pub texture: Texture,
    pub start_quad: usize,
    pub end_quad: usize,
}

/// `runs` cuts `ts` into consecutive, non-empty stretches of same-identity
/// textures, in order and maximal: adjacent stretches carry different
/// texture identities.
pub open spec fn is_run_partition(runs: Seq<DrawRun>, ts: Seq<Texture>) -> bool {
    &&& ts.len() == 0 ==> runs.len() == 0
    &&& ts.len() > 0 ==> {
        &&& runs.len() > 0
        &&& runs[0].start_quad == 0
        &&& runs[runs.len() - 1].end_quad == ts.len()
        &&& forall|k: int|
            0 <= k < runs.len() ==> (#[trigger] runs[k]).start_quad < runs[k].end_quad <= ts.len()
        &&& forall|k: int|
            0 <= k < runs.len() - 1 ==> (#[trigger] runs[k]).end_quad == runs[k + 1].start_quad
        &&& forall|k: int|
            0 <= k < runs.len() ==> (#[trigger] runs[k]).texture == ts[runs[k].start_quad as int]
        &&& forall|k: int, q: int|
            #![trigger runs[k], ts[q]]
            0 <= k < runs.len() && runs[k].start_quad <= q < runs[k].end_quad
                ==> ts[q].id == runs[k].texture.id
        &&& forall|k: int|
            0 <= k < runs.len() - 1 ==> (#[trigger] runs[k]).texture.id != runs[k + 1].texture.id
    }
}

/// A queue never takes more submissions to draw than it has quads.
pub proof fn lemma_run_count_le_len(ts: Seq<Texture>)
    ensures
        0 <= run_count(ts) <= ts.len(),
        ts.len() > 0 ==> 1 <= run_count(ts),
    decreases ts.len(),
{
    if ts.len() > 1 {
        lemma_run_count_le_len(ts.drop_last());
    }
}

/// The submission count of a flush is well defined: every cut of a queue
/// into maximal same-texture runs has exactly `run_count` of them, however
/// it was found.
pub proof fn lemma_run_partition_count(runs: Seq<DrawRun>, ts: Seq<Texture>)
    requires
        is_run_partition(runs, ts),
    ensures
        runs.len() == run_count(ts),
    decreases ts.len(),
{
    if ts.len() == 0 {
    } else {
        let n = ts.len() as int;
        let m = runs.len() as int;
        let last = runs[m - 1];
        let ts2 = ts.drop_last();
        assert(ts2.len() == n - 1);
        assert forall|q: int| 0 <= q < n - 1 implies ts2[q] == ts[q] by {}
        assert forall|k: int| 0 <= k < m - 1 implies (#[trigger] runs[k]).end_quad <= n - 1 by {
            lemma_run_starts_ordered(runs, ts, k + 1, m - 1);
        }
        if last.end_quad - last.start_quad > 1 {
            // The final run keeps at least two quads: shorten it by one and
            // recurse on the queue without its final quad.
            let shorter = DrawRun { end_quad: (last.end_quad - 1) as usize, ..last };
            let runs2 = runs.update(m - 1, shorter);
            assert(ts[n - 1].id == last.texture.id);
            assert(ts[n - 2].id == last.texture.id);
            assert(run_count(ts) == run_count(ts2));
            assert forall|k: int|
                0 <= k < m implies (#[trigger] runs2[k]).start_quad < runs2[k].end_quad
                <= n - 1 by {}
            assert forall|k: int|
                0 <= k < m implies (#[trigger] runs2[k]).texture
                == ts2[runs2[k].start_quad as int] by {}
            assert forall|k: int, q: int|
                #![trigger runs2[k], ts2[q]]
                0 <= k < m && runs2[k].start_quad <= q < runs2[k].end_quad implies ts2[q].id
                == runs2[k].texture.id by {
                if k < m - 1 {
                    assert(runs2[k] == runs[k]);
                } else {
                    assert(runs2[k] == shorter);
                }
                assert(ts[q].id == runs[k].texture.id);
            }
            assert(is_run_partition(runs2, ts2));
            lemma_run_partition_count(runs2, ts2);
        } else {
            // The final run is a single quad.
            if m == 1 {
                assert(n == 1);
            } else {
                let prev = runs[m - 2];
                assert(prev.end_quad == last.start_quad);
                assert(ts[n - 2].id == prev.texture.id);
                assert(ts[n - 1].id == last.texture.id);
                assert(ts[n - 1].id != ts[n - 2].id);
                assert(run_count(ts) == run_count(ts2) + 1);
                let runs2 = runs.drop_last();
                assert forall|k: int| 0 <= k < m - 1 implies runs2[k] == runs[k] by {}
                assert forall|k: int|
                    0 <= k < m - 1 implies (#[trigger] runs2[k]).start_quad < runs2[k].end_quad
                    <= n - 1 by {}
                assert forall|k: int|
                    0 <= k < m - 1 implies (#[trigger] runs2[k]).texture
                    == ts2[runs2[k].start_quad as int] by {}
                assert forall|k: int, q: int|
                    #![trigger runs2[k], ts2[q]]
                    0 <= k < m - 1 && runs2[k].start_quad <= q < runs2[k].end_quad implies ts2[q].id
                    == runs2[k].texture.id by {
                    assert(runs2[k] == runs[k]);
                    assert(ts[q].id == runs[k].texture.id);
                }
                assert(is_run_partition(runs2, ts2));
                lemma_run_partition_count(runs2, ts2);
            }
        }
    }
}

/// How a sampler treats texture coordinates outside the unit interval.
#[derive(Clone, Copy, PartialEq, Eq, Structural, Debug)]
pub enum SamplerWrapFunction {
    Repeat,
    Mirror,
    Clamp,
    BorderClamp,
    MirrorClamp,
}

/// How a sampler filters a texture drawn smaller than its pixel size.
#[derive(Clone, Copy, PartialEq, Eq, Structural, Debug)]
pub enum MinifySamplerFilter {
    Nearest,
    Linear,
    NearestMipmapNearest,
    LinearMipmapNearest,
    NearestMipmapLinear,
    LinearMipmapLinear,
}

/// How a sampler filters a texture drawn larger than its pixel size.
#[derive(Clone, Copy, PartialEq, Eq, Structural, Debug)]
pub enum MagnifySamplerFilter {
    Nearest,
    Linear,
}

/// The sampler state a batch binds with each submitted texture: one wrap
/// function per texture coordinate axis and the two filters.
#[derive(Clone, Copy, PartialEq, Eq, Debug)]
pub struct SamplerBehavior {
    pub wrap_function: (SamplerWrapFunction, SamplerWrapFunction, SamplerWrapFunction),
    pub minify_filter: MinifySamplerFilter,
    pub magnify_filter: MagnifySamplerFilter,
}

/// How a batch submits its quads: the sampler state bound with each texture
/// and whether alpha blending is on (otherwise the opaque default blend
/// state is used).
#[derive(Clone, Copy, PartialEq, Eq, Debug)]
pub struct SpriteDrawParams {
    pub sampler_behavior: SamplerBehavior,
    pub alpha_blending: bool,
}

/// The sampler state used when none is chosen: mirrored wrapping on every
/// axis, trilinear minification and linear magnification.
pub open spec fn default_sampler_behavior() -> SamplerBehavior {
    SamplerBehavior {
        wrap_function: (
            SamplerWrapFunction::Mirror,
            SamplerWrapFunction::Mirror,
            SamplerWrapFunction::Mirror,
        ),
        minify_filter: MinifySamplerFilter::LinearMipmapLinear,
        magnify_filter: MagnifySamplerFilter::Linear,
    }
}

impl SpriteDrawParams {
    /// The default parameters: the default sampler state, no alpha blending.
    pub fn new() -> (r: Self)
        ensures
            r.sampler_behavior == default_sampler_behavior(),
            r.alpha_blending == false,
    {
        SpriteDrawParams {
            sampler_behavior: SamplerBehavior {
                wrap_function: (
                    SamplerWrapFunction::Mirror,
                    SamplerWrapFunction::Mirror,
                    SamplerWrapFunction::Mirror,
                ),
                minify_filter: MinifySamplerFilter::LinearMipmapLinear,
                magnify_filter: MagnifySamplerFilter::Linear,
            },
            alpha_blending: false,
        }
    }

    pub fn alpha(self, alpha: bool) -> (r: Self)
        ensures
            r == (Self { alpha_blending: alpha, ..self }),
    {
        Self { alpha_blending: alpha, ..self }
    }

    /// Sets the same wrap function for all three texture coordinate axes.
    pub fn wrap_function(self, function: SamplerWrapFunction) -> (r: Self)
        ensures
            r.sampler_behavior.wrap_function == (function, function, function),
            r.sampler_behavior.minify_filter == self.sampler_behavior.minify_filter,
            r.sampler_behavior.magnify_filter == self.sampler_behavior.magnify_filter,
            r.alpha_blending == self.alpha_blending,
    {
        Self {
            sampler_behavior: SamplerBehavior {
                wrap_function: (function, function, function),
                ..self.sampler_behavior
            },
            ..self
        }
    }

    pub fn minify_filter(self, filter: MinifySamplerFilter) -> (r: Self)
        ensures
            r.sampler_behavior.minify_filter == filter,
            r.sampler_behavior.wrap_function == self.sampler_behavior.wrap_function,
            r.sampler_behavior.magnify_filter == self.sampler_behavior.magnify_filter,
            r.alpha_blending == self.alpha_blending,
    {
        Self {
            sampler_behavior: SamplerBehavior { minify_filter: filter, ..self.sampler_behavior },
            ..self
        }
    }

    pub fn magnify_filter(self, filter: MagnifySamplerFilter) -> (r: Self)
        ensures
            r.sampler_behavior.magnify_filter == filter,
            r.sampler_behavior.wrap_function == self.sampler_behavior.wrap_function,
            r.sampler_behavior.minify_filter == self.sampler_behavior.minify_filter,
            r.alpha_blending == self.alpha_blending,
    {
        Self {
            sampler_behavior: SamplerBehavior { magnify_filter: filter, ..self.sampler_behavior },
            ..self
        }
    }
}

/// The fixed-capacity staging list of one batch: vertex data for up to
/// [`BATCH_SIZE`] quads and the parallel list of their texture handles.
/// `V` is the caller's per-vertex data; four vertices are staged per quad.
pub struct SpriteQueue<V> {
    pub vertices: Vec<V>,
    pub textures: Vec<Texture>,
}

impl<V: Copy> SpriteQueue<V> {
    /// The queue's invariant: four staged vertices per staged texture
    /// handle, and never more quads than the batch capacity.
    pub open spec fn wf(&self) -> bool {
        &&& self.vertices@.len() == 4 * self.textures@.len()
        &&& self.textures@.len() <= BATCH_SIZE
    }

    pub fn new() -> (r: Self)
        ensures
            r.wf(),
            r.vertices@.len() == 0,
            r.textures@.len() == 0,
    {
        SpriteQueue {
            vertices: Vec::with_capacity(BATCH_VERTEX_SIZE),
            textures: Vec::with_capacity(BATCH_SIZE),
        }
    }

    /// Stages one quad. Capacity is a hard precondition here: the batch in
    /// front of this queue flushes before staging into a full queue.
    pub fn push(&mut self, vertices: [V; 4], texture: Texture)
        requires
            old(self).wf(),
            old(self).textures@.len() < BATCH_SIZE,
        ensures
            final(self).wf(),
            final(self).vertices@ == old(self).vertices@ + vertices@,
            final(self).textures@ == old(self).textures@.push(texture),
    {
        self.vertices.push(vertices[0]);
        self.vertices.push(vertices[1]);
        self.vertices.push(vertices[2]);
        self.vertices.push(vertices[3]);
        self.textures.push(texture);
        proof {
            assert(self.vertices@ =~= old(self).vertices@ + vertices@);
        }
    }

    pub fn clear(&mut self)
        ensures
            final(self).wf(),
            final(self).vertices@.len() == 0,
            final(self).textures@.len() == 0,
    {
        self.vertices.clear();
        self.textures.clear();
    }

    pub fn len(&self) -> (r: usize)
        ensures
            r == self.textures@.len(),
    {
        self.textures.len()
    }
}

/// One flush, ready to perform: upload `vertices` to the vertex buffer at
/// offset zero, then for each run in order submit the vertex range
/// `4 * start_quad .. 4 * end_quad` and the index range
/// `6 * start_quad .. 6 * end_quad` with the run's texture bound.
pub struct FlushPlan<V> {
    pub vertices: Vec<V>,
    pub runs: Vec<DrawRun>,
}

/// Scans a queue's texture handles once, left to right, and cuts them into
/// maximal stretches of consecutive same-identity textures.
fn compute_runs(textures: &Vec<Texture>) -> (runs: Vec<DrawRun>)
    requires
        textures@.len() > 0,
    ensures
        is_run_partition(runs@, textures@),
        runs@.len() == run_count(textures@),
{
    let n = textures.len();
    let mut runs: Vec<DrawRun> = Vec::new();
    let mut offset: usize = 0;
    let mut run_texture: Texture = textures[0];
    let mut i: usize = 1;

    while i < n
        invariant
            1 <= i <= n,
            n == textures@.len(),
            offset < i,
            run_texture == textures@[offset as int],
            forall|q: int| offset <= q < i ==> (#[trigger] textures@[q]).id == run_texture.id,
            runs@.len() == 0 ==> offset == 0,
            runs@.len() > 0 ==> runs@[0].start_quad == 0,
            runs@.len() > 0 ==> runs@[runs@.len() - 1].end_quad == offset,
            runs@.len() > 0 ==> runs@[runs@.len() - 1].texture.id != run_texture.id,
            forall|k: int|
                0 <= k < runs@.len() ==> (#[trigger] runs@[k]).start_quad < runs@[k].end_quad <= n,
            forall|k: int|
                0 <= k < runs@.len() - 1
                    ==> (#[trigger] runs@[k]).end_quad == runs@[k + 1].start_quad,
            forall|k: int|
                0 <= k < runs@.len()
                    ==> (#[trigger] runs@[k]).texture == textures@[runs@[k].start_quad as int],
            forall|k: int, q: int|
                #![trigger runs@[k], textures@[q]]
                0 <= k < runs@.len() && runs@[k].start_quad <= q < runs@[k].end_quad
                    ==> textures@[q].id == runs@[k].texture.id,
            forall|k: int|
                0 <= k < runs@.len() - 1
                    ==> (#[trigger] runs@[k]).texture.id != runs@[k + 1].texture.id,
            runs@.len() + 1 == run_count(textures@.take(i as int)),
        decreases n - i,
    {
        proof {
            assert(textures@.take(i as int + 1).drop_last() =~= textures@.take(i as int));
        }
        let texture = textures[i];
        if texture.id != run_texture.id {
            runs.push(DrawRun { texture: run_texture, start_quad: offset, end_quad: i });
            offset = i;
            run_texture = texture;
        }
        i = i + 1;
    }

    proof {
        assert(textures@.take(n as int) =~= textures@);
    }
    runs.push(DrawRun { texture: run_texture, start_quad: offset, end_quad: n });
    runs
}

/// The number of draw submissions a whole batch issues: the maximal
/// same-texture runs of each flushed queue, summed over the flushes.
pub open spec fn total_run_count(flushes: Seq<Seq<Texture>>) -> int
    decreases flushes.len(),
{
    if flushes.len() == 0 {
        0
    } else {
        total_run_count(flushes.drop_last()) + run_count(flushes.last())
    }
}

/// A recording session over one batch's staging queue: `draw` stages quads
/// and flushes by itself when the queue is full, `finish` flushes what is
/// left and reports how many draw submissions the whole batch issued.
///
/// A session must end through `finish`, which consumes it; the flush plans
/// it hands back are performed by the caller, who owns the GPU buffers.
/// The ghost `flushed` records the texture list of every flush performed so
/// far: the invariant pins `draw_calls` to the total of maximal
/// same-texture runs summed across those flushes.
pub struct SpriteBatch<V> {
    pub queue: SpriteQueue<V>,
    pub draw_params: SpriteDrawParams,
    pub draw_calls: u32,
    pub flushed: Ghost<Seq<Seq<Texture>>>,
}

impl<V: Copy> SpriteBatch<V> {
    pub open spec fn wf(&self) -> bool {
        &&& self.queue.wf()
        &&& self.draw_calls == total_run_count(self.flushed@)
    }

    /// Opens a batch with an empty staging queue and no flushes behind it.
    pub fn new(draw_params: SpriteDrawParams) -> (r: Self)
        ensures
            r.wf(),
            r.queue.vertices@.len() == 0,
            r.queue.textures@.len() == 0,
            r.draw_params == draw_params,
            r.draw_calls == 0,
            r.flushed@ == Seq::<Seq<Texture>>::empty(),
    {
        SpriteBatch {
            queue: SpriteQueue::new(),
            draw_params,
            draw_calls: 0,
            flushed: Ghost(Seq::empty()),
        }
    }

    /// Flushes the staging queue: an empty queue is a no-op, otherwise the
    /// whole queue becomes one plan, one draw submission per maximal
    /// same-texture run, and the queue is cleared.
    fn flush(&mut self) -> (flush: Option<FlushPlan<V>>)
        requires
            old(self).wf(),
            old(self).draw_calls + BATCH_SIZE <= u32::MAX,
        ensures
            final(self).wf(),
            final(self).draw_params == old(self).draw_params,
            final(self).queue.vertices@.len() == 0,
            final(self).queue.textures@.len() == 0,
            old(self).queue.textures@.len() == 0 ==> flush is None && final(self).draw_calls
                == old(self).draw_calls && final(self).flushed == old(self).flushed,
            old(self).queue.textures@.len() > 0 ==> (flush matches Some(plan)
                && plan.vertices@ == old(self).queue.vertices@
                && is_run_partition(plan.runs@, old(self).queue.textures@)
                && plan.runs@.len() == run_count(old(self).queue.textures@)
                && final(self).draw_calls == old(self).draw_calls + plan.runs@.len()
                && final(self).flushed@ == old(self).flushed@.push(old(self).queue.textures@)),
    {
        if self.queue.len() == 0 {
            return None;
        }

        let runs = compute_runs(&self.queue.textures);
        proof {
            lemma_run_count_le_len(self.queue.textures@);
            assert(self.flushed@.push(self.queue.textures@).drop_last() =~= self.flushed@);
        }
        self.draw_calls = self.draw_calls + (runs.len() as u32);
        self.flushed = Ghost(self.flushed@.push(self.queue.textures@));

        let mut vertices: Vec<V> = Vec::new();
        core::mem::swap(&mut vertices, &mut self.queue.vertices);
        self.queue.clear();

        Some(FlushPlan { vertices, runs })
    }

    /// Stages one quad. A full queue is flushed first, so capacity never
    /// fails a draw: the plan, if one comes back, covers the previous
    /// [`BATCH_SIZE`] quads, and the staged quad opens the next flush.
    pub fn draw(&mut self, vertices: [V; 4], texture: Texture) -> (flush: Option<FlushPlan<V>>)
        requires
            old(self).wf(),
            old(self).draw_calls + BATCH_SIZE <= u32::MAX,
        ensures
            final(self).wf(),
            final(self).draw_params == old(self).draw_params,
            old(self).queue.textures@.len() < BATCH_SIZE ==> flush is None
                && final(self).queue.vertices@ == old(self).queue.vertices@ + vertices@
                && final(self).queue.textures@ == old(self).queue.textures@.push(texture)
                && final(self).draw_calls == old(self).draw_calls
                && final(self).flushed == old(self).flushed,
            old(self).queue.textures@.len() == BATCH_SIZE ==> (flush matches Some(plan)
                && plan.vertices@ == old(self).queue.vertices@
                && is_run_partition(plan.runs@, old(self).queue.textures@)
                && plan.runs@.len() == run_count(old(self).queue.textures@)
                && final(self).draw_calls == old(self).draw_calls + plan.runs@.len()
                && final(self).queue.vertices@ == vertices@
                && final(self).queue.textures@ == seq![texture]
                && final(self).flushed@ == old(self).flushed@.push(old(self).queue.textures@)),
    {
        let flush = if self.queue.len() == BATCH_SIZE {
            self.flush()
        } else {
            None
        };

        self.queue.push(vertices, texture);
        flush
    }

    /// Ends the batch: flushes whatever is still staged and returns the
    /// total number of draw submissions the batch issued, together with the
    /// final flush plan if the queue was not empty. The count equals the
    /// maximal same-texture runs summed across every flush of the batch,
    /// the automatic ones and this final one.
    pub fn finish(self) -> (r: (u32, Option<FlushPlan<V>>))
        requires
            self.wf(),
            self.draw_calls + BATCH_SIZE <= u32::MAX,
        ensures
            self.queue.textures@.len() == 0 ==> r.1 is None
                && r.0 == total_run_count(self.flushed@),
            self.queue.textures@.len() > 0 ==> (r.1 matches Some(plan)
                && plan.vertices@ == self.queue.vertices@
                && is_run_partition(plan.runs@, self.queue.textures@)
                && plan.runs@.len() == run_count(self.queue.textures@)
                && r.0 == total_run_count(self.flushed@.push(self.queue.textures@))),
    {
        let mut batch = self;
        let flush = batch.flush();
        proof {
            if self.queue.textures@.len() > 0 {
                assert(self.flushed@.push(self.queue.textures@).drop_last() =~= self.flushed@);
            }
        }
        (batch.draw_calls, flush)
    }
}

/// Entry `m` of the shared index pattern: quad `m / 6` contributes the six
/// indices `b, b+1, b+2, b, b+2, b+3` over its base vertex `b = 4 * (m / 6)`.
pub open spec fn quad_index_entry(m: int) -> u16 {
    let corner: int = if m % 6 == 0 {
        0
    } else if m % 6 == 1 {
        1
    } else if m % 6 == 2 {
        2
    } else if m % 6 == 3 {
        0
    } else if m % 6 == 4 {
        2
    } else {
        3
    };
    (4 * (m / 6) + corner) as u16
}

/// The precomputed index pattern shared by every quad submission:
/// `quad_count` repetitions of the two-triangle pattern, each over its own
/// four vertices.
pub fn quad_indices(quad_count: usize) -> (r: Vec<u16>)
    requires
        4 * quad_count <= 65536,
    ensures
        r@.len() == 6 * quad_count,
        forall|m: int| 0 <= m < r@.len() ==> #[trigger] r@[m] == quad_index_entry(m),
{
    let mut indices: Vec<u16> = Vec::with_capacity(6 * quad_count);
    let mut q: usize = 0;
    while q < quad_count
        invariant
            q <= quad_count,
            4 * quad_count <= 65536,
            indices@.len() == 6 * q,
            forall|m: int| 0 <= m < indices@.len() ==> #[trigger] indices@[m] == quad_index_entry(m),
        decreases quad_count - q,
    {
        proof {
            lemma_fundamental_div_mod_converse(6 * q as int, 6, q as int, 0);
            lemma_fundamental_div_mod_converse(6 * q as int + 1, 6, q as int, 1);
            lemma_fundamental_div_mod_converse(6 * q as int + 2, 6, q as int, 2);
            lemma_fundamental_div_mod_converse(6 * q as int + 3, 6, q as int, 3);
            lemma_fundamental_div_mod_converse(6 * q as int + 4, 6, q as int, 4);
            lemma_fundamental_div_mod_converse(6 * q as int + 5, 6, q as int, 5);
        }
        let base: u16 = (4 * q) as u16;
        indices.push(base);
        indices.push(base + 1);
        indices.push(base + 2);
        indices.push(base);
        indices.push(base + 2);
        indices.push(base + 3);
        q = q + 1;
    }
    indices
}

/// The four texture coordinate corners a sprite assigns to its four output
/// vertices, in the fixed vertex order top-left, top-right, bottom-left,
/// bottom-right: the region's corners, swapped pairwise left against right
/// under `flip_x` and top against bottom under `flip_y`.
pub open spec fn spec_flipped_corners(region: TextureRegion, flip_x: bool, flip_y: bool) -> Seq<
    (Frac, Frac),
> {
    let c = spec_corners(region);
    if !flip_x && !flip_y {
        seq![c[0], c[1], c[2], c[3]]
    } else if flip_x && !flip_y {
        seq![c[1], c[0], c[3], c[2]]
    } else if !flip_x && flip_y {
        seq![c[2], c[3], c[0], c[1]]
    } else {
        seq![c[3], c[2], c[1], c[0]]
    }
}

/// The texture coordinates a sprite's four vertices carry: the region's
/// corners with the left and right columns swapped under `flip_x` and the
/// top and bottom rows swapped under `flip_y`, independent of any position
/// transform.
pub fn flipped_texture_coordinates(region: &TextureRegion, flip_x: bool, flip_y: bool) -> (r: [[
    Frac;
    2]; 4])
    requires
        region.wf(),
    ensures
        forall|c: int|
            0 <= c < 4 ==> (#[trigger] r@[c])@[0] == spec_flipped_corners(*region, flip_x, flip_y)[c].0
                && r@[c]@[1] == spec_flipped_corners(*region, flip_x, flip_y)[c].1,
{
    let tex_coords = region.texture_coordinates();

    let tex_top_left = tex_coords[0];
    let tex_top_right = tex_coords[1];
    let tex_bottom_left = tex_coords[2];
    let tex_bottom_right = tex_coords[3];

    if !flip_x && !flip_y {
        [tex_top_left, tex_top_right, tex_bottom_left, tex_bottom_right]
    } else if flip_x && !flip_y {
        [tex_top_right, tex_top_left, tex_bottom_right, tex_bottom_left]
    } else if !flip_x && flip_y {
        [tex_bottom_left, tex_bottom_right, tex_top_left, tex_top_right]
    } else {
        [tex_bottom_right, tex_bottom_left, tex_top_right, tex_top_left]
    }
}

/// In a run partition, the start of a later run is no earlier than the end
/// of an earlier one.
proof fn lemma_run_starts_ordered(runs: Seq<DrawRun>, ts: Seq<Texture>, a: int, b: int)
    requires
        is_run_partition(runs, ts),
        ts.len() > 0,
        0 <= a <= b < runs.len(),
    ensures
        runs[a].start_quad <= runs[b].start_quad,
    decreases b - a,
{
    if a < b {
        assert(runs[b - 1].end_quad == runs[b].start_quad);
        assert(runs[b - 1].start_quad < runs[b - 1].end_quad);
        lemma_run_starts_ordered(runs, ts, a, b - 1);
    }
}

} // verus!
