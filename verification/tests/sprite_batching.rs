use rust_gdx::graphics::sprite::{
    quad_indices, flipped_texture_coordinates, MagnifySamplerFilter, MinifySamplerFilter,
    SamplerWrapFunction, SpriteBatch, SpriteDrawParams, BATCH_SIZE,
};
use rust_gdx::graphics::texture::{Frac, Texture, TextureRegion};

fn texture(id: u64) -> Texture {
    Texture { id, width: 64, height: 64 }
}

fn quad(k: u32) -> [u32; 4] {
    [4 * k, 4 * k + 1, 4 * k + 2, 4 * k + 3]
}

#[test]
fn empty_batch_finishes_with_no_submissions() {
    let batch: SpriteBatch<u32> = SpriteBatch::new(SpriteDrawParams::new());
    let (draw_calls, flush) = batch.finish();
    assert_eq!(draw_calls, 0);
    assert!(flush.is_none());
}

#[test]
fn submission_count_is_number_of_maximal_texture_runs() {
    let mut batch: SpriteBatch<u32> = SpriteBatch::new(SpriteDrawParams::new());
    let (a, b) = (texture(1), texture(2));
    for (k, t) in [a, a, b, b, b, a].iter().enumerate() {
        assert!(batch.draw(quad(k as u32), *t).is_none());
    }
    let (draw_calls, flush) = batch.finish();
    assert_eq!(draw_calls, 3);
    let plan = flush.unwrap();
    assert_eq!(plan.runs.len(), 3);
    assert_eq!((plan.runs[0].start_quad, plan.runs[0].end_quad, plan.runs[0].texture.id), (0, 2, 1));
    assert_eq!((plan.runs[1].start_quad, plan.runs[1].end_quad, plan.runs[1].texture.id), (2, 5, 2));
    assert_eq!((plan.runs[2].start_quad, plan.runs[2].end_quad, plan.runs[2].texture.id), (5, 6, 1));
}

#[test]
fn capacity_overflow_flushes_before_the_next_quad() {
    let mut batch: SpriteBatch<u32> = SpriteBatch::new(SpriteDrawParams::new());
    let (a, b) = (texture(1), texture(2));

    // 1024 quads alternating between two textures: no flush yet.
    for k in 0..BATCH_SIZE as u32 {
        let t = if k % 2 == 0 { a } else { b };
        assert!(batch.draw(quad(k), t).is_none());
    }

    // The 1025th quad triggers the automatic flush of the first 1024.
    let flush = batch.draw(quad(BATCH_SIZE as u32), a).unwrap();
    assert_eq!(flush.vertices.len(), 4 * BATCH_SIZE);
    // Alternating textures leave no quad adjacent to its twin: 1024 runs.
    assert_eq!(flush.runs.len(), BATCH_SIZE);
    for (k, run) in flush.runs.iter().enumerate() {
        assert_eq!(run.start_quad, k);
        assert_eq!(run.end_quad, k + 1);
        assert_eq!(run.texture.id, if k % 2 == 0 { 1 } else { 2 });
    }
    // No vertex datum was lost or duplicated.
    for (i, v) in flush.vertices.iter().enumerate() {
        assert_eq!(*v, i as u32);
    }

    // The 1025th quad itself is staged, not dropped: it comes out at finish.
    let (draw_calls, last) = batch.finish();
    let last = last.unwrap();
    assert_eq!(last.vertices.len(), 4);
    assert_eq!(last.vertices, quad(BATCH_SIZE as u32).to_vec());
    assert_eq!(last.runs.len(), 1);
    assert_eq!(draw_calls, BATCH_SIZE as u32 + 1);
}

#[test]
fn runs_do_not_span_flushes() {
    // One texture throughout: each flush is a single run, but the automatic
    // flush and the final flush each count one submission of their own.
    let mut batch: SpriteBatch<u32> = SpriteBatch::new(SpriteDrawParams::new());
    let a = texture(9);
    for k in 0..BATCH_SIZE as u32 {
        assert!(batch.draw(quad(k), a).is_none());
    }
    let flush = batch.draw(quad(BATCH_SIZE as u32), a).unwrap();
    assert_eq!(flush.runs.len(), 1);
    assert_eq!((flush.runs[0].start_quad, flush.runs[0].end_quad), (0, BATCH_SIZE));
    let (draw_calls, last) = batch.finish();
    assert_eq!(last.unwrap().runs.len(), 1);
    assert_eq!(draw_calls, 2);
}

#[test]
fn index_pattern_repeats_per_quad() {
    let indices = quad_indices(2);
    assert_eq!(indices, vec![0, 1, 2, 0, 2, 3, 4, 5, 6, 4, 6, 7]);
    assert_eq!(quad_indices(0).len(), 0);
    assert_eq!(quad_indices(BATCH_SIZE).len(), 6 * BATCH_SIZE);
}

#[test]
fn draw_params_builders_set_their_fields() {
    let params = SpriteDrawParams::new();
    assert_eq!(params.alpha_blending, false);
    assert_eq!(
        params.sampler_behavior.wrap_function,
        (SamplerWrapFunction::Mirror, SamplerWrapFunction::Mirror, SamplerWrapFunction::Mirror),
    );
    assert_eq!(params.sampler_behavior.minify_filter, MinifySamplerFilter::LinearMipmapLinear);
    assert_eq!(params.sampler_behavior.magnify_filter, MagnifySamplerFilter::Linear);

    let params = params
        .alpha(true)
        .wrap_function(SamplerWrapFunction::Clamp)
        .minify_filter(MinifySamplerFilter::Nearest)
        .magnify_filter(MagnifySamplerFilter::Nearest);
    assert_eq!(params.alpha_blending, true);
    assert_eq!(
        params.sampler_behavior.wrap_function,
        (SamplerWrapFunction::Clamp, SamplerWrapFunction::Clamp, SamplerWrapFunction::Clamp),
    );
    assert_eq!(params.sampler_behavior.minify_filter, MinifySamplerFilter::Nearest);
    assert_eq!(params.sampler_behavior.magnify_filter, MagnifySamplerFilter::Nearest);
}

#[test]
fn flip_swaps_texture_corners_pairwise() {
    let region = TextureRegion::with_sub_field(Texture { id: 1, width: 256, height: 128 }, (32, 16), (64, 32));
    let left = Frac { num: 32, den: 256 };
    let right = Frac { num: 96, den: 256 };
    let bottom = Frac { num: 16, den: 128 };
    let top = Frac { num: 48, den: 128 };

    let plain = flipped_texture_coordinates(&region, false, false);
    assert_eq!(plain, [[left, top], [right, top], [left, bottom], [right, bottom]]);

    let x = flipped_texture_coordinates(&region, true, false);
    assert_eq!(x, [[right, top], [left, top], [right, bottom], [left, bottom]]);

    let y = flipped_texture_coordinates(&region, false, true);
    assert_eq!(y, [[left, bottom], [right, bottom], [left, top], [right, top]]);

    let xy = flipped_texture_coordinates(&region, true, true);
    assert_eq!(xy, [[right, bottom], [left, bottom], [right, top], [left, top]]);
}
