//! Texture handles and texture regions: pixel sub-rectangles of a texture
//! together with their normalised texture coordinates.

use vstd::prelude::*;
use vstd::arithmetic::div_mod::{lemma_fundamental_div_mod_converse, lemma_remainder_lower};
use vstd::arithmetic::mul::{
    lemma_mul_inequality, lemma_mul_is_distributive_add_other_way, lemma_mul_nonnegative,
};

verus! {

/// A handle to a GPU texture: a stable identity plus the pixel dimensions.
/// The texel data itself lives outside this crate and is shared; batching
/// compares textures by identity, never by contents.
#[derive(Clone, Copy, PartialEq, Eq, Structural, Debug)]
pub struct Texture {
    pub id: u64,
    pub width: u32,
    pub height: u32,
}

/// An exact ratio of two pixel counts. Normalised texture coordinates are
/// ratios of pixel offsets and sizes to texture dimensions; keeping the
/// numerator and denominator keeps them exact.
#[derive(Clone, Copy, PartialEq, Eq, Structural, Debug)]
pub struct Frac {
    pub num: u32,
    pub den: u32,
}

/// The sum of two fractions over a common denominator.
pub open spec fn frac_add(a: Frac, b: Frac) -> Frac
    recommends
        a.den == b.den,
{
    Frac { num: (a.num + b.num) as u32, den: a.den }
}

/// The four normalised corners of a region in the fixed order top-left,
/// top-right, bottom-left, bottom-right, where "top" is the corner with the
/// larger normalised `y` value, `offset.y + size.y`.
pub open spec fn spec_corners(r: TextureRegion) -> Seq<(Frac, Frac)> {
    let left = r.normalized_offset.0;
    let right = frac_add(r.normalized_offset.0, r.normalized_size.0);
    let bottom = r.normalized_offset.1;
    let top = frac_add(r.normalized_offset.1, r.normalized_size.1);
    seq![(left, top), (right, top), (left, bottom), (right, bottom)]
}

/// A pixel sub-rectangle of a texture. The normalised offset and size are
/// computed once at construction as `offset / texture_size` and
/// `size / texture_size` and never re-derived.
#[derive(Clone, Copy, Debug)]
pub struct TextureRegion {
    pub texture: Texture,
    pub texture_size: (u32, u32),
    pub offset: (u32, u32),
    pub size: (u32, u32),
    pub normalized_offset: (Frac, Frac),
    pub normalized_size: (Frac, Frac),
}

/// A tile index below `extent / tile` addresses a whole tile inside the
/// extent: the tile ends at or before the extent's end.
proof fn lemma_tile_fits(extent: int, tile: int, idx: int)
    requires
        tile > 0,
        extent >= 0,
        0 <= idx < extent / tile,
    ensures
        0 <= idx * tile,
        idx * tile + tile <= extent,
{
    lemma_remainder_lower(extent, tile);
    lemma_mul_inequality(idx + 1, extent / tile, tile);
    lemma_mul_is_distributive_add_other_way(tile, idx, 1);
    lemma_mul_nonnegative(idx, tile);
}

/// The model value built by `TextureRegion::with_sub_field`: the normalised
/// coordinates are the exact ratios of the pixel values to the texture
/// dimensions.
pub open spec fn sub_field_region(texture: Texture, offset: (u32, u32), size: (u32, u32)) -> TextureRegion {
    TextureRegion {
        texture,
        texture_size: (texture.width, texture.height),
        offset,
        size,
        normalized_offset: (
            Frac { num: offset.0, den: texture.width },
            Frac { num: offset.1, den: texture.height },
        ),
        normalized_size: (
            Frac { num: size.0, den: texture.width },
            Frac { num: size.1, den: texture.height },
        ),
    }
}

/// The model value built by `TextureRegion::new`: the whole texture, with
/// normalised offset zero and normalised size one.
pub open spec fn full_region(texture: Texture) -> TextureRegion {
    TextureRegion {
        texture,
        texture_size: (texture.width, texture.height),
        offset: (0u32, 0u32),
        size: (texture.width, texture.height),
        normalized_offset: (Frac { num: 0, den: 1 }, Frac { num: 0, den: 1 }),
        normalized_size: (Frac { num: 1, den: 1 }, Frac { num: 1, den: 1 }),
    }
}

impl TextureRegion {
    /// Well-formedness: the cached texture size matches the texture, the
    /// rectangle lies inside the texture, and each normalised value is the
    /// exact ratio of its pixel value to the texture dimension, with both
    /// axes' fractions over positive common denominators and coordinates
    /// that never leave the unit interval.
    pub open spec fn wf(&self) -> bool {
        &&& self.texture_size == (self.texture.width, self.texture.height)
        &&& self.offset.0 + self.size.0 <= self.texture_size.0
        &&& self.offset.1 + self.size.1 <= self.texture_size.1
        &&& self.normalized_offset.0.den == self.normalized_size.0.den
        &&& self.normalized_offset.1.den == self.normalized_size.1.den
        &&& self.normalized_offset.0.den > 0
        &&& self.normalized_offset.1.den > 0
        &&& self.normalized_offset.0.num * self.texture_size.0 == self.offset.0 * self.normalized_offset.0.den
        &&& self.normalized_offset.1.num * self.texture_size.1 == self.offset.1 * self.normalized_offset.1.den
        &&& self.normalized_size.0.num * self.texture_size.0 == self.size.0 * self.normalized_size.0.den
        &&& self.normalized_size.1.num * self.texture_size.1 == self.size.1 * self.normalized_size.1.den
        &&& self.normalized_offset.0.num + self.normalized_size.0.num <= self.normalized_offset.0.den
        &&& self.normalized_offset.1.num + self.normalized_size.1.num <= self.normalized_offset.1.den
    }

    /// A region covering the whole texture.
    pub fn new(texture: Texture) -> (r: Self)
        ensures
            r == full_region(texture),
            r.wf(),
    {
        TextureRegion {
            texture,
            texture_size: (texture.width, texture.height),
            offset: (0, 0),
            size: (texture.width, texture.height),
            normalized_offset: (Frac { num: 0, den: 1 }, Frac { num: 0, den: 1 }),
            normalized_size: (Frac { num: 1, den: 1 }, Frac { num: 1, den: 1 }),
        }
    }

    /// A sub-rectangle of the texture. The rectangle must lie inside the
    /// texture bounds; the normalised offset and size are precomputed here
    /// as the exact ratios `offset / texture_size` and `size / texture_size`.
    pub fn with_sub_field(texture: Texture, offset: (u32, u32), size: (u32, u32)) -> (r: Self)
        requires
            texture.width > 0,
            texture.height > 0,
            offset.0 + size.0 <= texture.width,
            offset.1 + size.1 <= texture.height,
        ensures
            r == sub_field_region(texture, offset, size),
            r.wf(),
    {
        TextureRegion {
            texture,
            texture_size: (texture.width, texture.height),
            offset,
            size,
            normalized_offset: (
                Frac { num: offset.0, den: texture.width },
                Frac { num: offset.1, den: texture.height },
            ),
            normalized_size: (
                Frac { num: size.0, den: texture.width },
                Frac { num: size.1, den: texture.height },
            ),
        }
    }

    /// Cuts the texture into equally sized tiles in row-major order (rows
    /// outermost, then columns), discarding any remainder where the texture
    /// dimensions are not exact multiples of the tile size. Entry `k` is the
    /// tile in column `k mod columns` of row `k / columns`.
    pub fn split(texture: Texture, size: (u32, u32)) -> (r: Vec<Self>)
        requires
            size.0 > 0,
            size.1 > 0,
        ensures
            r@.len() == (texture.height as int / size.1 as int) * (texture.width as int / size.0 as int),
            forall|k: int| 0 <= k < r@.len() ==> #[trigger] r@[k] == sub_field_region(
                texture,
                (((k % (texture.width as int / size.0 as int)) * size.0) as u32,
                 ((k / (texture.width as int / size.0 as int)) * size.1) as u32),
                size,
            ),
            forall|k: int| 0 <= k < r@.len() ==> (#[trigger] r@[k]).wf(),
    {
        let cols: u32 = texture.width / size.0;
        let rows: u32 = texture.height / size.1;
        let ghost colsi: int = cols as int;

        let mut regions: Vec<TextureRegion> = Vec::new();
        let mut j: u32 = 0;
        while j < rows
            invariant
                j <= rows,
                cols == texture.width as int / size.0 as int,
                rows == texture.height as int / size.1 as int,
                colsi == cols,
                size.0 > 0,
                size.1 > 0,
                regions@.len() == j * colsi,
                forall|k: int| 0 <= k < regions@.len() ==> #[trigger] regions@[k] == sub_field_region(
                    texture,
                    (((k % colsi) * size.0) as u32, ((k / colsi) * size.1) as u32),
                    size,
                ),
                forall|k: int| 0 <= k < regions@.len() ==> (#[trigger] regions@[k]).wf(),
            decreases rows - j,
        {
            let mut i: u32 = 0;
            proof {
                lemma_mul_nonnegative(j as int, colsi);
            }
            while i < cols
                invariant
                    i <= cols,
                    j < rows,
                    cols == texture.width as int / size.0 as int,
                    rows == texture.height as int / size.1 as int,
                    colsi == cols,
                    size.0 > 0,
                    size.1 > 0,
                    regions@.len() == j * colsi + i,
                    j * colsi >= 0,
                    forall|k: int| 0 <= k < regions@.len() ==> #[trigger] regions@[k] == sub_field_region(
                        texture,
                        (((k % colsi) * size.0) as u32, ((k / colsi) * size.1) as u32),
                        size,
                    ),
                    forall|k: int| 0 <= k < regions@.len() ==> (#[trigger] regions@[k]).wf(),
                decreases cols - i,
            {
                proof {
                    lemma_tile_fits(texture.width as int, size.0 as int, i as int);
                    lemma_tile_fits(texture.height as int, size.1 as int, j as int);
                    lemma_fundamental_div_mod_converse(
                        j as int * colsi + i as int, colsi, j as int, i as int);
                }
                let offset = (i * size.0, j * size.1);
                regions.push(TextureRegion::with_sub_field(texture, offset, size));
                i = i + 1;
            }
            proof {
                lemma_mul_is_distributive_add_other_way(colsi, j as int, 1);
            }
            j = j + 1;
        }
        regions
    }

    pub fn texture(&self) -> (r: Texture)
        ensures
            r == self.texture,
    {
        self.texture
    }

    pub fn texture_size(&self) -> (r: (u32, u32))
        ensures
            r == self.texture_size,
    {
        self.texture_size
    }

    pub fn offset(&self) -> (r: (u32, u32))
        ensures
            r == self.offset,
    {
        self.offset
    }

    pub fn size(&self) -> (r: (u32, u32))
        ensures
            r == self.size,
    {
        self.size
    }

    pub fn normalized_offset(&self) -> (r: (Frac, Frac))
        ensures
            r == self.normalized_offset,
    {
        self.normalized_offset
    }

    pub fn normalized_size(&self) -> (r: (Frac, Frac))
        ensures
            r == self.normalized_size,
    {
        self.normalized_size
    }

    /// The four normalised corners in the fixed order top-left, top-right,
    /// bottom-left, bottom-right, where "top" is the corner with the larger
    /// normalised `y` value, `offset.y + size.y`.
    pub fn texture_coordinates(&self) -> (r: [[Frac; 2]; 4])
        requires
            self.wf(),
        ensures
            forall|c: int| 0 <= c < 4 ==> (#[trigger] r@[c])@[0] == spec_corners(*self)[c].0
                && r@[c]@[1] == spec_corners(*self)[c].1,
    {
        let right = Frac {
            num: self.normalized_offset.0.num + self.normalized_size.0.num,
            den: self.normalized_offset.0.den,
        };
        let top = Frac {
            num: self.normalized_offset.1.num + self.normalized_size.1.num,
            den: self.normalized_offset.1.den,
        };
        let top_left = [self.normalized_offset.0, top];
        let top_right = [right, top];
        let bot_left = [self.normalized_offset.0, self.normalized_offset.1];
        let bot_right = [right, self.normalized_offset.1];

        [top_left, top_right, bot_left, bot_right]
    }
}

/// Anything that carries a texture region: the region's accessors are
/// available on the carrier directly.
pub trait TextureRegionHolder {
    spec fn spec_texture_region(&self) -> TextureRegion;

    fn texture_region(&self) -> (r: &TextureRegion)
        ensures
            *r == self.spec_texture_region(),
    ;

    fn texture(&self) -> (r: Texture)
        ensures
            r == self.spec_texture_region().texture,
    {
        self.texture_region().texture()
    }

    fn texture_size(&self) -> (r: (u32, u32))
        ensures
            r == self.spec_texture_region().texture_size,
    {
        self.texture_region().texture_size()
    }

    fn offset(&self) -> (r: (u32, u32))
        ensures
            r == self.spec_texture_region().offset,
    {
        self.texture_region().offset()
    }

    fn size(&self) -> (r: (u32, u32))
        ensures
            r == self.spec_texture_region().size,
    {
        self.texture_region().size()
    }

    fn normalized_offset(&self) -> (r: (Frac, Frac))
        ensures
            r == self.spec_texture_region().normalized_offset,
    {
        self.texture_region().normalized_offset()
    }

    fn normalized_size(&self) -> (r: (Frac, Frac))
        ensures
            r == self.spec_texture_region().normalized_size,
    {
        self.texture_region().normalized_size()
    }
}

impl TextureRegionHolder for TextureRegion {
    open spec fn spec_texture_region(&self) -> TextureRegion {
        *self
    }

    fn texture_region(&self) -> (r: &TextureRegion) {
        self
    }
}

} // verus!
