use rust_gdx::graphics::texture::{Frac, Texture, TextureRegion};

fn texture(id: u64, width: u32, height: u32) -> Texture {
    Texture { id, width, height }
}

#[test]
fn full_region_covers_texture() {
    let region = TextureRegion::new(texture(1, 256, 128));
    assert_eq!(region.texture_size(), (256, 128));
    assert_eq!(region.offset(), (0, 0));
    assert_eq!(region.size(), (256, 128));
    assert_eq!(region.normalized_offset(), (Frac { num: 0, den: 1 }, Frac { num: 0, den: 1 }));
    assert_eq!(region.normalized_size(), (Frac { num: 1, den: 1 }, Frac { num: 1, den: 1 }));
}

#[test]
fn sub_field_normalized_values_are_exact_ratios() {
    let region = TextureRegion::with_sub_field(texture(1, 256, 128), (32, 16), (64, 32));
    assert_eq!(region.offset(), (32, 16));
    assert_eq!(region.size(), (64, 32));
    assert_eq!(
        region.normalized_offset(),
        (Frac { num: 32, den: 256 }, Frac { num: 16, den: 128 }),
    );
    assert_eq!(
        region.normalized_size(),
        (Frac { num: 64, den: 256 }, Frac { num: 32, den: 128 }),
    );
}

#[test]
fn split_is_row_major() {
    let regions = TextureRegion::split(texture(7, 256, 128), (64, 64));
    assert_eq!(regions.len(), 8);
    assert_eq!(regions[0].offset(), (0, 0));
    assert_eq!(regions[1].offset(), (64, 0));
    assert_eq!(regions[4].offset(), (0, 64));
    for region in &regions {
        assert_eq!(region.size(), (64, 64));
        assert_eq!(region.texture().id, 7);
    }
}

#[test]
fn split_discards_remainder() {
    let regions = TextureRegion::split(texture(2, 100, 70), (32, 32));
    // 3 whole columns and 2 whole rows fit; the 4 and 6 pixel remainders go.
    assert_eq!(regions.len(), 6);
    assert_eq!(regions[5].offset(), (64, 32));
}

#[test]
fn split_tile_larger_than_texture_yields_nothing() {
    let regions = TextureRegion::split(texture(3, 100, 70), (128, 32));
    assert_eq!(regions.len(), 0);
}

#[test]
fn texture_coordinates_corner_order() {
    let region = TextureRegion::with_sub_field(texture(1, 256, 128), (32, 16), (64, 32));
    let corners = region.texture_coordinates();
    // Top-left, top-right, bottom-left, bottom-right; "top" is offset + size.
    assert_eq!(corners[0], [Frac { num: 32, den: 256 }, Frac { num: 48, den: 128 }]);
    assert_eq!(corners[1], [Frac { num: 96, den: 256 }, Frac { num: 48, den: 128 }]);
    assert_eq!(corners[2], [Frac { num: 32, den: 256 }, Frac { num: 16, den: 128 }]);
    assert_eq!(corners[3], [Frac { num: 96, den: 256 }, Frac { num: 16, den: 128 }]);
}
