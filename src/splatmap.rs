//! One-hot splat image: one RGBA8 texel per tile, full intensity in the
//! channel of the tile's type.

use vstd::prelude::*;

use crate::types::{type_index, TileMap};

verus! {

/// Bytes per texel.
pub const CHANNELS: usize = 4;

/// A row-major RGBA8 image.
#[derive(Debug)]
pub struct SplatImage {
    pub width: u32,
    pub height: u32,
    pub data: Vec<u8>,
}

/// The image size for a map: its own size, at least one texel each way.
pub open spec fn extent_of(map: &TileMap) -> (int, int) {
    (if map.width == 0 { 1 } else { map.width as int }, if map.height == 0 { 1 } else { map.height as int })
}

/// Byte `i` of the splat image of `map`: 255 in the channel of the type of
/// texel `i / 4`'s tile, 0 elsewhere and everywhere for an empty map.
pub open spec fn splat_byte(map: &TileMap, i: int) -> u8 {
    if map.tiles@.len() == 0 {
        0
    } else if i % 4 == type_index(map.tiles@[i / 4].tile_type) {
        255
    } else {
        0
    }
}

/// `img` is the splat image of `map`.
pub open spec fn is_splat_of(img: &SplatImage, map: &TileMap) -> bool {
    &&& img.width == extent_of(map).0
    &&& img.height == extent_of(map).1
    &&& img.data@.len() == img.width * img.height * 4
    &&& forall|i: int| 0 <= i < img.data@.len() ==> #[trigger] img.data@[i] == splat_byte(map, i)
}

/// The limit on a map whose splat image fits in memory.
pub open spec fn splat_fits(map: &TileMap) -> bool {
    extent_of(map).0 * extent_of(map).1 * 4 <= usize::MAX
}

fn extent_from_map(map: &TileMap) -> (r: (u32, u32))
    ensures
        r.0 == extent_of(map).0,
        r.1 == extent_of(map).1,
{
    let w = if map.width == 0 { 1 } else { map.width };
    let h = if map.height == 0 { 1 } else { map.height };
    (w, h)
}

/// Writes every byte of `data`, which has the image's length.
fn fill_texels(map: &TileMap, data: &mut Vec<u8>)
    requires
        map.wf(),
        old(data)@.len() == extent_of(map).0 * extent_of(map).1 * 4,
    ensures
        final(data)@.len() == old(data)@.len(),
        forall|i: int| 0 <= i < final(data)@.len() ==> #[trigger] final(data)@[i] == splat_byte(map, i),
{
    let n = map.tiles.len();
    let len = data.len();
    proof {
        if n > 0 {
            assert(map.width > 0 && map.height > 0) by (nonlinear_arith)
                requires n == map.width * map.height, n > 0;
        }
    }
    let mut i: usize = 0;
    while i < len
        invariant
            map.wf(),
            n == map.tiles@.len(),
            len == data@.len(),
            len == extent_of(map).0 * extent_of(map).1 * 4,
            n > 0 ==> len == n * 4,
            i <= len,
            forall|j: int| 0 <= j < i ==> #[trigger] data@[j] == splat_byte(map, j),
        decreases len - i,
    {
        let value: u8 = if n == 0 {
            0
        } else {
            let layer = map.tiles[i / CHANNELS].tile_type.as_index();
            if i % CHANNELS == layer {
                255
            } else {
                0
            }
        };
        data.set(i, value);
        i = i + 1;
    }
}

/// A fresh splat image of `map`.
pub fn create(map: &TileMap) -> (r: SplatImage)
    requires
        map.wf(),
        splat_fits(map),
    ensures
        is_splat_of(&r, map),
{
    let (w, h) = extent_from_map(map);
    let len = (w as usize) * (h as usize) * CHANNELS;
    let mut data: Vec<u8> = vec![0u8; len];
    fill_texels(map, &mut data);
    SplatImage { width: w, height: h, data }
}

/// Makes `image` the splat image of `map`, reusing its buffer when it already
/// has the map's size.
pub fn write(map: &TileMap, image: &mut SplatImage)
    requires
        map.wf(),
        splat_fits(map),
    ensures
        is_splat_of(final(image), map),
{
    let (w, h) = extent_from_map(map);
    if image.width != w || image.height != h {
        *image = create(map);
        return;
    }
    let len = (w as usize) * (h as usize) * CHANNELS;
    if image.data.len() != len {
        image.data.resize(len, 0);
    }
    fill_texels(map, &mut image.data);
}

/// Each texel of a splat image is one-hot: full intensity in the channel of
/// its tile's type, zero in the three others.
pub proof fn splat_texel_is_one_hot(map: &TileMap, img: &SplatImage, p: int)
    requires
        map.wf(),
        is_splat_of(img, map),
        0 <= p < map.tiles@.len(),
    ensures
        img.data@[4 * p + type_index(map.tiles@[p].tile_type)] == 255,
        forall|c: int| 0 <= c < 4 && c != type_index(map.tiles@[p].tile_type) ==> #[trigger] img.data@[4 * p + c] == 0,
{
    assert(map.width > 0 && map.height > 0 && img.width * img.height == map.tiles@.len()) by (nonlinear_arith)
        requires
            map.tiles@.len() == map.width * map.height,
            map.tiles@.len() > 0,
            img.width == map.width,
            img.height == map.height,
    ;
    let t = type_index(map.tiles@[p].tile_type);
    assert forall|c: int| 0 <= c < 4 implies #[trigger] img.data@[4 * p + c] == (if c == t { 255u8 } else { 0u8 }) by {
        vstd::arithmetic::div_mod::lemma_fundamental_div_mod_converse(4 * p + c, 4, p, c);
        assert(4 * p + c < img.data@.len()) by (nonlinear_arith)
            requires 0 <= c < 4, 0 <= p < img.width * img.height, img.data@.len() == img.width * img.height * 4;
    }
    assert(img.data@[4 * p + t] == 255);
}

} // verus!
