use crate::types::{MapPos, ScreenPos, Size2};
use vstd::prelude::*;

verus! {

/// Colour of a pixel as four channel bytes: red, green, blue, alpha.
pub type Rgba = (u8, u8, u8, u8);

/// Largest map side whose tiles all have a colour.
pub const MAX_PICK_SIDE: i32 = 256;

/// Tile `p` has a colour of its own.
pub open spec fn is_codable(p: MapPos) -> bool {
    0 <= p.x < MAX_PICK_SIDE && 0 <= p.y < MAX_PICK_SIDE
}

/// The colour the pick pass paints tile `p` with: x in red, y in green, and
/// a blue of one that tells a tile from the background.
pub open spec fn spec_tile_color(p: MapPos) -> Rgba {
    (p.x as u8, p.y as u8, 1u8, 255u8)
}

/// The background colour of the pick pass.
pub open spec fn spec_background() -> Rgba {
    (0u8, 0u8, 0u8, 255u8)
}

/// The tile that a picked colour names on a map of `map_size`: none for
/// the background or for a tile off the map.
pub open spec fn spec_color_to_tile(c: Rgba, map_size: Size2) -> Option<MapPos> {
    let p = MapPos { x: c.0 as i32, y: c.1 as i32 };
    if c.2 == 0 || !p.in_bounds(map_size) {
        None
    } else {
        Some(p)
    }
}

/// The colour of tile `p` in the pick pass.
pub fn tile_color(p: MapPos) -> (r: Rgba)
    requires
        is_codable(p),
    ensures
        r == spec_tile_color(p),
{
    (p.x as u8, p.y as u8, 1u8, 255u8)
}

/// The background colour of the pick pass.
pub fn background_color() -> (r: Rgba)
    ensures
        r == spec_background(),
{
    (0u8, 0u8, 0u8, 255u8)
}

/// Decodes a pixel read back from the pick pass.
pub fn color_to_tile(c: Rgba, map_size: Size2) -> (r: Option<MapPos>)
    ensures
        r == spec_color_to_tile(c, map_size),
{
    let p = MapPos { x: c.0 as i32, y: c.1 as i32 };
    if c.2 == 0 || !(0 <= p.x && p.x < map_size.w && 0 <= p.y && p.y < map_size.h) {
        None
    } else {
        Some(p)
    }
}

/// Index of tile `p` in the order in which the map is laid out: row by row,
/// x running fastest.
pub open spec fn tile_index(p: MapPos, map_size: Size2) -> int {
    p.y * map_size.w + p.x
}

/// Colours of the map's tiles in layout order, row by row with x running
/// fastest: the pick pass paints each tile's hexagon in its colour.
pub fn pick_colors(map_size: Size2) -> (r: Vec<Rgba>)
    requires
        0 <= map_size.w <= MAX_PICK_SIDE,
        0 <= map_size.h <= MAX_PICK_SIDE,
    ensures
        r@.len() == tile_index(MapPos { x: 0, y: map_size.h }, map_size),
        forall|y: int, x: int|
            0 <= y < map_size.h && 0 <= x < map_size.w ==> #[trigger] r@[y * map_size.w + x]
                == spec_tile_color(MapPos { x: x as i32, y: y as i32 }),
{
    let w = map_size.w;
    let mut colors: Vec<Rgba> = Vec::new();
    let mut y: i32 = 0;
    while y < map_size.h
        invariant
            0 <= y <= map_size.h <= MAX_PICK_SIDE,
            0 <= w <= MAX_PICK_SIDE,
            w == map_size.w,
            colors@.len() == y * w,
            forall|yy: int, xx: int|
                0 <= yy < y && 0 <= xx < w ==> #[trigger] colors@[yy * w + xx]
                    == spec_tile_color(MapPos { x: xx as i32, y: yy as i32 }),
        decreases map_size.h - y,
    {
        let mut x: i32 = 0;
        while x < w
            invariant
                0 <= y < map_size.h <= MAX_PICK_SIDE,
                0 <= x <= w <= MAX_PICK_SIDE,
                w == map_size.w,
                colors@.len() == y * w + x,
                forall|yy: int, xx: int|
                    0 <= yy < y && 0 <= xx < w ==> #[trigger] colors@[yy * w + xx]
                        == spec_tile_color(MapPos { x: xx as i32, y: yy as i32 }),
                forall|xx: int|
                    0 <= xx < x ==> #[trigger] colors@[y * w + xx]
                        == spec_tile_color(MapPos { x: xx as i32, y: y }),
            decreases w - x,
        {
            let ghost before = colors@;
            colors.push(tile_color(MapPos { x, y }));
            assert forall|yy: int, xx: int|
                0 <= yy < y && 0 <= xx < w implies #[trigger] colors@[yy * w + xx]
                    == spec_tile_color(MapPos { x: xx as i32, y: yy as i32 }) by {
                assert(yy * w + xx < y * w) by (nonlinear_arith)
                    requires 0 <= yy < y, 0 <= xx < w;
                assert(before[yy * w + xx] == spec_tile_color(MapPos { x: xx as i32, y: yy as i32 }));
            }
            assert forall|xx: int| 0 <= xx < x + 1 implies #[trigger] colors@[y * w + xx]
                == spec_tile_color(MapPos { x: xx as i32, y: y }) by {
                if xx < x {
                    assert(before[y * w + xx] == spec_tile_color(MapPos { x: xx as i32, y: y }));
                }
            }
            x = x + 1;
        }
        assert((y + 1) * w == y * w + w) by (nonlinear_arith);
        y = y + 1;
    }
    assert(tile_index(MapPos { x: 0, y: map_size.h }, map_size) == map_size.h * w);
    colors
}

/// Resolves screen points to tiles through an offscreen pass whose pixels
/// hold tile colours. It tracks the window size, which the offscreen buffer
/// must match, and the map size, which bounds the decoded tiles.
pub struct TilePicker {
    pub win_size: Size2,
    pub map_size: Size2,
}

/// The framebuffer pixel under pointer `p` in a window of height `h`: rows
/// of the framebuffer count from the bottom, pointer rows from the top.
pub open spec fn spec_pixel_under(h: i32, p: ScreenPos) -> ScreenPos {
    ScreenPos { x: p.x, y: (h - p.y) as i32 }
}

pub open spec fn pixel_fits(h: i32, p: ScreenPos) -> bool {
    i32::MIN <= h - p.y <= i32::MAX
}

/// Whether pointer `p` has a framebuffer row in a window of height `h`.
pub fn pixel_in_range(h: i32, p: ScreenPos) -> (r: bool)
    ensures
        r == pixel_fits(h, p),
{
    let d: i64 = h as i64 - p.y as i64;
    i32::MIN as i64 <= d && d <= i32::MAX as i64
}

impl TilePicker {
    /// A picker for a window of `win_size` showing a map of `map_size`.
    pub fn new(win_size: Size2, map_size: Size2) -> (r: TilePicker)
        ensures
            r.win_size == win_size,
            r.map_size == map_size,
    {
        TilePicker { win_size, map_size }
    }

    /// The window was resized: the offscreen buffer is rebuilt at `win_size`.
    pub fn set_win_size(&mut self, win_size: Size2)
        ensures
            final(self).win_size == win_size,
            final(self).map_size == old(self).map_size,
    {
        self.win_size = win_size;
    }

    /// The framebuffer pixel to read back for pointer position `p`.
    pub fn pixel_under(&self, p: ScreenPos) -> (r: ScreenPos)
        requires
            pixel_fits(self.win_size.h, p),
        ensures
            r == spec_pixel_under(self.win_size.h, p),
    {
        ScreenPos { x: p.x, y: self.win_size.h - p.y }
    }

    /// The tile whose colour was read back, if any.
    pub fn pick_tile(&self, c: Rgba) -> (r: Option<MapPos>)
        ensures
            r == spec_color_to_tile(c, self.map_size),
    {
        color_to_tile(c, self.map_size)
    }
}

/// Picking the colour that the pick pass paints on tile `p` gives `p` back,
/// for every tile of a map no wider or higher than `MAX_PICK_SIDE`; picking
/// the background gives no tile.
pub proof fn lemma_pick_round_trip(p: MapPos, map_size: Size2)
    requires
        map_size.w <= MAX_PICK_SIDE,
        map_size.h <= MAX_PICK_SIDE,
        p.in_bounds(map_size),
    ensures
        spec_color_to_tile(spec_tile_color(p), map_size) == Some(p),
        spec_color_to_tile(spec_background(), map_size) is None,
{
}

/// After the window is resized to height `h`, the pixel read for pointer
/// `p` is `p` with its row counted from the bottom: `h - p.y`.
pub proof fn lemma_resize_flips_rows(t: TilePicker, win_size: Size2, p: ScreenPos)
    requires
        pixel_fits(win_size.h, p),
    ensures
        ({
            let resized = TilePicker { win_size, ..t };
            &&& pixel_fits(resized.win_size.h, p)
            &&& spec_pixel_under(resized.win_size.h, p).x == p.x
            &&& spec_pixel_under(resized.win_size.h, p).y == win_size.h - p.y
        }),
{
}

} // verus!
