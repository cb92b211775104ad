//! Pixel extents and the fixed work-group tiling discipline.
//!
//! Compute and ray dispatches run in whole tiles of a fixed local work-group
//! shape, so every accepted render extent must be a multiple of the tile side
//! in each dimension; work-group counts then divide out exactly.

use vstd::prelude::*;

verus! {

/// Side length in pixels of the fixed local work-group tile (the shader's
/// declared work-group shape is this value squared by one).
pub const TILE_SIZE: u32 = 10;

/// A two-dimensional pixel extent of a window, surface, or render target.
#[derive(Clone, Copy, Debug, PartialEq, Eq, Structural)]
pub struct Extent {
    pub width: u32,
    pub height: u32,
}

impl Extent {
    /// Both dimensions are whole multiples of `tile`.
    pub open spec fn is_aligned(self, tile: u32) -> bool {
        self.width % tile == 0 && self.height % tile == 0
    }
}

/// Work-group counts along each axis of a compute or ray dispatch.
#[derive(Clone, Copy, Debug, PartialEq, Eq, Structural)]
pub struct DispatchSize {
    pub x: u32,
    pub y: u32,
    pub z: u32,
}

/// The largest tile-aligned extent that fits inside `e`: each dimension
/// rounded down to the nearest multiple of `tile`.
pub open spec fn spec_align_down(e: Extent, tile: u32) -> Extent {
    Extent {
        width: (e.width - e.width % tile) as u32,
        height: (e.height - e.height % tile) as u32,
    }
}

/// The largest tile-aligned extent that fits inside `e`: each dimension is
/// rounded down to the nearest multiple of `tile`, and an already aligned
/// extent is returned unchanged.
pub fn align_down(e: Extent, tile: u32) -> (r: Extent)
    requires
        tile > 0,
    ensures
        r == spec_align_down(e, tile),
        r.is_aligned(tile),
        r.width <= e.width,
        r.height <= e.height,
        e.width - r.width < tile,
        e.height - r.height < tile,
        e.is_aligned(tile) ==> r == e,
{
    proof {
        vstd::arithmetic::div_mod::lemma_fundamental_div_mod(e.width as int, tile as int);
        vstd::arithmetic::div_mod::lemma_fundamental_div_mod(e.height as int, tile as int);
        vstd::arithmetic::div_mod::lemma_mod_bound(e.width as int, tile as int);
        vstd::arithmetic::div_mod::lemma_mod_bound(e.height as int, tile as int);
    }
    let w: u32 = e.width - e.width % tile;
    let h: u32 = e.height - e.height % tile;
    proof {
        vstd::arithmetic::mul::lemma_mul_is_commutative(
            e.width as int / tile as int,
            tile as int,
        );
        vstd::arithmetic::mul::lemma_mul_is_commutative(
            e.height as int / tile as int,
            tile as int,
        );
        assert(w == (e.width as int / tile as int) * tile as int);
        assert(h == (e.height as int / tile as int) * tile as int);
        vstd::arithmetic::div_mod::lemma_mod_multiples_basic(
            e.width as int / tile as int,
            tile as int,
        );
        vstd::arithmetic::div_mod::lemma_mod_multiples_basic(
            e.height as int / tile as int,
            tile as int,
        );
    }
    Extent { width: w, height: h }
}

/// Work-group counts for a dispatch covering `e` in `tile`-sized groups:
/// exactly `extent / tile` along each axis with zero remainder, and a single
/// layer in depth.
pub fn dispatch_size(e: Extent, tile: u32) -> (d: DispatchSize)
    requires
        tile > 0,
        e.is_aligned(tile),
    ensures
        d.x == e.width / tile,
        d.y == e.height / tile,
        d.z == 1,
        d.x * tile == e.width,
        d.y * tile == e.height,
{
    proof {
        vstd::arithmetic::div_mod::lemma_fundamental_div_mod(e.width as int, tile as int);
        vstd::arithmetic::div_mod::lemma_fundamental_div_mod(e.height as int, tile as int);
        vstd::arithmetic::mul::lemma_mul_is_commutative(
            e.width as int / tile as int,
            tile as int,
        );
        vstd::arithmetic::mul::lemma_mul_is_commutative(
            e.height as int / tile as int,
            tile as int,
        );
    }
    DispatchSize { x: e.width / tile, y: e.height / tile, z: 1 }
}

} // verus!
