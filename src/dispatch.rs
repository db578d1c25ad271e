use vstd::prelude::*;

verus! {

/// Width in threads of one tile; the kernel source is built with the same value.
pub const TILE_WIDTH: u32 = 256;

/// A three-dimensional extent, as used for thread groups and grids.
#[derive(Clone, Copy, Debug, PartialEq, Eq, Structural)]
pub struct GridSize {
    pub x: u64,
    pub y: u64,
    pub z: u64,
}

/// The geometry of one kernel dispatch.
#[derive(Clone, Copy, Debug, PartialEq, Eq, Structural)]
pub struct DispatchPlan {
    pub threads_per_group: GridSize,
    pub group_count: GridSize,
}

/// The least number of `d`-wide tiles that cover `n` columns.
pub open spec fn ceil_div(n: nat, d: nat) -> nat
    recommends
        d > 0,
{
    ((n + d - 1) as nat) / d
}

/// One thread group per tile of a row, one row of groups per image row.
pub open spec fn plan_spec(width: u32, height: u32, tile_width: u32) -> DispatchPlan {
    DispatchPlan {
        threads_per_group: GridSize { x: tile_width as u64, y: 1, z: 1 },
        group_count: GridSize {
            x: ceil_div(width as nat, tile_width as nat) as u64,
            y: height as u64,
            z: 1,
        },
    }
}

/// Computes the tile grid for an image of `width` x `height` pixels.
pub fn plan(width: u32, height: u32, tile_width: u32) -> (r: DispatchPlan)
    requires
        tile_width >= 1,
    ensures
        r == plan_spec(width, height, tile_width),
{
    let tiles: u64 = (width as u64 + tile_width as u64 - 1) / tile_width as u64;
    DispatchPlan {
        threads_per_group: GridSize { x: tile_width as u64, y: 1, z: 1 },
        group_count: GridSize { x: tiles, y: height as u64, z: 1 },
    }
}

/// The tiles of a row cover the whole row, and the last tile starts inside it:
/// `(count - 1) * tile_width < width <= count * tile_width`.
pub proof fn lemma_plan_covers_row(width: u32, height: u32, tile_width: u32)
    requires
        width >= 1,
        tile_width >= 1,
    ensures
        plan_spec(width, height, tile_width).group_count.x * tile_width >= width,
        (plan_spec(width, height, tile_width).group_count.x - 1) * tile_width < width,
{
    let n = width as int;
    let d = tile_width as int;
    let q = (n + d - 1) / d;
    assert(d * q + (n + d - 1) % d == n + d - 1) by {
        vstd::arithmetic::div_mod::lemma_fundamental_div_mod(n + d - 1, d);
    }
    assert(0 <= (n + d - 1) % d < d) by {
        vstd::arithmetic::div_mod::lemma_mod_bound(n + d - 1, d);
    }
    assert(q <= n) by (nonlinear_arith)
        requires
            d * q <= n + d - 1,
            d >= 1,
            n >= 1,
    {
    }
    assert(q * d >= n && (q - 1) * d < n) by (nonlinear_arith)
        requires
            d * q + (n + d - 1) % d == n + d - 1,
            0 <= (n + d - 1) % d < d,
    {
    }
}

/// Planning depends on its arguments alone: equal arguments give equal plans.
pub proof fn lemma_plan_deterministic(
    width: u32,
    height: u32,
    tile_width: u32,
    width2: u32,
    height2: u32,
    tile_width2: u32,
)
    requires
        width == width2,
        height == height2,
        tile_width == tile_width2,
    ensures
        plan_spec(width, height, tile_width) == plan_spec(width2, height2, tile_width2),
{
}

} // verus!
