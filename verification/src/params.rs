//! Launch dimensions computed from the size of the data.
use vstd::prelude::*;

use crate::arith::isqrt;

verus! {

/// How many trits share one 32-bit word.
pub const TRITS_PER_WORD: u64 = 16;

/// Computes launch dimensions from a data size (element count).
///
/// Given a total number of elements and a preferred block size, it calculates
/// the grid size (ceiling division) and provides utilities for multi-dimensional
/// launches.
pub struct LaunchParams;

/// 2-D launch dimensions.
#[derive(Debug, Clone, Copy)]
pub struct LaunchParams2d {
    pub grid_x: u32,
    pub grid_y: u32,
    pub block_x: u32,
    pub block_y: u32,
}

/// The preferred block size, brought into the range from one thread to
/// [`LaunchParams::MAX_BLOCK_SIZE`].
pub open spec fn clamped_block(preferred_block: u32) -> u32 {
    if preferred_block == 0 {
        1
    } else if preferred_block > LaunchParams::MAX_BLOCK_SIZE {
        LaunchParams::MAX_BLOCK_SIZE
    } else {
        preferred_block
    }
}

/// How many blocks of `block` threads it takes to give each of `n` elements a
/// thread of its own.
pub open spec fn blocks_needed(n: u64, block: u32) -> int {
    crate::arith::ceil_div(n as int, block as int)
}

/// The grid extent for `n` elements: the blocks needed, and never zero.
pub open spec fn grid_extent(n: u64, block: u32) -> int {
    let needed = blocks_needed(n, block);
    if needed == 0 {
        1
    } else {
        needed
    }
}

/// How many 32-bit words hold the given number of packed trits.
pub open spec fn packed_words(trit_count: u64) -> int {
    crate::arith::ceil_div(trit_count as int, TRITS_PER_WORD as int)
}

/// The width of a two-dimensional block: the square root of its thread
/// budget, rounded down.
pub open spec fn block_width(preferred_block: u32) -> int {
    crate::arith::floor_sqrt(clamped_block(preferred_block) as nat) as int
}

/// The height of a two-dimensional block: as many full rows as the thread
/// budget allows.
pub open spec fn block_height(preferred_block: u32) -> int {
    clamped_block(preferred_block) as int / block_width(preferred_block)
}

/// The preferred block size, brought into range.
fn clamp_block(preferred_block: u32) -> (r: u32)
    ensures
        r == clamped_block(preferred_block),
{
    if preferred_block == 0 {
        1
    } else if preferred_block > LaunchParams::MAX_BLOCK_SIZE {
        LaunchParams::MAX_BLOCK_SIZE
    } else {
        preferred_block
    }
}

/// The extent of a grid that gives each of `n` elements a thread.
fn extent(n: u64, block: u32) -> (r: u32)
    requires
        0 < block <= LaunchParams::MAX_BLOCK_SIZE,
        blocks_needed(n, block) <= u32::MAX,
    ensures
        r == grid_extent(n, block),
{
    proof {
        lemma_needed_bounds_elements(n, block);
    }
    let blocks: u64 = (n + block as u64 - 1) / block as u64;
    if blocks == 0 {
        1
    } else {
        blocks as u32
    }
}

impl LaunchParams {
    /// The conventional maximum threads per block for most GPU architectures.
    pub const MAX_BLOCK_SIZE: u32 = 1024;

    /// Compute 1-D launch parameters.
    ///
    /// Returns `(grid_size, block_size)` where `block_size` is clamped to
    /// `preferred_block` (or `MAX_BLOCK_SIZE` if larger), and `grid_size` is
    /// `ceil(elements / block_size)`, and at least one.  The blocks needed have
    /// to fit in a `u32`.
    pub fn compute_1d(elements: u64, preferred_block: u32) -> (r: (u32, u32))
        requires
            blocks_needed(elements, clamped_block(preferred_block)) <= u32::MAX,
        ensures
            r.1 == clamped_block(preferred_block),
            r.0 == grid_extent(elements, r.1),
    {
        let block = clamp_block(preferred_block);
        (extent(elements, block), block)
    }

    /// Compute 2-D launch parameters.
    ///
    /// Distributes `width × height` elements across a 2-D grid, using a
    /// square-ish block (tx × ty) and computing grid dimensions accordingly.
    pub fn compute_2d(width: u64, height: u64, preferred_block: u32) -> (r: LaunchParams2d)
        requires
            blocks_needed(width, block_width(preferred_block) as u32) <= u32::MAX,
            blocks_needed(height, block_height(preferred_block) as u32) <= u32::MAX,
        ensures
            r.block_x == block_width(preferred_block),
            r.block_y == block_height(preferred_block),
            r.grid_x == grid_extent(width, r.block_x),
            r.grid_y == grid_extent(height, r.block_y),
    {
        let block = clamp_block(preferred_block);
        let tx: u32 = isqrt(block);
        proof {
            crate::arith::lemma_floor_sqrt_split(block as nat);
        }
        let ty: u32 = block / tx;
        LaunchParams2d {
            grid_x: extent(width, tx),
            grid_y: extent(height, ty),
            block_x: tx,
            block_y: ty,
        }
    }

    /// Compute launch params for ternary-aligned data.
    ///
    /// Ternary values are packed so that each element occupies ~1.58 bits
    /// (log₂3).  Here we treat each group of 16 trits as one 32-bit word.
    pub fn compute_ternary_1d(trit_count: u64, preferred_block: u32) -> (r: (u32, u32))
        requires
            blocks_needed(packed_words(trit_count) as u64, clamped_block(preferred_block))
                <= u32::MAX,
        ensures
            r.1 == clamped_block(preferred_block),
            r.0 == grid_extent(packed_words(trit_count) as u64, r.1),
    {
        proof {
            crate::arith::law_ceil_div_is_least_cover(trit_count as int, TRITS_PER_WORD as int);
            lemma_needed_bounds_elements(
                packed_words(trit_count) as u64,
                clamped_block(preferred_block),
            );
        }
        let words: u64 = (trit_count + (TRITS_PER_WORD - 1)) / TRITS_PER_WORD;
        Self::compute_1d(words, preferred_block)
    }
}

impl LaunchParams2d {
    /// Blocks in the grid.
    pub fn total_blocks(&self) -> (r: u64)
        ensures
            r == self.grid_x * self.grid_y,
    {
        proof {
            crate::config::lemma_u32_product_fits(self.grid_x, self.grid_y);
        }
        self.grid_x as u64 * self.grid_y as u64
    }

    /// Threads in all blocks of the grid.
    pub fn total_threads(&self) -> (r: u64)
        requires
            self.grid_x * self.grid_y * self.block_x <= u64::MAX,
            self.grid_x * self.grid_y * self.block_x * self.block_y <= u64::MAX,
        ensures
            r == self.grid_x * self.grid_y * self.block_x * self.block_y,
    {
        let blocks = self.total_blocks();
        proof {
            vstd::arithmetic::mul::lemma_mul_nonnegative(blocks as int, self.block_x as int);
            vstd::arithmetic::mul::lemma_mul_nonnegative(
                blocks * self.block_x,
                self.block_y as int,
            );
        }
        blocks * self.block_x as u64 * self.block_y as u64
    }
}

/// A preferred block size is met exactly if it lies between one thread and
/// 1024; a larger one comes down to 1024, and zero goes up to one.
pub proof fn law_block_is_clamped(preferred_block: u32)
    ensures
        1 <= clamped_block(preferred_block) <= 1024,
        1 <= preferred_block <= 1024 ==> clamped_block(preferred_block) == preferred_block,
        preferred_block > 1024 ==> clamped_block(preferred_block) == 1024,
        preferred_block == 0 ==> clamped_block(preferred_block) == 1,
{
}

/// The blocks needed for `n` elements are few enough for a `u32` exactly if
/// the elements are.
pub proof fn law_blocks_fit(n: u64, block: u32)
    requires
        0 < block,
    ensures
        blocks_needed(n, block) <= u32::MAX <==> n <= 0xffff_ffff * block,
{
    crate::arith::law_ceil_div_is_least_cover(n as int, block as int);
    let needed = blocks_needed(n, block);
    if needed <= 0xffff_ffff {
        assert(needed * block <= 0xffff_ffff * block) by (nonlinear_arith)
            requires
                needed <= 0xffff_ffff,
                0 < block,
        ;
    }
}

/// What a one-dimensional computation gives: blocks of the preferred size,
/// brought between one thread and 1024, and the least number of them that has
/// a thread for every element, or one if there is no element.
pub proof fn law_1d_result(elements: u64, preferred_block: u32, r: (u32, u32))
    requires
        call_ensures(LaunchParams::compute_1d, (elements, preferred_block), r),
    ensures
        1 <= preferred_block <= 1024 ==> r.1 == preferred_block,
        preferred_block > 1024 ==> r.1 == 1024,
        preferred_block == 0 ==> r.1 == 1,
        elements == 0 ==> r.0 == 1,
        elements > 0 ==> (r.0 - 1) * r.1 < elements <= r.0 * r.1,
{
    law_block_is_clamped(preferred_block);
    lemma_extent_is_least(elements, r.1);
}

/// A one-dimensional computation takes every element count that `u32::MAX`
/// blocks can hold.
pub proof fn law_1d_accepts(elements: u64, preferred_block: u32)
    ensures
        elements <= 0xffff_ffff * clamped_block(preferred_block) ==> call_requires(
            LaunchParams::compute_1d,
            (elements, preferred_block),
        ),
{
    law_blocks_fit(elements, clamped_block(preferred_block));
}

/// Two computations with one block size: more elements never get fewer blocks,
/// and one more block's worth of elements gets one more block.
pub proof fn law_1d_grows_with_elements(
    elements: u64,
    more: u64,
    preferred_block: u32,
    r: (u32, u32),
    s: (u32, u32),
)
    requires
        elements <= more,
        call_ensures(LaunchParams::compute_1d, (elements, preferred_block), r),
        call_ensures(LaunchParams::compute_1d, (more, preferred_block), s),
    ensures
        r.0 <= s.0,
        r.1 == s.1,
        0 < elements && more == elements + r.1 ==> s.0 == r.0 + 1,
{
    law_1d_result(elements, preferred_block, r);
    law_1d_result(more, preferred_block, s);
    let block = r.1;
    lemma_extent_is_least(elements, block);
    lemma_extent_is_least(more, block);
    if s.0 < r.0 {
        assert(s.0 * block <= (r.0 - 1) * block) by (nonlinear_arith)
            requires
                s.0 <= r.0 - 1,
                0 <= block,
        ;
    }
    if 0 < elements && more == elements + block {
        assert(r.0 * block == (r.0 - 1) * block + block) by (nonlinear_arith);
        if s.0 <= r.0 {
            assert(s.0 * block <= r.0 * block) by (nonlinear_arith)
                requires
                    s.0 <= r.0,
                    0 <= block,
            ;
        }
        if s.0 > r.0 + 1 {
            assert((r.0 + 1) * block <= (s.0 - 1) * block) by (nonlinear_arith)
                requires
                    r.0 + 1 <= s.0 - 1,
                    0 <= block,
            ;
            assert((r.0 + 1) * block == r.0 * block + block) by (nonlinear_arith);
        }
    }
}

/// What a two-dimensional computation gives: the widest block whose square
/// fits the thread budget, as many rows of it as fit, and along each side the
/// least number of blocks that covers the data, or one if there is none.
pub proof fn law_2d_result(width: u64, height: u64, preferred_block: u32, r: LaunchParams2d)
    requires
        call_ensures(LaunchParams::compute_2d, (width, height, preferred_block), r),
    ensures
        ({
            let budget: int = if preferred_block == 0 {
                1
            } else if preferred_block > 1024 {
                1024
            } else {
                preferred_block as int
            };
            &&& r.block_x * r.block_x <= budget < (r.block_x + 1) * (r.block_x + 1)
            &&& r.block_x * r.block_y <= budget < r.block_x * (r.block_y + 1)
        }),
        width == 0 ==> r.grid_x == 1,
        width > 0 ==> (r.grid_x - 1) * r.block_x < width <= r.grid_x * r.block_x,
        height == 0 ==> r.grid_y == 1,
        height > 0 ==> (r.grid_y - 1) * r.block_y < height <= r.grid_y * r.block_y,
{
    law_block_is_clamped(preferred_block);
    law_2d_block_is_squarish(preferred_block);
    lemma_extent_is_least(width, r.block_x);
    lemma_extent_is_least(height, r.block_y);
}

/// A two-dimensional computation takes every area whose sides `u32::MAX`
/// blocks can reach along.
pub proof fn law_2d_accepts(width: u64, height: u64, preferred_block: u32)
    ensures
        width <= 0xffff_ffff * block_width(preferred_block) && height <= 0xffff_ffff
            * block_height(preferred_block) ==> call_requires(
            LaunchParams::compute_2d,
            (width, height, preferred_block),
        ),
{
    crate::arith::lemma_floor_sqrt_split(clamped_block(preferred_block) as nat);
    law_blocks_fit(width, block_width(preferred_block) as u32);
    law_blocks_fit(height, block_height(preferred_block) as u32);
}

/// Trits are packed sixteen to a word, and into no more words than needed.
pub proof fn law_words_are_packed(trit_count: u64)
    ensures
        packed_words(trit_count) * 16 >= trit_count,
        trit_count == 0 ==> packed_words(trit_count) == 0,
        trit_count > 0 ==> (packed_words(trit_count) - 1) * 16 < trit_count,
{
    crate::arith::law_ceil_div_is_least_cover(trit_count as int, 16);
}

/// What a computation for packed trits gives: blocks of the preferred size,
/// brought between one thread and 1024, and the least number of them that has
/// a thread for every word of sixteen trits, or one if there is no trit.
pub proof fn law_ternary_result(trit_count: u64, preferred_block: u32, r: (u32, u32))
    requires
        call_ensures(LaunchParams::compute_ternary_1d, (trit_count, preferred_block), r),
    ensures
        1 <= preferred_block <= 1024 ==> r.1 == preferred_block,
        preferred_block > 1024 ==> r.1 == 1024,
        preferred_block == 0 ==> r.1 == 1,
        trit_count == 0 ==> r.0 == 1,
        trit_count > 0 ==> (r.0 - 1) * r.1 * 16 < trit_count <= r.0 * r.1 * 16,
{
    law_block_is_clamped(preferred_block);
    law_words_are_packed(trit_count);
    lemma_extent_is_least(packed_words(trit_count) as u64, r.1);
}

/// A computation for packed trits takes every trit count whose words
/// `u32::MAX` blocks can hold.
pub proof fn law_ternary_accepts(trit_count: u64, preferred_block: u32)
    ensures
        trit_count <= 0xffff_ffff * clamped_block(preferred_block) * 16 ==> call_requires(
            LaunchParams::compute_ternary_1d,
            (trit_count, preferred_block),
        ),
{
    law_block_is_clamped(preferred_block);
    law_words_are_packed(trit_count);
    law_blocks_fit(packed_words(trit_count) as u64, clamped_block(preferred_block));
}

/// Packing: sixteen trits and one element are launched alike.
pub proof fn law_ternary_is_one_word_per_sixteen(
    words: u64,
    trit_count: u64,
    preferred_block: u32,
    r: (u32, u32),
    s: (u32, u32),
)
    requires
        (words - 1) * 16 < trit_count <= words * 16,
        call_ensures(LaunchParams::compute_ternary_1d, (trit_count, preferred_block), r),
        call_ensures(LaunchParams::compute_1d, (words, preferred_block), s),
    ensures
        r == s,
{
    law_words_are_packed(trit_count);
    assert(packed_words(trit_count) == words);
}

/// A grid is never empty, whatever the data size, and its extent is a `u32`
/// whenever the number of blocks needed is.
pub proof fn law_grid_is_never_empty(n: u64, block: u32)
    requires
        0 < block,
    ensures
        1 <= grid_extent(n, block),
        blocks_needed(n, block) <= u32::MAX ==> grid_extent(n, block) <= u32::MAX,
{
    crate::arith::law_ceil_div_is_least_cover(n as int, block as int);
}

/// The grid has a thread for every element, and with any elements at all one
/// block less would not do.
pub proof fn law_1d_covers(elements: u64, preferred_block: u32)
    ensures
        ({
            let block = clamped_block(preferred_block);
            let grid = grid_extent(elements, block);
            &&& grid * block >= elements
            &&& elements > 0 ==> (grid - 1) * block < elements
        }),
{
    lemma_extent_covers(elements, clamped_block(preferred_block));
    lemma_extent_is_least(elements, clamped_block(preferred_block));
}

/// A two-dimensional block is the widest whose square stays within the thread
/// budget, has as many rows as the budget allows, and is close to square: its
/// height is its width, or one or two rows more.
pub proof fn law_2d_block_is_squarish(preferred_block: u32)
    ensures
        ({
            let tx = block_width(preferred_block);
            let ty = block_height(preferred_block);
            let budget = clamped_block(preferred_block);
            &&& 1 <= tx <= ty <= tx + 2
            &&& tx * tx <= budget < (tx + 1) * (tx + 1)
            &&& tx * ty <= budget < tx * (ty + 1)
        }),
{
    let budget = clamped_block(preferred_block) as nat;
    crate::arith::lemma_floor_sqrt_split(budget);
    crate::arith::law_floor_sqrt_exists(budget);
    let tx = block_width(preferred_block);
    let ty = block_height(preferred_block);
    vstd::arithmetic::div_mod::lemma_fundamental_div_mod(budget as int, tx);
    vstd::arithmetic::div_mod::lemma_mod_bound(budget as int, tx);
    assert(tx * (ty + 1) == tx * ty + tx) by (nonlinear_arith);
}

/// A two-dimensional grid reaches over the whole area, so there are at least as
/// many threads as elements.
pub proof fn law_2d_covers(width: u64, height: u64, preferred_block: u32)
    ensures
        ({
            let tx = block_width(preferred_block);
            let ty = block_height(preferred_block);
            let gx = grid_extent(width, tx as u32);
            let gy = grid_extent(height, ty as u32);
            &&& gx * tx >= width
            &&& gy * ty >= height
            &&& gx * gy * tx * ty >= width * height
        }),
{
    let tx = block_width(preferred_block);
    let ty = block_height(preferred_block);
    let gx = grid_extent(width, tx as u32);
    let gy = grid_extent(height, ty as u32);
    crate::arith::lemma_floor_sqrt_split(clamped_block(preferred_block) as nat);
    lemma_extent_covers(width, tx as u32);
    lemma_extent_covers(height, ty as u32);
    assert(gx * gy * tx * ty == (gx * tx) * (gy * ty)) by (nonlinear_arith);
    assert((gx * tx) * (gy * ty) >= width * height) by (nonlinear_arith)
        requires
            gx * tx >= width,
            gy * ty >= height,
            width >= 0,
            height >= 0,
    ;
}

/// Every trit lies in a word that has a thread.
pub proof fn law_ternary_covers(trit_count: u64, preferred_block: u32)
    ensures
        ({
            let words = packed_words(trit_count);
            let block = clamped_block(preferred_block);
            let grid = grid_extent(words as u64, block);
            &&& words * TRITS_PER_WORD >= trit_count
            &&& grid * block >= words
            &&& grid * block * TRITS_PER_WORD >= trit_count
        }),
{
    crate::arith::law_ceil_div_is_least_cover(trit_count as int, TRITS_PER_WORD as int);
    lemma_extent_covers(packed_words(trit_count) as u64, clamped_block(preferred_block));
}

/// A grid extent holds every element.
proof fn lemma_extent_covers(n: u64, block: u32)
    requires
        0 < block,
    ensures
        grid_extent(n, block) * block >= n,
{
    let needed = blocks_needed(n, block);
    crate::arith::law_ceil_div_is_least_cover(n as int, block as int);
    if needed == 0 {
        assert(needed * block == 0) by (nonlinear_arith)
            requires
                needed == 0,
        ;
    }
}

/// A grid extent is one without elements, and else the least that covers them.
proof fn lemma_extent_is_least(n: u64, block: u32)
    requires
        0 < block,
    ensures
        n == 0 ==> grid_extent(n, block) == 1,
        n > 0 ==> (grid_extent(n, block) - 1) * block < n <= grid_extent(n, block) * block,
{
    let needed = blocks_needed(n, block);
    crate::arith::law_ceil_div_is_least_cover(n as int, block as int);
    if n > 0 {
        assert(needed > 0) by (nonlinear_arith)
            requires
                needed * block >= n,
                n > 0,
                block > 0,
        ;
        assert((needed - 1) * block < n);
    }
}

/// The elements that a `u32` of blocks can hold are few enough to round up in
/// 64 bits.
proof fn lemma_needed_bounds_elements(n: u64, block: u32)
    requires
        0 < block <= LaunchParams::MAX_BLOCK_SIZE,
        blocks_needed(n, block) <= u32::MAX,
    ensures
        n <= 0xffff_ffff * 1024,
{
    crate::arith::law_ceil_div_is_least_cover(n as int, block as int);
    let needed = blocks_needed(n, block);
    assert(needed * block <= 0xffff_ffff * 1024) by (nonlinear_arith)
        requires
            0 <= needed <= 0xffff_ffff,
            0 < block <= 1024,
    ;
}

} // verus!
