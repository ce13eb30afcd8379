//! Row-alignment arithmetic for texture-to-buffer transfers.
//!
//! A texture-to-buffer copy must declare a `bytes_per_row` pitch that is a
//! multiple of a fixed hardware alignment.  These routines compute that
//! padded pitch and the total padded size of the host-readable staging
//! buffer that receives a copy of a whole texture.

use vstd::arithmetic::div_mod::lemma_fundamental_div_mod;
use vstd::arithmetic::div_mod::lemma_mod_bound;
use vstd::arithmetic::div_mod::lemma_mod_multiples_basic;
use vstd::arithmetic::mul::lemma_mul_is_commutative;
use vstd::arithmetic::mul::lemma_mul_is_distributive_add;
use vstd::prelude::*;

use crate::extent::Extent;

verus! {

/// Required alignment, in bytes, of the `bytes_per_row` pitch of a
/// texture-to-buffer copy: a fixed hardware constant.
pub const COPY_BYTES_PER_ROW_ALIGNMENT: u32 = 256;

/// The smallest multiple of `factor` that is at least `x` (for `x >= 0`).
pub open spec fn round_up_to(x: int, factor: int) -> int
    recommends
        x >= 0,
        factor >= 1,
{
    if x % factor == 0 {
        x
    } else {
        factor * (x / factor + 1)
    }
}

/// `round_up_to(x, factor)` is a multiple of `factor`, is at least `x`, adds
/// less than one full `factor` of padding, and adds none at all when `x` is
/// already a multiple of `factor`.
pub proof fn lemma_round_up_to(x: int, factor: int)
    requires
        x >= 0,
        factor >= 1,
    ensures
        round_up_to(x, factor) % factor == 0,
        round_up_to(x, factor) >= x,
        round_up_to(x, factor) < x + factor,
        x % factor == 0 ==> round_up_to(x, factor) == x,
{
    if x % factor != 0 {
        let q = x / factor;
        lemma_fundamental_div_mod(x, factor);
        lemma_mod_bound(x, factor);
        lemma_mul_is_distributive_add(factor, q, 1);
        lemma_mod_multiples_basic(q + 1, factor);
        lemma_mul_is_commutative(factor, q + 1);
    }
}

/// The smallest multiple of `factor` that is at least `x`.
pub fn next_multiple(x: u32, factor: u32) -> (r: u32)
    requires
        factor >= 1,
        round_up_to(x as int, factor as int) <= u32::MAX,
    ensures
        r == round_up_to(x as int, factor as int),
{
    if x % factor != 0 {
        proof {
            lemma_round_up_to(x as int, factor as int);
            vstd::arithmetic::div_mod::lemma_div_pos_is_pos(x as int, factor as int);
            assert((factor as int) * (x as int / factor as int + 1) >= x as int / factor as int
                + 1) by (nonlinear_arith)
                requires
                    factor >= 1,
                    x as int / factor as int + 1 >= 0,
            ;
        }
        factor * ((x / factor) + 1)
    } else {
        x
    }
}

/// Padded pitch, in bytes, of one row of `width` elements of
/// `element_size` bytes each.
pub open spec fn bytes_per_row_spec(width: int, element_size: int) -> int {
    round_up_to(width * element_size, COPY_BYTES_PER_ROW_ALIGNMENT as int)
}

/// Total padded size, in bytes, of a buffer holding `height * depth` rows at
/// the padded pitch.
pub open spec fn buffer_size_spec(width: int, element_size: int, height: int, depth: int) -> int {
    bytes_per_row_spec(width, element_size) * height * depth
}

/// The pitch a texture-to-buffer copy of rows of `width` elements must
/// declare: the row's byte length rounded up to the hardware alignment.
/// Under- or over-stating this pitch corrupts every row boundary of the
/// copied output, so the result is pinned exactly.
pub fn aligned_texture_bytes_per_row(width: u32, element_size: u32) -> (r: u32)
    requires
        width >= 1,
        element_size >= 1,
        width * element_size <= u32::MAX - 255,
    ensures
        r == bytes_per_row_spec(width as int, element_size as int),
        r % COPY_BYTES_PER_ROW_ALIGNMENT == 0,
        r >= width * element_size,
        r < width * element_size + COPY_BYTES_PER_ROW_ALIGNMENT,
        (width * element_size) % (COPY_BYTES_PER_ROW_ALIGNMENT as int) == 0 ==> r == width
            * element_size,
{
    proof {
        lemma_round_up_to(width * element_size, COPY_BYTES_PER_ROW_ALIGNMENT as int);
    }
    next_multiple(width * element_size, COPY_BYTES_PER_ROW_ALIGNMENT)
}

/// Size, in bytes, of the staging buffer that receives a full
/// texture-to-buffer copy of an `extent`-shaped texture of elements of
/// `element_size` bytes: the padded pitch times the number of rows.
pub fn aligned_texture_buffer_size_bytes(extent: &Extent, element_size: u32) -> (r: u64)
    requires
        extent.width >= 1,
        element_size >= 1,
        extent.width * element_size <= u32::MAX - 255,
        buffer_size_spec(
            extent.width as int,
            element_size as int,
            extent.height as int,
            extent.depth as int,
        ) <= u64::MAX,
    ensures
        r == buffer_size_spec(
            extent.width as int,
            element_size as int,
            extent.height as int,
            extent.depth as int,
        ),
        r == bytes_per_row_spec(extent.width as int, element_size as int) * extent.height
            * extent.depth,
{
    let bytes_per_row = aligned_texture_bytes_per_row(extent.width, element_size);
    proof {
        assert((bytes_per_row as int) * (extent.height as int) <= 0xFFFF_FFFF * 0xFFFF_FFFF)
            by (nonlinear_arith)
            requires
                bytes_per_row <= 0xFFFF_FFFFu32,
                extent.height <= 0xFFFF_FFFFu32,
        ;
    }
    (bytes_per_row as u64) * (extent.height as u64) * (extent.depth as u64)
}

/// The padded buffer size is exactly `bytes_per_row * height * depth`, and
/// therefore scales linearly in each of the height and the depth.
pub proof fn lemma_buffer_size_linear(
    width: int,
    element_size: int,
    h1: int,
    h2: int,
    d1: int,
    d2: int,
)
    ensures
        buffer_size_spec(width, element_size, h1 + h2, d1) == buffer_size_spec(
            width,
            element_size,
            h1,
            d1,
        ) + buffer_size_spec(width, element_size, h2, d1),
        buffer_size_spec(width, element_size, h1, d1 + d2) == buffer_size_spec(
            width,
            element_size,
            h1,
            d1,
        ) + buffer_size_spec(width, element_size, h1, d2),
{
    let b = bytes_per_row_spec(width, element_size);
    assert(b * (h1 + h2) * d1 == b * h1 * d1 + b * h2 * d1) by (nonlinear_arith);
    assert(b * h1 * (d1 + d2) == b * h1 * d1 + b * h1 * d2) by (nonlinear_arith);
}

/// Number of cells of the extent, as the 64-bit element count the transfer
/// sizes are derived from.
pub fn extent_volume(e: &Extent) -> (r: u64)
    requires
        e.volume() <= u64::MAX,
    ensures
        r == e.volume(),
{
    proof {
        assert((e.width as int) * (e.height as int) <= 0xFFFF_FFFF * 0xFFFF_FFFF)
            by (nonlinear_arith)
            requires
                e.width <= 0xFFFF_FFFFu32,
                e.height <= 0xFFFF_FFFFu32,
        ;
    }
    (e.width as u64) * (e.height as u64) * (e.depth as u64)
}

} // verus!
