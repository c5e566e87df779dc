//! Sizes of the simulation's buffers and the number of work groups that
//! cover its particles and its substrate texture.

use vstd::prelude::*;

verus! {

/// Number of simulated agents.
pub const NUM_PARTICLES: u32 = 1_000_000;

/// Agents moved by one work group of the movement kernel.
pub const PARTICLES_PER_GROUP: u32 = 32;

/// Each agent is four `f32` values: position x and y, velocity x and y.
pub const FLOATS_PER_PARTICLE: u32 = 4;

/// Bytes of one `f32`.
pub const F32_BYTES: u32 = 4;

/// Number of `f32` simulation parameters in the uniform buffer: diffusion
/// rate, sensor angle, sensor distance, rotation angle and step size.
pub const SIM_PARAM_COUNT: u32 = 5;

/// Edge, in texels, of the square tile that one blur work group handles.
pub const BLUR_TILE: u32 = 16;

/// Channels of one substrate texel (RGBA).
pub const TEXEL_CHANNELS: u32 = 4;

/// Bytes of one channel of a substrate texel (a 16-bit float).
pub const CHANNEL_BYTES: u32 = 2;

/// Alignment, in bytes, that a buffer-texture copy demands of the row pitch
/// of the buffer side.
pub const COPY_ROW_ALIGNMENT: u32 = 256;

/// The ceiling of `n / d`, for `n >= 0` and `d > 0`.
pub open spec fn ceil_div(n: int, d: int) -> int {
    if n % d == 0 {
        n / d
    } else {
        n / d + 1
    }
}

/// Bytes of one substrate texel.
pub open spec fn texel_bytes() -> int {
    TEXEL_CHANNELS * CHANNEL_BYTES
}

/// Bytes of the parameter buffer: one `f32` per parameter.
pub open spec fn sim_param_bytes() -> int {
    SIM_PARAM_COUNT * F32_BYTES
}

/// Number of `f32` values that describe all agents.
pub open spec fn particle_floats() -> int {
    FLOATS_PER_PARTICLE * NUM_PARTICLES
}

/// Bytes of one particle buffer: all agents, one after the other.
pub open spec fn particle_bytes() -> int {
    NUM_PARTICLES * FLOATS_PER_PARTICLE * F32_BYTES
}

/// Bytes of one row of the substrate in the staging buffer: a row of texels,
/// padded up to the next multiple of `COPY_ROW_ALIGNMENT`.
pub open spec fn padded_row_bytes(width: int) -> int {
    ceil_div(width * texel_bytes(), COPY_ROW_ALIGNMENT as int) * COPY_ROW_ALIGNMENT
}

/// Whether a substrate of `width` by `height` texels can be laid out: a
/// padded row fits a `u32` byte count. (Then `height` such rows, for a `u32`
/// height, fit a `u64` byte count.)
pub open spec fn substrate_fits(width: int, height: int) -> bool {
    padded_row_bytes(width) <= u32::MAX
}

/// Ceiling division: `n` items in groups of `d` take `ceil_div(n, d)` groups.
pub fn div_ceil(n: u32, d: u32) -> (r: u32)
    requires
        d > 0,
    ensures
        r == ceil_div(n as int, d as int),
{
    let q = n / d;
    if n % d == 0 {
        q
    } else {
        proof {
            vstd::arithmetic::div_mod::lemma_fundamental_div_mod(n as int, d as int);
            assert(q <= d * q) by (nonlinear_arith)
                requires
                    d >= 1,
                    q >= 0,
            ;
        }
        q + 1
    }
}

/// `ceil_div(n, d)` groups of `d` hold all `n` items, and one group fewer
/// would not: `n <= ceil_div(n, d) * d < n + d`.
pub proof fn lemma_ceil_div_covers(n: int, d: int)
    requires
        n >= 0,
        d > 0,
    ensures
        n <= ceil_div(n, d) * d < n + d,
        ceil_div(n, d) >= 0,
        ceil_div(n, d) == 0 <==> n == 0,
{
    let q = n / d;
    let r = n % d;
    vstd::arithmetic::div_mod::lemma_fundamental_div_mod(n, d);
    vstd::arithmetic::div_mod::lemma_mod_pos_bound(n, d);
    vstd::arithmetic::div_mod::lemma_div_pos_is_pos(n, d);
    assert(n == q * d + r) by (nonlinear_arith)
        requires
            n == d * q + r,
    ;
    assert((q + 1) * d == q * d + d) by (nonlinear_arith);
    if q == 0 {
        assert(q * d == 0) by (nonlinear_arith)
            requires
                q == 0,
        ;
    } else {
        assert(q * d >= d) by (nonlinear_arith)
            requires
                q >= 1,
                d > 0,
        ;
    }
}

/// The initial particle data fills a particle buffer exactly: four floats
/// of four bytes for each of the million agents. The five parameters take
/// twenty bytes, and a substrate texel (four 16-bit channels) eight.
pub proof fn lemma_particle_data_fills_buffer()
    ensures
        particle_floats() * F32_BYTES == particle_bytes(),
        particle_floats() == 4 * 1_000_000,
        particle_bytes() == 16 * 1_000_000,
        sim_param_bytes() == 20,
        texel_bytes() == 8,
        COPY_ROW_ALIGNMENT == 256,
        particle_bytes() <= u64::MAX,
        particle_floats() <= usize::MAX,
{
}

/// Work groups the movement kernel is dispatched with: enough groups of
/// `PARTICLES_PER_GROUP` to cover all `NUM_PARTICLES` agents.
pub fn particle_work_group_count() -> (r: u32)
    ensures
        r == ceil_div(NUM_PARTICLES as int, PARTICLES_PER_GROUP as int),
{
    div_ceil(NUM_PARTICLES, PARTICLES_PER_GROUP)
}

/// Work groups the blur kernel is dispatched with, in x and in y: enough
/// `BLUR_TILE` by `BLUR_TILE` tiles to cover a `width` by `height` substrate.
pub fn blur_work_group_count(width: u32, height: u32) -> (r: (u32, u32))
    ensures
        r.0 == ceil_div(width as int, BLUR_TILE as int),
        r.1 == ceil_div(height as int, BLUR_TILE as int),
{
    (div_ceil(width, BLUR_TILE), div_ceil(height, BLUR_TILE))
}

/// Bytes of the uniform buffer of simulation parameters.
pub fn sim_param_buffer_bytes() -> (r: u64)
    ensures
        r == sim_param_bytes(),
{
    assert(SIM_PARAM_COUNT * F32_BYTES == 20);
    (SIM_PARAM_COUNT * F32_BYTES) as u64
}

/// Number of `f32` values in the initial particle data.
pub fn particle_float_count() -> (r: usize)
    ensures
        r == particle_floats(),
{
    (FLOATS_PER_PARTICLE * NUM_PARTICLES) as usize
}

/// Bytes of each of the two particle buffers.
pub fn particle_buffer_bytes() -> (r: u64)
    ensures
        r == particle_bytes(),
{
    (NUM_PARTICLES * (FLOATS_PER_PARTICLE * F32_BYTES)) as u64
}

/// A padded row holds a row of texels with less than one alignment unit to
/// spare, and is a multiple of the alignment.
pub proof fn lemma_padded_row(width: int)
    requires
        width >= 0,
    ensures
        width * texel_bytes() <= padded_row_bytes(width) < width * texel_bytes()
            + COPY_ROW_ALIGNMENT,
        padded_row_bytes(width) % (COPY_ROW_ALIGNMENT as int) == 0,
        padded_row_bytes(width) >= 0,
{
    lemma_ceil_div_covers(width * texel_bytes(), COPY_ROW_ALIGNMENT as int);
    vstd::arithmetic::div_mod::lemma_mod_multiples_basic(
        ceil_div(width * texel_bytes(), COPY_ROW_ALIGNMENT as int),
        COPY_ROW_ALIGNMENT as int,
    );
}

/// Bytes of one padded row of a `width` texels wide substrate, counted in
/// 64 bits, where every width fits.
pub fn row_pitch(width: u32) -> (r: u64)
    ensures
        r == padded_row_bytes(width as int),
{
    proof {
        assert(texel_bytes() == 8);
        assert(width * 8 <= u64::MAX);
    }
    let texel: u64 = (TEXEL_CHANNELS * CHANNEL_BYTES) as u64;
    let raw: u64 = (width as u64) * texel;
    let align: u64 = COPY_ROW_ALIGNMENT as u64;
    let row: u64 = if raw % align == 0 {
        raw
    } else {
        (raw / align + 1) * align
    };
    proof {
        vstd::arithmetic::div_mod::lemma_fundamental_div_mod(raw as int, align as int);
        assert(row == padded_row_bytes(width as int)) by (nonlinear_arith)
            requires
                row == (if raw % align == 0 { raw as int } else { (raw / align + 1) * align }),
                raw == align * (raw / align) + raw % align,
                padded_row_bytes(width as int) == (if raw % align == 0 {
                    (raw / align) as int
                } else {
                    raw / align + 1
                }) * align,
        ;
    }
    row
}

/// Bytes of one row of the substrate in the staging buffer, padded to the
/// copy alignment.
pub fn staging_bytes_per_row(width: u32) -> (r: u32)
    requires
        padded_row_bytes(width as int) <= u32::MAX,
    ensures
        r == padded_row_bytes(width as int),
        r % COPY_ROW_ALIGNMENT == 0,
        width * texel_bytes() <= r < width * texel_bytes() + COPY_ROW_ALIGNMENT,
{
    proof {
        lemma_padded_row(width as int);
    }
    row_pitch(width) as u32
}

/// Bytes of the staging buffer that holds a copy of the whole substrate:
/// `height` padded rows.
pub fn staging_buffer_bytes(width: u32, height: u32) -> (r: u64)
    requires
        substrate_fits(width as int, height as int),
    ensures
        r == padded_row_bytes(width as int) * height,
{
    let row = staging_bytes_per_row(width);
    proof {
        assert(row * height <= u64::MAX) by (nonlinear_arith)
            requires
                row <= u32::MAX,
                height <= u32::MAX,
        ;
    }
    (row as u64) * (height as u64)
}

} // verus!
