//! Dequantization of RemoteFX wavelet coefficients.
//!
//! A 64x64 tile is stored as 4096 coefficients laid out subband by subband:
//! three first-level subbands of 1024 values (HL1, LH1, HH1), three
//! second-level subbands of 256 values (HL2, LH2, HH2) and four third-level
//! subbands of 64 values (HL3, LH3, HH3, LL3).  Each subband carries a
//! quantization value `q`; decoding shifts every coefficient of the subband
//! left by `q - 1` bits when that amount is positive.
use vstd::arithmetic::power2::pow2;
use vstd::bits::{lemma_u32_pow2_no_overflow, lemma_u32_shl_is_mul};
use vstd::prelude::*;

verus! {

pub const FIRST_LEVEL_SIZE: usize = 1024;

pub const SECOND_LEVEL_SIZE: usize = 256;

pub const THIRD_LEVEL_SIZE: usize = 64;

pub const FIRST_LEVEL_SUBBANDS_COUNT: usize = 3;

pub const SECOND_LEVEL_SUBBANDS_COUNT: usize = 3;

/// Number of coefficients that the first and second levels take together;
/// the third level starts here.
pub const THIRD_LEVEL_START: usize = 3840;

/// Number of coefficients of a full tile.
pub const TILE_SIZE: usize = 4096;

/// The quantization values of the ten subbands of a tile.
#[derive(Clone, Copy, Debug)]
pub struct Quant {
    pub ll3: u8,
    pub lh3: u8,
    pub hl3: u8,
    pub hh3: u8,
    pub lh2: u8,
    pub hl2: u8,
    pub hh2: u8,
    pub lh1: u8,
    pub hl1: u8,
    pub hh1: u8,
}

/// One coefficient after a block has been decoded with `factor`: shifted
/// left by `factor` bits (in 16-bit two's complement) when `factor` is
/// positive, unchanged otherwise.
pub open spec fn shifted(v: i16, factor: i16) -> i16 {
    if factor > 0 {
        v << (factor as u32)
    } else {
        v
    }
}

/// The shift amount that a quantization value stands for.
pub open spec fn factor_of(q: u8) -> i16 {
    (q - 1) as i16
}

/// The quantization value that governs coefficient `i` of a tile, if any:
/// positions at or beyond 4096 belong to no subband.
pub open spec fn subband_quant(quant: Quant, i: int) -> Option<u8> {
    if i < 0 {
        None
    } else if i < 1024 {
        Some(quant.hl1)
    } else if i < 2048 {
        Some(quant.lh1)
    } else if i < 3072 {
        Some(quant.hh1)
    } else if i < 3328 {
        Some(quant.hl2)
    } else if i < 3584 {
        Some(quant.lh2)
    } else if i < 3840 {
        Some(quant.hh2)
    } else if i < 3904 {
        Some(quant.hl3)
    } else if i < 3968 {
        Some(quant.lh3)
    } else if i < 4032 {
        Some(quant.hh3)
    } else if i < 4096 {
        Some(quant.ll3)
    } else {
        None
    }
}

/// The decoded value of a coefficient that subband quantization `q` governs.
pub open spec fn dequantized(v: i16, q: Option<u8>) -> i16 {
    match q {
        Some(x) => shifted(v, factor_of(x)),
        None => v,
    }
}

/// The quantization values are usable on a buffer of length `len`: every
/// subband that has at least one coefficient in the buffer shifts by less
/// than 16 bits.
pub open spec fn quant_fits(quant: Quant, len: int) -> bool {
    &&& quant.hl1 <= 16
    &&& quant.lh1 <= 16
    &&& quant.hh1 <= 16
    &&& quant.hl2 <= 16
    &&& quant.lh2 <= 16
    &&& quant.hh2 <= 16
    &&& (len > 3840 ==> quant.hl3 <= 16)
    &&& (len > 3904 ==> quant.lh3 <= 16)
    &&& (len > 3968 ==> quant.hh3 <= 16)
    &&& (len > 4032 ==> quant.ll3 <= 16)
}

/// Whether `decode` accepts a buffer of `len` coefficients with these
/// quantization values.
pub fn can_decode(len: usize, quant: &Quant) -> (r: bool)
    ensures
        r == (len >= THIRD_LEVEL_START && quant_fits(*quant, len as int)),
{
    len >= THIRD_LEVEL_START && quant.hl1 <= 16 && quant.lh1 <= 16 && quant.hh1 <= 16 && quant.hl2
        <= 16 && quant.lh2 <= 16 && quant.hh2 <= 16 && (len <= 3840 || quant.hl3 <= 16) && (len
        <= 3904 || quant.lh3 <= 16) && (len <= 3968 || quant.hh3 <= 16) && (len <= 4032
        || quant.ll3 <= 16)
}

/// Decodes every coefficient of `buffer` with the same `factor`.
pub fn decode_block(buffer: &mut [i16], factor: i16)
    requires
        old(buffer)@.len() > 0 ==> factor < 16,
    ensures
        final(buffer)@.len() == old(buffer)@.len(),
        forall|i: int|
            0 <= i < old(buffer)@.len() ==> final(buffer)@[i] == shifted(old(buffer)@[i], factor),
{
    let n = buffer.len();
    decode_range(buffer, 0, n, factor);
}

/// Decodes the coefficients at positions `start..end` with `factor` and
/// leaves the others as they are.
fn decode_range(buffer: &mut [i16], start: usize, end: usize, factor: i16)
    requires
        start <= end <= old(buffer)@.len(),
        start < end ==> factor < 16,
    ensures
        final(buffer)@.len() == old(buffer)@.len(),
        forall|i: int|
            start <= i < end ==> final(buffer)@[i] == shifted(old(buffer)@[i], factor),
        forall|i: int|
            0 <= i < old(buffer)@.len() && !(start <= i < end) ==> final(buffer)@[i] == old(
                buffer,
            )@[i],
{
    if factor > 0 && start < end {
        let mut i: usize = start;
        while i < end
            invariant
                0 < factor < 16,
                start <= i <= end,
                end <= buffer@.len(),
                buffer@.len() == old(buffer)@.len(),
                forall|j: int| start <= j < i ==> buffer@[j] == shifted(old(buffer)@[j], factor),
                forall|j: int|
                    0 <= j < buffer@.len() && !(start <= j < i) ==> buffer@[j] == old(buffer)@[j],
            decreases end - i,
        {
            let v = buffer[i];
            buffer[i] = v << (factor as u32);
            i += 1;
        }
    }
}

/// First position of subband `band` (0 to 9, in storage order).
pub open spec fn band_start(band: int) -> int {
    if band == 0 {
        0
    } else if band == 1 {
        1024
    } else if band == 2 {
        2048
    } else if band == 3 {
        3072
    } else if band == 4 {
        3328
    } else if band == 5 {
        3584
    } else if band == 6 {
        3840
    } else if band == 7 {
        3904
    } else if band == 8 {
        3968
    } else if band == 9 {
        4032
    } else {
        4096
    }
}

/// The quantization value of subband `band` (0 to 9, in storage order).
pub open spec fn band_quant(quant: Quant, band: int) -> u8 {
    if band == 0 {
        quant.hl1
    } else if band == 1 {
        quant.lh1
    } else if band == 2 {
        quant.hh1
    } else if band == 3 {
        quant.hl2
    } else if band == 4 {
        quant.lh2
    } else if band == 5 {
        quant.hh2
    } else if band == 6 {
        quant.hl3
    } else if band == 7 {
        quant.lh3
    } else if band == 8 {
        quant.hh3
    } else {
        quant.ll3
    }
}

fn band_bounds(quant: &Quant, band: usize) -> (r: (usize, u8))
    requires
        band < 10,
    ensures
        r.0 == band_start(band as int),
        r.1 == band_quant(*quant, band as int),
{
    match band {
        0 => (0, quant.hl1),
        1 => (1024, quant.lh1),
        2 => (2048, quant.hh1),
        3 => (3072, quant.hl2),
        4 => (3328, quant.lh2),
        5 => (3584, quant.hh2),
        6 => (3840, quant.hl3),
        7 => (3904, quant.lh3),
        8 => (3968, quant.hh3),
        _ => (4032, quant.ll3),
    }
}

proof fn lemma_band_quant(quant: Quant, band: int, i: int)
    requires
        0 <= band < 10,
        band_start(band) <= i < band_start(band + 1),
    ensures
        subband_quant(quant, i) == Some(band_quant(quant, band)),
{
}

/// Decodes the ten subbands of a tile in place: every coefficient at a
/// position below 4096 is shifted by its subband's factor, and the
/// coefficients beyond a full tile are left as they are.
pub fn decode(buffer: &mut [i16], quant: &Quant)
    requires
        old(buffer)@.len() >= THIRD_LEVEL_START,
        quant_fits(*quant, old(buffer)@.len() as int),
    ensures
        final(buffer)@.len() == old(buffer)@.len(),
        forall|i: int|
            0 <= i < old(buffer)@.len() ==> final(buffer)@[i] == dequantized(
                old(buffer)@[i],
                subband_quant(*quant, i),
            ),
        forall|i: int|
            TILE_SIZE <= i < old(buffer)@.len() ==> final(buffer)@[i] == old(buffer)@[i],
{
    let n = buffer.len();
    let mut band: usize = 0;
    while band < 10
        invariant
            band <= 10,
            n == buffer@.len(),
            n == old(buffer)@.len(),
            n >= THIRD_LEVEL_START,
            quant_fits(*quant, n as int),
            forall|i: int|
                0 <= i < n && i < band_start(band as int) ==> buffer@[i] == dequantized(
                    old(buffer)@[i],
                    subband_quant(*quant, i),
                ),
            forall|i: int|
                0 <= i < n && i >= band_start(band as int) ==> buffer@[i] == old(buffer)@[i],
        decreases 10 - band,
    {
        let (start, q) = band_bounds(quant, band);
        let next_start: usize = if band == 9 {
            4096
        } else {
            band_bounds(quant, band + 1).0
        };
        let (lo, hi) = if start >= n {
            (n, n)
        } else if next_start >= n {
            (start, n)
        } else {
            (start, next_start)
        };
        let factor: i16 = q as i16 - 1;
        decode_range(buffer, lo, hi, factor);
        proof {
            assert forall|i: int|
                0 <= i < n && i < band_start(band + 1) implies buffer@[i] == dequantized(
                old(buffer)@[i],
                subband_quant(*quant, i),
            ) by {
                if i >= band_start(band as int) {
                    lemma_band_quant(*quant, band as int, i);
                }
            }
        }
        band += 1;
    }
}

/// Decoding with quantization values of at most one leaves every coefficient
/// unchanged: such values stand for a shift of zero bits or less.
pub proof fn law_unit_quant_is_identity(quant: Quant, before: Seq<i16>, after: Seq<i16>)
    requires
        quant.ll3 <= 1,
        quant.lh3 <= 1,
        quant.hl3 <= 1,
        quant.hh3 <= 1,
        quant.lh2 <= 1,
        quant.hl2 <= 1,
        quant.hh2 <= 1,
        quant.lh1 <= 1,
        quant.hl1 <= 1,
        quant.hh1 <= 1,
        after.len() == before.len(),
        forall|i: int|
            0 <= i < before.len() ==> after[i] == dequantized(before[i], subband_quant(quant, i)),
    ensures
        after == before,
{
    assert(after =~= before);
}

/// While the result fits in 16 bits, decoding a coefficient with a positive
/// factor multiplies it by two to the power of that factor.
pub proof fn law_shift_is_scaling(v: i16, factor: i16)
    requires
        0 < factor < 16,
        i16::MIN <= v * pow2(factor as nat) <= i16::MAX,
    ensures
        shifted(v, factor) == v * pow2(factor as nat),
{
    let f: u32 = factor as u32;
    let p: u32 = 1u32 << f;
    lemma_u32_pow2_no_overflow(f as nat);
    lemma_u32_shl_is_mul(1u32, f);
    assert(p == pow2(f as nat));
    assert(p < 0x10000u32) by (bit_vector)
        requires
            f < 16,
            p == (1u32 << f),
    ;
    assert((v as i32) * (p as i32) == v * pow2(factor as nat));
    assert(0 < factor < 16 && f == factor as u32 && p == (1u32 << f) && -32768 <= (v as i32) * (
    p as i32) <= 32767 ==> (v << f) as i32 == (v as i32) * (p as i32)) by (bit_vector);
    assert(shifted(v, factor) == v << f);
}

/// A coefficient of a subband quantized with `q` between 2 and 16 decodes to
/// the coefficient times 2^(q-1), while that product fits in 16 bits; with
/// `q` of 0 or 1 it is left as it is.
pub proof fn law_dequantize_multiplies_by_power_of_two(v: i16, q: u8)
    ensures
        q <= 1 ==> dequantized(v, Some(q)) == v,
        2 <= q <= 16 && i16::MIN <= v * pow2((q - 1) as nat) <= i16::MAX ==> dequantized(
            v,
            Some(q),
        ) == v * pow2((q - 1) as nat),
{
    if 2 <= q <= 16 && i16::MIN <= v * pow2((q - 1) as nat) <= i16::MAX {
        let factor: i16 = (q - 1) as i16;
        assert(factor as nat == (q - 1) as nat);
        law_shift_is_scaling(v, factor);
    }
}

/// The tile is laid out subband by subband: three first-level subbands of
/// 1024 coefficients (HL1, LH1, HH1), three second-level subbands of 256
/// (HL2, LH2, HH2), four third-level subbands of 64 (HL3, LH3, HH3, LL3);
/// positions outside the 4096 of a tile belong to no subband.
pub proof fn law_subband_layout(quant: Quant, i: int)
    ensures
        0 <= i < 1024 ==> subband_quant(quant, i) == Some(quant.hl1),
        1024 <= i < 2048 ==> subband_quant(quant, i) == Some(quant.lh1),
        2048 <= i < 3072 ==> subband_quant(quant, i) == Some(quant.hh1),
        3072 <= i < 3072 + 256 ==> subband_quant(quant, i) == Some(quant.hl2),
        3072 + 256 <= i < 3072 + 512 ==> subband_quant(quant, i) == Some(quant.lh2),
        3072 + 512 <= i < 3840 ==> subband_quant(quant, i) == Some(quant.hh2),
        3840 <= i < 3840 + 64 ==> subband_quant(quant, i) == Some(quant.hl3),
        3840 + 64 <= i < 3840 + 128 ==> subband_quant(quant, i) == Some(quant.lh3),
        3840 + 128 <= i < 3840 + 192 ==> subband_quant(quant, i) == Some(quant.hh3),
        3840 + 192 <= i < 4096 ==> subband_quant(quant, i) == Some(quant.ll3),
        (i < 0 || i >= 4096) ==> subband_quant(quant, i) is None,
{
}

/// Decoding is possible exactly when every subband that has coefficients in
/// the buffer shifts by less than 16 bits, that is has a value of at most 16.
pub proof fn law_quant_fits_exactly_when_shifts_are_short(quant: Quant, len: int)
    requires
        len >= 3840,
    ensures
        quant_fits(quant, len) <==> (forall|i: int|
            0 <= i < len ==> (#[trigger] subband_quant(quant, i) matches Some(q) ==> q <= 16)),
{
    if quant_fits(quant, len) {
        assert forall|i: int| 0 <= i < len implies (#[trigger] subband_quant(quant, i) matches Some(
            q,
        ) ==> q <= 16) by {
            law_subband_layout(quant, i);
        }
    } else {
        assert(subband_quant(quant, 0) == Some(quant.hl1));
        assert(subband_quant(quant, 1024) == Some(quant.lh1));
        assert(subband_quant(quant, 2048) == Some(quant.hh1));
        assert(subband_quant(quant, 3072) == Some(quant.hl2));
        assert(subband_quant(quant, 3328) == Some(quant.lh2));
        assert(subband_quant(quant, 3584) == Some(quant.hh2));
        assert(subband_quant(quant, 3840) == Some(quant.hl3));
        assert(subband_quant(quant, 3904) == Some(quant.lh3));
        assert(subband_quant(quant, 3968) == Some(quant.hh3));
        assert(subband_quant(quant, 4032) == Some(quant.ll3));
    }
}

} // verus!
