//! Integer side of the celestial-sphere texture: the cell hash that seeds
//! the procedural starfield, the star test, and the sector/checker cell
//! pattern. The colours themselves are floating point and live with the
//! renderer.

use vstd::prelude::*;
use vstd::arithmetic::div_mod::{lemma_mul_mod_noop_left, lemma_mul_mod_noop_right};
use vstd::arithmetic::mul::lemma_mul_is_associative;

verus! {

/// 2^64, the modulus of wrapping `u64` arithmetic.
pub open spec fn word_modulus() -> nat {
    0x1_0000_0000_0000_0000
}

/// `x * c` reduced modulo 2^64 (what `u64::wrapping_mul` computes).
pub open spec fn mul_mod64(x: u64, c: u64) -> u64 {
    ((x as nat * c as nat) % word_modulus()) as u64
}

/// `x ^ (x >> k)`: the xor-shift step of the mixer.
pub open spec fn xor_shift(x: u64, k: u64) -> u64 {
    x ^ (x >> k)
}

pub open spec fn mix_first(x: u64) -> u64 {
    xor_shift(mul_mod64(x, 0x9E3779B97F4A7C15), 30)
}

pub open spec fn mix_second(x: u64) -> u64 {
    xor_shift(mul_mod64(x, 0xBF58476D1CE4E5B9), 27)
}

pub open spec fn mix_third(x: u64) -> u64 {
    xor_shift(mul_mod64(x, 0x94D049BB133111EB), 31)
}

/// The 64-bit mixer: three rounds of "multiply by an odd constant, then
/// xor the word with itself shifted right".
pub open spec fn spec_hash1(x: u64) -> u64 {
    mix_third(mix_second(mix_first(x)))
}

/// Hash of a grid cell `(a, b)`: both coordinates are read as 64-bit
/// two's-complement words, scaled by two primes, combined with xor and
/// mixed by `spec_hash1`.
pub open spec fn spec_hash2(a: i64, b: i64) -> u64 {
    spec_hash1(mul_mod64(a as u64, 73856093) ^ mul_mod64(b as u64, 19349663))
}

/// Mixes a 64-bit word.
pub fn hash1(x: u64) -> (r: u64)
    ensures
        r == spec_hash1(x),
        ({
            let a = x.wrapping_mul(0x9E3779B97F4A7C15);
            let b = a ^ (a >> 30u64);
            let c = b.wrapping_mul(0xBF58476D1CE4E5B9);
            let d = c ^ (c >> 27u64);
            let e = d.wrapping_mul(0x94D049BB133111EB);
            r == e ^ (e >> 31u64)
        }),
{
    let mut x = x.wrapping_mul(0x9E3779B97F4A7C15);
    x ^= x >> 30;
    x = x.wrapping_mul(0xBF58476D1CE4E5B9);
    x ^= x >> 27;
    x = x.wrapping_mul(0x94D049BB133111EB);
    x ^= x >> 31;
    x
}

/// Hashes the grid cell `(a, b)`.
pub fn hash2(a: i64, b: i64) -> (r: u64)
    ensures
        r == spec_hash2(a, b),
        r == spec_hash1((a as u64).wrapping_mul(73856093) ^ (b as u64).wrapping_mul(19349663)),
{
    hash1((a as u64).wrapping_mul(73856093) ^ (b as u64).wrapping_mul(19349663))
}

// ----------------------------------------------------------------------
// The mixer is a bijection of u64.
// ----------------------------------------------------------------------

/// Multiplying by `c` and then by `ci` modulo 2^64 gives back `x` when
/// `c * ci` is 1 modulo 2^64.
proof fn lemma_mul_mod64_cancel(x: u64, c: u64, ci: u64)
    requires
        (c as nat * ci as nat) % word_modulus() == 1,
    ensures
        mul_mod64(mul_mod64(x, c), ci) == x,
{
    let m = word_modulus() as int;
    lemma_mul_mod_noop_left(x as int * c as int, ci as int, m);
    lemma_mul_is_associative(x as int, c as int, ci as int);
    lemma_mul_mod_noop_right(x as int, c as int * ci as int, m);
    assert(x as int * 1 == x as int);
    assert((x as int) % m == x as int);
}

proof fn lemma_unshift30(x: u64)
    by (bit_vector)
    ensures
        (x ^ (x >> 30u64)) ^ ((x ^ (x >> 30u64)) >> 30u64) ^ ((x ^ (x >> 30u64)) >> 60u64) == x,
{
}

proof fn lemma_unshift27(x: u64)
    by (bit_vector)
    ensures
        (x ^ (x >> 27u64)) ^ ((x ^ (x >> 27u64)) >> 27u64) ^ ((x ^ (x >> 27u64)) >> 54u64) == x,
{
}

proof fn lemma_unshift31(x: u64)
    by (bit_vector)
    ensures
        (x ^ (x >> 31u64)) ^ ((x ^ (x >> 31u64)) >> 31u64) ^ ((x ^ (x >> 31u64)) >> 62u64) == x,
{
}

/// The inverse of the mixer: the three rounds undone in reverse order.
pub open spec fn spec_unhash1(y: u64) -> u64 {
    let c = y ^ (y >> 31u64) ^ (y >> 62u64);
    let d = mul_mod64(c, 0x319642B2D24D8EC3);
    let e = d ^ (d >> 27u64) ^ (d >> 54u64);
    let f = mul_mod64(e, 0x96DE1B173F119089);
    let g = f ^ (f >> 30u64) ^ (f >> 60u64);
    mul_mod64(g, 0xF1DE83E19937733D)
}

/// `spec_unhash1` undoes `spec_hash1`.
pub proof fn lemma_unhash1_hash1(x: u64)
    ensures
        spec_unhash1(spec_hash1(x)) == x,
{
    let a = mul_mod64(x, 0x9E3779B97F4A7C15);
    let b = xor_shift(a, 30);
    let c = mul_mod64(b, 0xBF58476D1CE4E5B9);
    let d = xor_shift(c, 27);
    let e = mul_mod64(d, 0x94D049BB133111EB);
    lemma_unshift31(e);
    assert(0x94D049BB133111EBnat * 0x319642B2D24D8EC3nat % 0x1_0000_0000_0000_0000nat == 1nat)
        by (nonlinear_arith);
    lemma_mul_mod64_cancel(d, 0x94D049BB133111EB, 0x319642B2D24D8EC3);
    lemma_unshift27(c);
    assert(0xBF58476D1CE4E5B9nat * 0x96DE1B173F119089nat % 0x1_0000_0000_0000_0000nat == 1nat)
        by (nonlinear_arith);
    lemma_mul_mod64_cancel(b, 0xBF58476D1CE4E5B9, 0x96DE1B173F119089);
    lemma_unshift30(a);
    assert(0x9E3779B97F4A7C15nat * 0xF1DE83E19937733Dnat % 0x1_0000_0000_0000_0000nat == 1nat)
        by (nonlinear_arith);
    lemma_mul_mod64_cancel(x, 0x9E3779B97F4A7C15, 0xF1DE83E19937733D);
}

/// The cell mixer never maps two different words to the same hash, so
/// distinct inputs to `hash1` give distinct star seeds.
pub proof fn lemma_hash1_injective(x: u64, y: u64)
    requires
        spec_hash1(x) == spec_hash1(y),
    ensures
        x == y,
{
    lemma_unhash1_hash1(x);
    lemma_unhash1_hash1(y);
}

// ----------------------------------------------------------------------
// Starfield
// ----------------------------------------------------------------------

/// What the hash of a star cell says about the star in it: two bytes of
/// the hash, one for the brightness and one for the colour temperature.
#[derive(Debug, Clone, Copy, PartialEq, Eq, Structural)]
pub struct StarSeed {
    pub brightness: u8,
    pub temperature: u8,
}

/// A cell holds a star when the low 16 bits of its hash, read as a
/// fraction of 65535, are below 0.004; in exact terms, when
/// `250 * (h & 0xFFFF) < 65535`.
pub open spec fn star_present(h: u64) -> bool {
    250 * (h & 0xFFFFu64) < 65535
}

/// The star that a cell with hash `h` holds, if any: bits 16..24 of the
/// hash give the brightness byte, bits 24..32 the temperature byte.
pub open spec fn star_of_hash(h: u64) -> Option<StarSeed> {
    if star_present(h) {
        Some(StarSeed { brightness: ((h >> 16u64) & 0xFFu64) as u8, temperature: ((h >> 24u64) & 0xFFu64) as u8 })
    } else {
        None
    }
}

/// The star in the star-grid cell `(i, j)`, if the cell holds one.
pub fn star_in_cell(i: i64, j: i64) -> (r: Option<StarSeed>)
    ensures
        r == star_of_hash(spec_hash2(i, j)),
        r is Some <==> (spec_hash2(i, j) & 0xFFFFu64) <= 262,
        r matches Some(s) ==> s.brightness == (spec_hash2(i, j) >> 16u64) & 0xFFu64
            && s.temperature == (spec_hash2(i, j) >> 24u64) & 0xFFu64,
{
    let h = hash2(i, j);
    let low = h & 0xFFFF;
    assert(low <= 0xFFFF) by (bit_vector)
        requires
            low == h & 0xFFFFu64,
    ;
    if 250 * low < 65535 {
        let b = (h >> 16) & 0xFF;
        let t = (h >> 24) & 0xFF;
        assert(b <= 0xFF && t <= 0xFF) by (bit_vector)
            requires
                b == (h >> 16u64) & 0xFFu64,
                t == (h >> 24u64) & 0xFFu64,
        ;
        Some(StarSeed { brightness: b as u8, temperature: t as u8 })
    } else {
        None
    }
}

// ----------------------------------------------------------------------
// Sector and checker pattern
// ----------------------------------------------------------------------

/// Where a direction falls in the coloured pattern of the sky: which of
/// the six palette colours its azimuthal sector takes, whether its
/// polar band is the bright one, and whether its checker cell is the
/// bright one.
#[derive(Debug, Clone, Copy, PartialEq, Eq, Structural)]
pub struct SectorCell {
    pub palette: usize,
    pub bright_band: bool,
    pub bright_check: bool,
}

/// The cell of the pattern for the floored grid coordinates: azimuthal
/// sector `sector`, polar band `band`, and checker column and row
/// `check_phi`, `check_theta`. Indices are taken with Euclidean
/// remainders, so negative or out-of-range coordinates wrap around.
pub open spec fn spec_sector_cell(sector: int, band: int, check_phi: int, check_theta: int) -> SectorCell {
    SectorCell {
        palette: (sector % 6) as usize,
        bright_band: band % 2 == 0,
        bright_check: (check_phi + check_theta) % 2 == 0,
    }
}

/// Classifies the grid coordinates of a direction in the sky pattern.
pub fn sector_cell(sector: i64, band: i64, check_phi: i64, check_theta: i64) -> (r: SectorCell)
    requires
        i64::MIN <= check_phi + check_theta <= i64::MAX,
    ensures
        r == spec_sector_cell(sector as int, band as int, check_phi as int, check_theta as int),
        r.palette < 6,
        sector == 6 * (sector as int / 6) + r.palette,
        r.bright_band <==> band as int % 2 == 0,
        r.bright_check <==> (check_phi as int + check_theta as int) % 2 == 0,
{
    let palette = match sector.checked_rem_euclid(6) {
        Some(p) => p,
        None => 0,
    };
    let band_mod = match band.checked_rem_euclid(2) {
        Some(p) => p,
        None => 0,
    };
    let check_mod = match (check_phi + check_theta).checked_rem_euclid(2) {
        Some(p) => p,
        None => 0,
    };
    SectorCell { palette: palette as usize, bright_band: band_mod == 0, bright_check: check_mod == 0 }
}

/// The sector colours repeat every six sectors.
pub proof fn lemma_sector_palette_periodic(sector: int, band: int, check_phi: int, check_theta: int)
    ensures
        spec_sector_cell(sector + 6, band, check_phi, check_theta).palette
            == spec_sector_cell(sector, band, check_phi, check_theta).palette,
{
    vstd::arithmetic::div_mod::lemma_mod_add_multiples_vanish(sector, 6);
}

/// Neighbouring checker cells, in either direction, have opposite tones,
/// and neighbouring polar bands alternate brightness.
pub proof fn lemma_checker_alternates(sector: int, band: int, check_phi: int, check_theta: int)
    ensures
        spec_sector_cell(sector, band, check_phi + 1, check_theta).bright_check
            != spec_sector_cell(sector, band, check_phi, check_theta).bright_check,
        spec_sector_cell(sector, band, check_phi, check_theta + 1).bright_check
            != spec_sector_cell(sector, band, check_phi, check_theta).bright_check,
        spec_sector_cell(sector, band + 1, check_phi, check_theta).bright_band
            != spec_sector_cell(sector, band, check_phi, check_theta).bright_band,
{
}

/// A cell with a star carries bits 16..24 of its hash as the brightness
/// byte and bits 24..32 as the temperature byte, and a cell holds a star
/// exactly when the low 16 bits of its hash are at most 262.
pub proof fn lemma_star_bytes(h: u64)
    ensures
        star_of_hash(h) is Some <==> (h & 0xFFFFu64) <= 262,
        star_of_hash(h) matches Some(s) ==> s.brightness == (h >> 16u64) & 0xFFu64
            && s.temperature == (h >> 24u64) & 0xFFu64,
{
    let low = h & 0xFFFFu64;
    assert(low <= 0xFFFF) by (bit_vector)
        requires
            low == h & 0xFFFFu64,
    ;
    let b = (h >> 16u64) & 0xFFu64;
    let t = (h >> 24u64) & 0xFFu64;
    assert(b <= 0xFF && t <= 0xFF) by (bit_vector)
        requires
            b == (h >> 16u64) & 0xFFu64,
            t == (h >> 24u64) & 0xFFu64,
    ;
}

/// The palette colour of a sector is its Euclidean remainder modulo six:
/// the sector is the palette index plus a multiple of six, so sectors
/// 0..6 take their own index and six consecutive sectors take six
/// different colours.
pub proof fn lemma_sector_palette_is_remainder(sector: int, band: int, check_phi: int, check_theta: int)
    ensures
        spec_sector_cell(sector, band, check_phi, check_theta).palette < 6,
        sector == 6 * (sector / 6) + spec_sector_cell(sector, band, check_phi, check_theta).palette,
        0 <= sector < 6 ==> spec_sector_cell(sector, band, check_phi, check_theta).palette == sector,
{
}

/// Six consecutive sectors take six different palette colours.
pub proof fn lemma_sector_palette_distinct(s1: int, s2: int, band: int, check_phi: int, check_theta: int)
    requires
        s1 < s2 < s1 + 6,
    ensures
        spec_sector_cell(s1, band, check_phi, check_theta).palette
            != spec_sector_cell(s2, band, check_phi, check_theta).palette,
{
    lemma_sector_palette_is_remainder(s1, band, check_phi, check_theta);
    lemma_sector_palette_is_remainder(s2, band, check_phi, check_theta);
}

/// Whether a polar band is bright depends on the band alone, not on the
/// sector or the checker cell: even bands are bright, odd bands dim.
pub proof fn lemma_band_brightness_by_band(
    band: int,
    sector1: int,
    check_phi1: int,
    check_theta1: int,
    sector2: int,
    check_phi2: int,
    check_theta2: int,
)
    ensures
        spec_sector_cell(sector1, band, check_phi1, check_theta1).bright_band
            == spec_sector_cell(sector2, band, check_phi2, check_theta2).bright_band,
        spec_sector_cell(sector1, band, check_phi1, check_theta1).bright_band <==> band % 2 == 0,
{
}

/// Whether a checker cell is bright depends on the checker cell alone:
/// it is bright exactly when the sum of its column and row is even.
pub proof fn lemma_checker_by_cell(
    check_phi: int,
    check_theta: int,
    sector1: int,
    band1: int,
    sector2: int,
    band2: int,
)
    ensures
        spec_sector_cell(sector1, band1, check_phi, check_theta).bright_check
            == spec_sector_cell(sector2, band2, check_phi, check_theta).bright_check,
        spec_sector_cell(sector1, band1, check_phi, check_theta).bright_check
            <==> (check_phi + check_theta) % 2 == 0,
{
}

} // verus!
