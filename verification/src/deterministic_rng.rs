//! Deterministic seeding of random number generators, so that the same
//! element (or the same block position) always draws the same values.
//!
//! A seed is built from a 64-bit state by four rounds of a SplitMix64-style
//! avalanche function, whose outputs are laid out little-endian in 32 bytes
//! and handed to xoshiro256++ (`rand_xoshiro`).

use vstd::prelude::*;
use rand::Rng;
use rand_core::{RngCore, SeedableRng};
use rand_xoshiro::Xoshiro256PlusPlus;

verus! {

pub const GOLDEN_RATIO_64: u64 = 0x9E3779B97F4A7C15;
pub const MIX_CONST_1: u64 = 0xBF58476D1CE4E5B9;
pub const MIX_CONST_2: u64 = 0x94D049BB133111EB;

#[verifier::external_type_specification]
#[verifier::external_body]
pub struct ExXoshiro256PlusPlus(Xoshiro256PlusPlus);

/// The generator that `Xoshiro256PlusPlus::from_seed` builds from a seed.
pub uninterp spec fn xoshiro_seeded(seed: Seq<u8>) -> Xoshiro256PlusPlus;

/// The value that `next_u64` returns in a given generator state.
pub uninterp spec fn xoshiro_output(state: Xoshiro256PlusPlus) -> u64;

/// The generator state after one `next_u64`.
pub uninterp spec fn xoshiro_advanced(state: Xoshiro256PlusPlus) -> Xoshiro256PlusPlus;

/// `Xoshiro256PlusPlus::from_seed`: the generator is a function of the seed
/// alone, named `xoshiro_seeded`.
#[verifier::external_body]
fn xoshiro_from_seed(seed: [u8; 32]) -> (r: Xoshiro256PlusPlus)
    ensures
        r == xoshiro_seeded(seed@),
{
    Xoshiro256PlusPlus::from_seed(seed)
}

/// `RngCore::next_u64` of xoshiro256++: the value and the next state are
/// functions of the current state, named `xoshiro_output` and
/// `xoshiro_advanced`.
#[verifier::external_body]
fn xoshiro_next_u64(rng: &mut Xoshiro256PlusPlus) -> (r: u64)
    ensures
        r == xoshiro_output(*old(rng)),
        *final(rng) == xoshiro_advanced(*old(rng)),
{
    rng.next_u64()
}

/// `RngCore::next_u32` of xoshiro256++, which the crate's source computes as
/// the upper half of `next_u64`.
#[verifier::external_body]
fn xoshiro_next_u32(rng: &mut Xoshiro256PlusPlus) -> (r: u32)
    ensures
        r == (xoshiro_output(*old(rng)) >> 32u64) as u32,
        *final(rng) == xoshiro_advanced(*old(rng)),
{
    rng.next_u32()
}

/// A deterministic generator handed to the element processors.
pub struct PincelRng(pub Xoshiro256PlusPlus);

impl PincelRng {
    /// The next 64 random bits.
    pub fn next_u64(&mut self) -> (r: u64)
        ensures
            r == xoshiro_output(old(self).0),
            final(self).0 == xoshiro_advanced(old(self).0),
    {
        xoshiro_next_u64(&mut self.0)
    }

    /// The next 32 random bits: the upper half of the next 64.
    pub fn next_u32(&mut self) -> (r: u32)
        ensures
            r == (xoshiro_output(old(self).0) >> 32u64) as u32,
            final(self).0 == xoshiro_advanced(old(self).0),
    {
        xoshiro_next_u32(&mut self.0)
    }
}

/// The value that `Rng::random_range(lo..=hi)` draws from a generator state.
pub uninterp spec fn xoshiro_roll_inclusive(state: Xoshiro256PlusPlus, lo: i32, hi: i32) -> i32;

/// The generator state after `Rng::random_range(lo..=hi)`.
pub uninterp spec fn xoshiro_roll_state(state: Xoshiro256PlusPlus, lo: i32, hi: i32) -> Xoshiro256PlusPlus;

/// The value that `Rng::random_ratio(n, d)` draws from a generator state.
pub uninterp spec fn xoshiro_ratio(state: Xoshiro256PlusPlus, n: u32, d: u32) -> bool;

/// `Rng::random_range(lo..=hi)` on `i32`: a value in the range, which rand
/// computes from the generator state and the bounds alone (named
/// `xoshiro_roll_inclusive`), leaving the generator in a state named
/// `xoshiro_roll_state`. rand panics on an empty range, which `requires`
/// leaves out. An exclusive range `lo..hi` is sampled by rand as
/// `lo..=hi - 1`.
#[verifier::external_body]
pub(crate) fn roll_inclusive(rng: &mut PincelRng, lo: i32, hi: i32) -> (r: i32)
    requires
        lo <= hi,
    ensures
        r == xoshiro_roll_inclusive(old(rng).0, lo, hi),
        lo <= r <= hi,
        final(rng).0 == xoshiro_roll_state(old(rng).0, lo, hi),
{
    rng.0.random_range(lo..=hi)
}

/// `Rng::random_ratio(n, d)`: `true` with chance `n` in `d`. rand returns
/// `true` without drawing when `n == d`; otherwise it draws one `next_u64`
/// and compares it with a threshold that is 0 when `n == 0`. The result is
/// named `xoshiro_ratio`. rand panics when `d == 0` or `n > d`, which
/// `requires` leaves out.
#[verifier::external_body]
pub(crate) fn roll_ratio(rng: &mut PincelRng, n: u32, d: u32) -> (b: bool)
    requires
        0 < d,
        n <= d,
    ensures
        b == xoshiro_ratio(old(rng).0, n, d),
        n == d ==> b && final(rng).0 == old(rng).0,
        n == 0 ==> !b,
        n != d ==> final(rng).0 == xoshiro_advanced(old(rng).0),
{
    rng.0.random_ratio(n, d)
}

/// The value that `Rng::random_range(0..n)` draws on `usize` from a
/// generator state.
pub uninterp spec fn xoshiro_index(state: Xoshiro256PlusPlus, n: usize) -> usize;

/// The generator state after `Rng::random_range(0..n)` on `usize`.
pub uninterp spec fn xoshiro_index_state(state: Xoshiro256PlusPlus, n: usize) -> Xoshiro256PlusPlus;

/// `Rng::random_range(0..n)` on `usize`, as an index into `n` choices: a
/// value below `n` computed from the generator state and `n` alone (named
/// `xoshiro_index`), leaving the generator in a state named
/// `xoshiro_index_state`. rand panics when `n` is 0, which `requires`
/// leaves out.
#[verifier::external_body]
pub(crate) fn roll_index(rng: &mut PincelRng, n: usize) -> (r: usize)
    requires
        n > 0,
    ensures
        r == xoshiro_index(old(rng).0, n),
        r < n,
        final(rng).0 == xoshiro_index_state(old(rng).0, n),
{
    rng.0.random_range(0..n)
}

// ---------------------------------------------------------------------------
// Hashing and seeds
// ---------------------------------------------------------------------------

/// SplitMix64-style finaliser with the golden-ratio increment, so that the
/// state 0 does not map to 0.
#[verifier::opaque]
pub open spec fn spec_avalanche(x: u64) -> u64 {
    let a = vstd::wrapping::u64_specs::wrapping_add(x, GOLDEN_RATIO_64);
    let b = vstd::wrapping::u64_specs::wrapping_mul(a ^ (a >> 30u64), MIX_CONST_1);
    let c = vstd::wrapping::u64_specs::wrapping_mul(b ^ (b >> 27u64), MIX_CONST_2);
    c ^ (c >> 31u64)
}

/// Rotation of a 64-bit word to the left by `n` bits, `0 < n < 64`.
pub open spec fn spec_rotl(v: u64, n: u64) -> u64 {
    (v << n) | (v >> (64 - n) as u64)
}

/// Byte `i` (little-endian) of a word.
pub open spec fn le_byte(h: u64, i: int) -> u8 {
    ((h >> (8 * i) as u64) & 0xffu64) as u8
}

/// Four words laid out little-endian, one after the other.
pub open spec fn spec_seed_bytes(h1: u64, h2: u64, h3: u64, h4: u64) -> Seq<u8> {
    Seq::new(
        32,
        |i: int|
            le_byte(
                if i < 8 {
                    h1
                } else if i < 16 {
                    h2
                } else if i < 24 {
                    h3
                } else {
                    h4
                },
                i % 8,
            ),
    )
}

/// The seed derived from a 64-bit state by four avalanche rounds.
pub open spec fn spec_state_seed(state: u64) -> Seq<u8> {
    let h1 = spec_avalanche(state);
    let h2 = spec_avalanche(h1);
    let h3 = spec_avalanche(h2);
    let h4 = spec_avalanche(h3);
    spec_seed_bytes(h1, h2, h3, h4)
}

/// The state of an element with a salt.
pub open spec fn spec_salted_state(element_id: u64, salt: u64) -> u64 {
    element_id ^ spec_rotl(salt, 32)
}

/// The state of a block position of an element.
pub open spec fn spec_coord_state(x: i32, y: i32, z: i32, element_id: u64) -> u64 {
    let ux = x as u32 as u64;
    let uy = y as u32 as u64;
    let uz = z as u32 as u64;
    (ux ^ spec_rotl(uy, 21) ^ spec_rotl(uz, 42)) ^ element_id
}

fn avalanche_hash(x: u64) -> (r: u64)
    ensures
        r == spec_avalanche(x),
{
    reveal(spec_avalanche);
    let mut x = x.wrapping_add(GOLDEN_RATIO_64);
    x = (x ^ (x >> 30)).wrapping_mul(MIX_CONST_1);
    x = (x ^ (x >> 27)).wrapping_mul(MIX_CONST_2);
    x ^ (x >> 31)
}

fn rotl(v: u64, n: u64) -> (r: u64)
    requires
        0 < n < 64,
    ensures
        r == spec_rotl(v, n),
{
    (v << n) | (v >> (64 - n))
}

/// Lays four words out little-endian in a 32-byte seed.
fn build_256bit_seed(h1: u64, h2: u64, h3: u64, h4: u64) -> (seed: [u8; 32])
    ensures
        seed@ == spec_seed_bytes(h1, h2, h3, h4),
{
    let mut seed: [u8; 32] = vstd::array::array_fill_for_copy_types(0u8);
    let words: [u64; 4] = [h1, h2, h3, h4];
    let mut i: usize = 0;
    while i < 32
        invariant
            0 <= i <= 32,
            seed@.len() == 32,
            words@ == seq![h1, h2, h3, h4],
            forall|k: int| 0 <= k < i ==> seed@[k] == spec_seed_bytes(h1, h2, h3, h4)[k],
        decreases 32 - i,
    {
        let w = words[i / 8];
        let shift: u64 = (8 * (i % 8)) as u64;
        let b: u8 = ((w >> shift) & 0xff) as u8;
        seed[i] = b;
        i = i + 1;
    }
    assert(seed@ =~= spec_seed_bytes(h1, h2, h3, h4));
    seed
}

fn seeded_rng(state: u64) -> (r: PincelRng)
    ensures
        r.0 == xoshiro_seeded(spec_state_seed(state)),
{
    let h1 = avalanche_hash(state);
    let h2 = avalanche_hash(h1);
    let h3 = avalanche_hash(h2);
    let h4 = avalanche_hash(h3);
    PincelRng(xoshiro_from_seed(build_256bit_seed(h1, h2, h3, h4)))
}

/// A generator seeded from an element id.
pub fn element_rng(element_id: u64) -> (r: PincelRng)
    ensures
        r.0 == xoshiro_seeded(spec_state_seed(element_id)),
{
    seeded_rng(element_id)
}

/// A generator seeded from an element id mixed with a salt (the salt's
/// halves swapped, then xor-ed into the id).
pub fn element_rng_salted(element_id: u64, salt: u64) -> (r: PincelRng)
    ensures
        r.0 == xoshiro_seeded(spec_state_seed(spec_salted_state(element_id, salt))),
{
    let initial_state = element_id ^ rotl(salt, 32);
    seeded_rng(initial_state)
}

/// A generator seeded from a block position and an element id; the three
/// coordinates are rotated by different amounts before they are mixed, so
/// that swapping axes changes the seed.
pub fn coord_rng(x: i32, y: i32, z: i32, element_id: u64) -> (r: PincelRng)
    ensures
        r.0 == xoshiro_seeded(spec_state_seed(spec_coord_state(x, y, z, element_id))),
{
    let ux = x as u32 as u64;
    let uy = y as u32 as u64;
    let uz = z as u32 as u64;
    let spatial_mix = ux ^ rotl(uy, 21) ^ rotl(uz, 42);
    seeded_rng(spatial_mix ^ element_id)
}

// ---------------------------------------------------------------------------
// Laws
// ---------------------------------------------------------------------------

proof fn lemma_xorshift_injective(x: u64, y: u64, k: u64)
    requires
        k == 30 || k == 27 || k == 31,
        x ^ (x >> k) == y ^ (y >> k),
    ensures
        x == y,
{
    assert(x == y) by (bit_vector)
        requires
            k == 30u64 || k == 27u64 || k == 31u64,
            x ^ (x >> k) == y ^ (y >> k),
    ;
}

proof fn lemma_mul_inverse(x: u64, c: u64, cinv: u64, q: int)
    requires
        (c as int) * (cinv as int) == 1 + q * 0x1_0000_0000_0000_0000,
        q >= 0,
    ensures
        vstd::wrapping::u64_specs::wrapping_mul(
            vstd::wrapping::u64_specs::wrapping_mul(x, c),
            cinv,
        ) == x,
{
    let m: int = 0x1_0000_0000_0000_0000;
    let p: int = (x as int) * (c as int);
    assert(p >= 0) by (nonlinear_arith)
        requires
            p == (x as int) * (c as int),
            x >= 0,
            c >= 0,
    ;
    let w: int = p % m;
    assert(0 <= w < m);
    assert(vstd::wrapping::u64_specs::wrapping_mul(x, c) == w as u64);
    vstd::arithmetic::div_mod::lemma_mul_mod_noop_left(p, cinv as int, m);
    assert(p * (cinv as int) == (x as int) + m * ((x as int) * q)) by (nonlinear_arith)
        requires
            p == (x as int) * (c as int),
            (c as int) * (cinv as int) == 1 + q * m,
    ;
    vstd::arithmetic::div_mod::lemma_mod_multiples_vanish((x as int) * q, x as int, m);
    vstd::arithmetic::div_mod::lemma_small_mod(x as nat, m as nat);
    assert((w * (cinv as int)) % m == x);
}

/// Distinct inputs give distinct avalanche outputs: the function is a
/// bijection of the 64-bit words.
pub proof fn lemma_avalanche_injective(x: u64, y: u64)
    requires
        spec_avalanche(x) == spec_avalanche(y),
    ensures
        x == y,
{
    reveal(spec_avalanche);
    let ax = vstd::wrapping::u64_specs::wrapping_add(x, GOLDEN_RATIO_64);
    let ay = vstd::wrapping::u64_specs::wrapping_add(y, GOLDEN_RATIO_64);
    let bx = vstd::wrapping::u64_specs::wrapping_mul(ax ^ (ax >> 30u64), MIX_CONST_1);
    let by = vstd::wrapping::u64_specs::wrapping_mul(ay ^ (ay >> 30u64), MIX_CONST_1);
    let cx = vstd::wrapping::u64_specs::wrapping_mul(bx ^ (bx >> 27u64), MIX_CONST_2);
    let cy = vstd::wrapping::u64_specs::wrapping_mul(by ^ (by >> 27u64), MIX_CONST_2);
    lemma_xorshift_injective(cx, cy, 31);
    lemma_mul_inverse(bx ^ (bx >> 27u64), MIX_CONST_2, 0x319642b2d24d8ec3, 2077064247507883091);
    lemma_mul_inverse(by ^ (by >> 27u64), MIX_CONST_2, 0x319642b2d24d8ec3, 2077064247507883091);
    lemma_xorshift_injective(bx, by, 27);
    lemma_mul_inverse(ax ^ (ax >> 30u64), MIX_CONST_1, 0x96de1b173f119089, 8125545580553827436);
    lemma_mul_inverse(ay ^ (ay >> 30u64), MIX_CONST_1, 0x96de1b173f119089, 8125545580553827436);
    lemma_xorshift_injective(ax, ay, 30);
}

proof fn lemma_le_bytes_injective(a: u64, b: u64)
    requires
        forall|i: int| 0 <= i < 8 ==> le_byte(a, i) == le_byte(b, i),
    ensures
        a == b,
{
    assert(le_byte(a, 0) == le_byte(b, 0));
    assert(le_byte(a, 1) == le_byte(b, 1));
    assert(le_byte(a, 2) == le_byte(b, 2));
    assert(le_byte(a, 3) == le_byte(b, 3));
    assert(le_byte(a, 4) == le_byte(b, 4));
    assert(le_byte(a, 5) == le_byte(b, 5));
    assert(le_byte(a, 6) == le_byte(b, 6));
    assert(le_byte(a, 7) == le_byte(b, 7));
    assert(a == b) by (bit_vector)
        requires
            ((a >> 0u64) & 0xffu64) as u8 == ((b >> 0u64) & 0xffu64) as u8,
            ((a >> 8u64) & 0xffu64) as u8 == ((b >> 8u64) & 0xffu64) as u8,
            ((a >> 16u64) & 0xffu64) as u8 == ((b >> 16u64) & 0xffu64) as u8,
            ((a >> 24u64) & 0xffu64) as u8 == ((b >> 24u64) & 0xffu64) as u8,
            ((a >> 32u64) & 0xffu64) as u8 == ((b >> 32u64) & 0xffu64) as u8,
            ((a >> 40u64) & 0xffu64) as u8 == ((b >> 40u64) & 0xffu64) as u8,
            ((a >> 48u64) & 0xffu64) as u8 == ((b >> 48u64) & 0xffu64) as u8,
            ((a >> 56u64) & 0xffu64) as u8 == ((b >> 56u64) & 0xffu64) as u8,
    ;
}

/// Distinct states give distinct seeds; in particular distinct element ids
/// seed `element_rng` differently.
pub proof fn lemma_distinct_states_distinct_seeds(s1: u64, s2: u64)
    requires
        s1 != s2,
    ensures
        spec_state_seed(s1) != spec_state_seed(s2),
{
    if spec_state_seed(s1) == spec_state_seed(s2) {
        let h1 = spec_avalanche(s1);
        let h2 = spec_avalanche(s2);
        assert forall|i: int| 0 <= i < 8 implies le_byte(h1, i) == le_byte(h2, i) by {
            assert(spec_state_seed(s1)[i] == spec_state_seed(s2)[i]);
        }
        lemma_le_bytes_injective(h1, h2);
        lemma_avalanche_injective(s1, s2);
    }
}

/// A non-zero salt changes the seed of an element.
pub proof fn lemma_salt_changes_seed(element_id: u64, salt: u64)
    requires
        salt != 0,
    ensures
        spec_state_seed(spec_salted_state(element_id, salt)) != spec_state_seed(element_id),
{
    assert(spec_rotl(salt, 32) != 0) by (bit_vector)
        requires
            salt != 0u64,
    ;
    assert(element_id ^ spec_rotl(salt, 32) != element_id) by (bit_vector)
        requires
            spec_rotl(salt, 32) != 0u64,
    ;
    lemma_distinct_states_distinct_seeds(spec_salted_state(element_id, salt), element_id);
}


/// Swapping the `x` and `z` of a block position changes its seed unless
/// they are equal: the axes are rotated by different amounts before mixing.
pub proof fn lemma_coord_axes_not_interchangeable(x: i32, y: i32, z: i32, element_id: u64)
    requires
        x != z,
    ensures
        spec_state_seed(spec_coord_state(x, y, z, element_id)) != spec_state_seed(
            spec_coord_state(z, y, x, element_id),
        ),
{
    let ux = x as u32 as u64;
    let uy = y as u32 as u64;
    let uz = z as u32 as u64;
    assert(ux != uz) by (bit_vector)
        requires
            x != z,
            ux == x as u32 as u64,
            uz == z as u32 as u64,
    ;
    assert(ux < 0x1_0000_0000 && uz < 0x1_0000_0000);
    assert((ux ^ spec_rotl(uz, 42)) != (uz ^ spec_rotl(ux, 42))) by (bit_vector)
        requires
            ux < 0x1_0000_0000u64,
            uz < 0x1_0000_0000u64,
            ux != uz,
    ;
    let r = spec_rotl(uy, 21);
    let a = ux ^ spec_rotl(uz, 42);
    let b = uz ^ spec_rotl(ux, 42);
    assert((ux ^ r ^ spec_rotl(uz, 42)) ^ element_id != (uz ^ r ^ spec_rotl(ux, 42)) ^ element_id)
        by (bit_vector)
        requires
            (ux ^ spec_rotl(uz, 42)) != (uz ^ spec_rotl(ux, 42)),
    ;
    lemma_distinct_states_distinct_seeds(
        spec_coord_state(x, y, z, element_id),
        spec_coord_state(z, y, x, element_id),
    );
}

/// Positions that differ in one coordinate get different seeds.
pub proof fn lemma_coord_positions_differ(x1: i32, x2: i32, y: i32, z: i32, element_id: u64)
    requires
        x1 != x2,
    ensures
        spec_state_seed(spec_coord_state(x1, y, z, element_id)) != spec_state_seed(
            spec_coord_state(x2, y, z, element_id),
        ),
        spec_state_seed(spec_coord_state(y, x1, z, element_id)) != spec_state_seed(
            spec_coord_state(y, x2, z, element_id),
        ),
        spec_state_seed(spec_coord_state(y, z, x1, element_id)) != spec_state_seed(
            spec_coord_state(y, z, x2, element_id),
        ),
{
    let u1 = x1 as u32 as u64;
    let u2 = x2 as u32 as u64;
    assert(u1 != u2) by (bit_vector)
        requires
            x1 != x2,
            u1 == x1 as u32 as u64,
            u2 == x2 as u32 as u64,
    ;
    let uy = y as u32 as u64;
    let uz = z as u32 as u64;
    assert((u1 ^ spec_rotl(uy, 21) ^ spec_rotl(uz, 42)) ^ element_id != (u2 ^ spec_rotl(uy, 21)
        ^ spec_rotl(uz, 42)) ^ element_id) by (bit_vector)
        requires
            u1 != u2,
    ;
    assert(spec_rotl(u1, 21) != spec_rotl(u2, 21)) by (bit_vector)
        requires
            u1 != u2,
    ;
    assert((uy ^ spec_rotl(u1, 21) ^ spec_rotl(uz, 42)) ^ element_id != (uy ^ spec_rotl(u2, 21)
        ^ spec_rotl(uz, 42)) ^ element_id) by (bit_vector)
        requires
            spec_rotl(u1, 21) != spec_rotl(u2, 21),
    ;
    assert(spec_rotl(u1, 42) != spec_rotl(u2, 42)) by (bit_vector)
        requires
            u1 != u2,
    ;
    assert((uy ^ spec_rotl(uz, 21) ^ spec_rotl(u1, 42)) ^ element_id != (uy ^ spec_rotl(uz, 21)
        ^ spec_rotl(u2, 42)) ^ element_id) by (bit_vector)
        requires
            spec_rotl(u1, 42) != spec_rotl(u2, 42),
    ;
    lemma_distinct_states_distinct_seeds(
        spec_coord_state(x1, y, z, element_id),
        spec_coord_state(x2, y, z, element_id),
    );
    lemma_distinct_states_distinct_seeds(
        spec_coord_state(y, x1, z, element_id),
        spec_coord_state(y, x2, z, element_id),
    );
    lemma_distinct_states_distinct_seeds(
        spec_coord_state(y, z, x1, element_id),
        spec_coord_state(y, z, x2, element_id),
    );
}

/// The state 0 (the origin of element 0) does not collapse: its first
/// avalanche word is not zero.
pub proof fn lemma_zero_state_not_collapsed()
    ensures
        spec_avalanche(0) != 0,
{
    reveal(spec_avalanche);
    let a: u64 = vstd::wrapping::u64_specs::wrapping_add(0, GOLDEN_RATIO_64);
    assert(a == 0x9e3779b97f4a7c15u64);
    let t1: u64 = a ^ (a >> 30u64);
    assert(t1 == 0x9e3779bb07979af0u64) by (bit_vector)
        requires
            a == 0x9e3779b97f4a7c15u64,
            t1 == a ^ (a >> 30u64),
    ;
    let b: u64 = vstd::wrapping::u64_specs::wrapping_mul(t1, MIX_CONST_1);
    assert(b == 0x6f68261b57e7a770u64);
    let t2: u64 = b ^ (b >> 27u64);
    assert(t2 == 0x6f682616bae3641au64) by (bit_vector)
        requires
            b == 0x6f68261b57e7a770u64,
            t2 == b ^ (b >> 27u64),
    ;
    let c: u64 = vstd::wrapping::u64_specs::wrapping_mul(t2, MIX_CONST_2);
    assert(c == 0xe220a838bf5c9ddeu64);
    assert(c ^ (c >> 31u64) != 0) by (bit_vector)
        requires
            c == 0xe220a838bf5c9ddeu64,
    ;
}

} // verus!
