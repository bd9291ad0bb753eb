//! Deterministic pseudo-random source.
//!
//! Draws are derived from a per-session seed and a draw counter with a
//! fixed, fully specified mixing function (FNV-1a over the seed bytes and
//! the tag byte). Nothing here depends on the process, the machine or the
//! standard library's unspecified hashers, so replaying a session with the
//! same seed reproduces every draw exactly.

use vstd::prelude::*;

verus! {

/// FNV-1a 64-bit offset basis.
pub const FNV_OFFSET: u64 = 0xcbf2_9ce4_8422_2325;

/// FNV-1a 64-bit prime.
pub const FNV_PRIME: u64 = 0x100_0000_01b3;

/// One FNV-1a step: fold a byte into the running hash.
pub open spec fn fnv_step(h: u64, b: u8) -> u64 {
    (((h ^ (b as u64)) as u128 * (FNV_PRIME as u128)) % 0x1_0000_0000_0000_0000) as u64
}

/// FNV-1a over a byte sequence, starting from hash state `h`.
pub open spec fn fnv_fold(s: Seq<u8>, h: u64) -> u64
    decreases s.len(),
{
    if s.len() == 0 {
        h
    } else {
        fnv_fold(s.drop_first(), fnv_step(h, s.first()))
    }
}

/// The pseudo-random word derived from a seed and a tag byte.
pub open spec fn spec_derive_random_u64(seed: Seq<u8>, tag: u8) -> u64 {
    fnv_step(fnv_fold(seed, FNV_OFFSET), tag)
}

/// A draw in `[min, max]`: the derived word reduced into the range.
pub open spec fn spec_random_in_range(seed: Seq<u8>, tag: u8, min: u64, max: u64) -> u64
    recommends
        min <= max,
        max - min < u64::MAX,
{
    (min + spec_derive_random_u64(seed, tag) as int % (max - min + 1)) as u64
}

proof fn lemma_fnv_fold_append_one(s: Seq<u8>, h: u64, b: u8)
    ensures
        fnv_fold(s.push(b), h) == fnv_step(fnv_fold(s, h), b),
    decreases s.len(),
{
    if s.len() == 0 {
        assert(s.push(b).first() == b);
        assert(s.push(b).drop_first() =~= Seq::<u8>::empty());
        assert(fnv_fold(s.push(b), h)
            == fnv_fold(s.push(b).drop_first(), fnv_step(h, s.push(b).first())));
        assert(fnv_fold(Seq::<u8>::empty(), fnv_step(h, b)) == fnv_step(h, b));
    } else {
        assert(s.push(b).first() == s.first());
        assert(s.push(b).drop_first() =~= s.drop_first().push(b));
        assert(fnv_fold(s.push(b), h)
            == fnv_fold(s.push(b).drop_first(), fnv_step(h, s.push(b).first())));
        lemma_fnv_fold_append_one(s.drop_first(), fnv_step(h, s.first()), b);
    }
}

/// Generates a reproducible pseudo-random value from a seed and a tag.
pub fn derive_random_u64(seed: &[u8; 32], tag: u8) -> (r: u64)
    ensures
        r == spec_derive_random_u64(seed@, tag),
{
    let mut h: u64 = FNV_OFFSET;
    let mut i: usize = 0;
    while i < 32
        invariant
            i <= 32,
            h == fnv_fold(seed@.take(i as int), FNV_OFFSET),
        decreases 32 - i,
    {
        let b = seed[i];
        proof {
            assert(seed@.take(i as int).push(b) =~= seed@.take(i as int + 1));
            lemma_fnv_fold_append_one(seed@.take(i as int), FNV_OFFSET, b);
        }
        #[verifier::truncate]
        let h2 = (((h ^ (b as u64)) as u128 * (FNV_PRIME as u128)) % 0x1_0000_0000_0000_0000) as u64;
        h = h2;
        i = i + 1;
    }
    proof {
        assert(seed@.take(32) =~= seed@);
    }
    #[verifier::truncate]
    let r = (((h ^ (tag as u64)) as u128 * (FNV_PRIME as u128)) % 0x1_0000_0000_0000_0000) as u64;
    r
}

/// Generates a reproducible pseudo-random value in `[min, max]`.
pub fn random_in_range(seed: &[u8; 32], tag: u8, min: u64, max: u64) -> (r: u64)
    requires
        min <= max,
        max - min < u64::MAX,
    ensures
        r == spec_random_in_range(seed@, tag, min, max),
        min <= r <= max,
{
    let raw = derive_random_u64(seed, tag);
    let range = max - min + 1;
    min + (raw % range)
}

/// Per-session pseudo-random source: a seed fixed at initialization and a
/// counter that every draw consumes exactly once.
#[derive(Debug, Clone, Copy)]
pub struct SessionRng {
    pub seed: [u8; 32],
    pub counter: u64,
}

/// The tag byte a draw derives from the counter.
pub open spec fn spec_tag(counter: u64) -> u8 {
    (counter % 256) as u8
}

/// The source after one draw: same seed, counter advanced by one.
pub open spec fn spec_rng_next(r: SessionRng) -> SessionRng {
    SessionRng {
        counter: if r.counter == u64::MAX {
            0
        } else {
            (r.counter + 1) as u64
        },
        ..r
    }
}

/// The value the source yields next for a draw in `[min, max]`.
pub open spec fn spec_rng_draw(r: SessionRng, min: u64, max: u64) -> u64 {
    spec_random_in_range(r.seed@, spec_tag(r.counter), min, max)
}

impl SessionRng {
    /// Creates a fresh source with the counter at zero.
    pub fn new(seed: [u8; 32]) -> (r: Self)
        ensures
            r.seed == seed,
            r.counter == 0,
    {
        Self { seed, counter: 0 }
    }

    /// Draws the next value in `[min, max]` and advances the counter.
    pub fn draw(&mut self, min: u64, max: u64) -> (v: u64)
        requires
            min <= max,
            max - min < u64::MAX,
        ensures
            *final(self) == spec_rng_next(*old(self)),
            v == spec_rng_draw(*old(self), min, max),
            min <= v <= max,
    {
        let tag = (self.counter % 256) as u8;
        let v = random_in_range(&self.seed, tag, min, max);
        self.counter = self.counter.wrapping_add(1);
        v
    }
}

} // verus!
