//! Deterministic, named pseudorandom streams derived from one run seed.
//!
//! Each named stream is created lazily on first use, seeded by combining the
//! run seed with a stable hash of the stream name, and cached for the life of
//! the run. All randomness flows through a named stream; there is no global
//! generator.

use vstd::prelude::*;
use vstd::string::StringSliceAdditionalSpecFns;

use rand::Rng;
use rand::SeedableRng;
use rand::rngs::StdRng;

verus! {

/// Relies on rand's `StdRng` as an opaque generator state, so that it can
/// stand in fields and signatures; nothing is assumed of its contents.
#[verifier::external_type_specification]
#[verifier::external_body]
pub struct ExStdRng(StdRng);

/// Relies on rand's `StdRng` deriving `Clone`: cloning copies the
/// generator state. Nothing is assumed of the values the copy produces.
pub assume_specification[ <StdRng as Clone>::clone ](rng: &StdRng) -> StdRng;

/// Relies on rand's `StdRng::seed_from_u64`: builds a generator from the
/// given seed. Nothing is assumed about the values it will produce.
#[verifier::external_body]
fn seed_stream(seed: u64) -> StdRng {
    StdRng::seed_from_u64(seed)
}

/// Relies on rand's `Rng::gen_range` on the half-open range `0..n`: the
/// sample lies below `n`, and the call panics only on an empty range, which
/// the precondition rules out.
#[verifier::external_body]
fn sample_below(rng: &mut StdRng, n: u64) -> (r: u64)
    requires
        n > 0,
    ensures
        r < n,
{
    rng.gen_range(0..n)
}

/// The 64-bit FNV-1a offset basis.
pub open spec fn fnv_offset_basis() -> u64 {
    0xcbf29ce484222325
}

/// The 64-bit FNV-1a prime.
pub open spec fn fnv_prime() -> u64 {
    0x100000001b3
}

/// One step of the 64-bit FNV-1a hash.
pub open spec fn fnv1a_step(h: u64, b: u8) -> u64 {
    vstd::wrapping::u64_specs::wrapping_mul(h ^ (b as u64), fnv_prime())
}

/// The 64-bit FNV-1a hash of a byte sequence.
pub open spec fn fnv1a(bytes: Seq<u8>) -> u64
    decreases bytes.len(),
{
    if bytes.len() == 0 {
        fnv_offset_basis()
    } else {
        fnv1a_step(fnv1a(bytes.drop_last()), bytes.last())
    }
}

/// Stable 64-bit hash of a stream name, so that each name maps to the same
/// stream seed on every platform and in every process.
pub fn hash_name(name: &str) -> (r: u64)
    ensures
        r == fnv1a(name.spec_bytes()),
{
    let bytes: &[u8] = name.as_bytes();
    let n: usize = bytes.len();
    let mut h: u64 = 0xcbf29ce484222325;
    let mut i: usize = 0;
    while i < n
        invariant
            i <= n,
            n == bytes@.len(),
            h == fnv1a(bytes@.take(i as int)),
        decreases n - i,
    {
        proof {
            assert(bytes@.take(i + 1).drop_last() =~= bytes@.take(i as int));
            assert(bytes@.take(i + 1).last() == bytes@[i as int]);
        }
        h = (h ^ (bytes[i] as u64)).wrapping_mul(0x100000001b3);
        i = i + 1;
    }
    proof {
        assert(bytes@.take(n as int) =~= bytes@);
    }
    h
}

/// One named stream: the stable hash of its name and its generator state.
#[derive(Debug, Clone)]
struct NamedStream {
    key: u64,
    rng: StdRng,
}

/// Manages the named generator instances of one run, all derived from the
/// single run seed.
#[derive(Debug, Clone)]
pub struct GameRngManager {
    pub seed: u64,
    streams: Vec<NamedStream>,
}

impl GameRngManager {
    /// The run seed the manager was created with.
    pub closed spec fn spec_seed(self) -> u64 {
        self.seed
    }

    /// Create a new manager with the given run seed and no streams yet.
    pub fn new(seed: u64) -> (r: GameRngManager)
        ensures
            r.spec_seed() == seed,
    {
        GameRngManager { seed, streams: Vec::new() }
    }

    /// The run seed.
    pub fn seed(&self) -> (r: u64)
        ensures
            r == self.spec_seed(),
    {
        self.seed
    }

    /// Draw one value below `n` from the named stream, creating the stream
    /// on first use. The stream is seeded with the run seed combined with
    /// the stable hash of the name, so for a fixed seed the stream depends
    /// only on its own call sequence.
    pub fn sample_stream_below(&mut self, name: &str, n: u64) -> (r: u64)
        requires
            n > 0,
        ensures
            r < n,
            final(self).spec_seed() == old(self).spec_seed(),
    {
        let key = hash_name(name);
        let seed = self.seed;
        let mut idx: usize = 0;
        let count: usize = self.streams.len();
        let mut found: bool = false;
        while idx < count && !found
            invariant
                idx <= count,
                count == self.streams@.len(),
                found ==> idx < count,
            decreases count - idx + if found { 0int } else { 1int },
        {
            if self.streams[idx].key == key {
                found = true;
            } else {
                idx = idx + 1;
            }
        }
        if !found {
            let fresh = NamedStream { key, rng: seed_stream(seed.wrapping_add(key)) };
            self.streams.push(fresh);
            idx = count;
        }
        // Take the stream out, draw from it, and put it back (at the end;
        // streams are found by key, so their order does not matter).
        let mut entry = self.streams.swap_remove(idx);
        let r = sample_below(&mut entry.rng, n);
        self.streams.push(entry);
        r
    }
}

} // verus!
