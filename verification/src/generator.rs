//! The executable chain generator: a `ChunkGenerator` owns the seed,
//! the running chunk and the configured chunk width, and `next`
//! advances it by exactly one step of the chain model.

use vstd::prelude::*;

use crate::chain::{
    digest_of, expand_of, step_chunk, step_state, xor_bytes, zero_seq, StateModel,
};
use rand::rngs::StdRng;
use rand::{Rng, SeedableRng};
use rand::distributions::Alphanumeric;
use sha2::{Digest, Sha256};

verus! {

/// The chain generator. Its abstract value is a [`StateModel`]; every
/// operation's contract is stated over that model.
pub struct ChunkGenerator {
    seed: [u8; 32],
    chunk: Vec<u8>,
    chunk_size: usize,
}

impl View for ChunkGenerator {
    type V = StateModel;

    closed spec fn view(&self) -> StateModel {
        StateModel { seed: self.seed@, chunk: self.chunk@, chunk_size: self.chunk_size as nat }
    }
}

/// A vector of `n` zero bytes, the initial chunk accumulator.
pub fn zero_chunk(n: usize) -> (r: Vec<u8>)
    ensures
        r@ == zero_seq(n as nat),
{
    let mut out: Vec<u8> = Vec::new();
    let mut i: usize = 0;
    while i < n
        invariant
            i <= n,
            out@.len() == i,
            forall|j: int| 0 <= j < i ==> out@[j] == 0u8,
        decreases n - i,
    {
        out.push(0u8);
        i = i + 1;
    }
    proof {
        assert(out@ =~= zero_seq(n as nat));
    }
    out
}

impl ChunkGenerator {
    /// The state is well formed when the chunk has exactly the
    /// configured width; the seed is 32 bytes by construction.
    pub open spec fn wf(&self) -> bool {
        self@.wf()
    }

    /// A generator holding `seed` and a zeroed accumulator of
    /// `chunk_size` bytes.
    pub fn new(seed: [u8; 32], chunk_size: usize) -> (r: Self)
        ensures
            r@ == (StateModel {
                seed: seed@,
                chunk: zero_seq(chunk_size as nat),
                chunk_size: chunk_size as nat,
            }),
            r.wf(),
    {
        ChunkGenerator { seed, chunk: zero_chunk(chunk_size), chunk_size }
    }

    /// The default first-ever state for a fresh sequence: the chunk is
    /// `chunk_size` zero bytes and the seed is the digest of that
    /// all-zero chunk.
    pub fn with_default_seed(chunk_size: usize) -> (r: Self)
        ensures
            r@ == (StateModel {
                seed: digest_of(zero_seq(chunk_size as nat)),
                chunk: zero_seq(chunk_size as nat),
                chunk_size: chunk_size as nat,
            }),
            r.wf(),
    {
        let chunk = zero_chunk(chunk_size);
        let seed = Self::hash_data(chunk.as_slice());
        ChunkGenerator { seed, chunk, chunk_size }
    }

    /// Reconstructs a generator from a persisted state. Construction
    /// is rejected when the chunk does not have the stated width: a
    /// mismatched snapshot must fail fast, never be truncated or
    /// padded.
    pub fn from_parts(seed: [u8; 32], chunk: Vec<u8>, chunk_size: usize) -> (r: Option<Self>)
        ensures
            r is Some <==> chunk@.len() == chunk_size as nat,
            r matches Some(g) ==> g@ == (StateModel {
                seed: seed@,
                chunk: chunk@,
                chunk_size: chunk_size as nat,
            }) && g.wf(),
    {
        if chunk.len() == chunk_size {
            Some(ChunkGenerator { seed, chunk, chunk_size })
        } else {
            None
        }
    }

    /// The configured chunk width.
    pub fn chunk_size(&self) -> (r: usize)
        ensures
            r as nat == self@.chunk_size,
    {
        self.chunk_size
    }

    /// The seed that will key the next expansion.
    pub fn seed(&self) -> (r: [u8; 32])
        ensures
            r@ == self@.seed,
    {
        self.seed
    }

    /// The running chunk accumulator.
    pub fn chunk(&self) -> (r: &Vec<u8>)
        ensures
            r@ == self@.chunk,
    {
        &self.chunk
    }

    /// An identical, independently owned copy of the state, fit to be
    /// persisted as a checkpoint.
    pub fn snapshot(&self) -> (r: Self)
        ensures
            r@ == self@,
    {
        ChunkGenerator {
            seed: self.seed,
            chunk: copy_bytes(&self.chunk),
            chunk_size: self.chunk_size,
        }
    }

    /// Relies on rand's `StdRng::from_seed` and `Alphanumeric`
    /// sampling: a deterministic, platform-independent function of the
    /// seed alone, of which `take` keeps exactly `chunk_size` bytes.
    #[verifier::external_body]
    fn generate_string_chunk(&self, seed: [u8; 32]) -> (r: Vec<u8>)
        ensures
            r@ == expand_of(seed@, self@.chunk_size),
            r@.len() == self@.chunk_size,
    {
        let prng = StdRng::from_seed(seed);
        prng.sample_iter(Alphanumeric)
            .take(self.chunk_size)
            .map(|char| char as u8)
            .collect()
    }

    /// Relies on sha2's `Sha256`: a pure function of the input bytes,
    /// returning the 32-byte digest.
    #[verifier::external_body]
    pub(crate) fn hash_data(data: &[u8]) -> (r: [u8; 32])
        ensures
            r@ == digest_of(data@),
    {
        let mut hasher = Sha256::new();
        hasher.update(data);
        hasher.finalize().into()
    }

    /// Byte-wise XOR of two equal-length byte strings.
    pub fn xor_operation(base: &[u8], input: &[u8]) -> (r: Vec<u8>)
        requires
            base@.len() == input@.len(),
        ensures
            r@ == xor_bytes(base@, input@),
    {
        let n = base.len();
        let mut out: Vec<u8> = Vec::new();
        let mut i: usize = 0;
        while i < n
            invariant
                i <= n,
                n == base@.len(),
                base@.len() == input@.len(),
                out@.len() == i,
                forall|j: int| 0 <= j < i ==> out@[j] == (base@[j] ^ input@[j]),
            decreases n - i,
        {
            let b = base[i] ^ input[i];
            out.push(b);
            i = i + 1;
        }
        proof {
            assert(out@ =~= xor_bytes(base@, input@));
        }
        out
    }

    /// One step of the chain: expand the seed, fold the expansion into
    /// the previous chunk by XOR, digest the result, and carry the new
    /// chunk and digest forward as the next state.
    pub fn next(&mut self) -> (r: (Vec<u8>, [u8; 32]))
        requires
            old(self).wf(),
        ensures
            final(self)@ == step_state(old(self)@),
            final(self).wf(),
            r.0@ == step_chunk(old(self)@),
            r.1@ == digest_of(step_chunk(old(self)@)),
    {
        let base = self.generate_string_chunk(self.seed);
        let new_chunk = Self::xor_operation(self.chunk.as_slice(), base.as_slice());
        let hash = Self::hash_data(new_chunk.as_slice());
        self.seed = hash;
        self.chunk = copy_bytes(&new_chunk);
        (new_chunk, hash)
    }
}

/// An element-for-element copy of a byte vector.
pub(crate) fn copy_bytes(v: &Vec<u8>) -> (r: Vec<u8>)
    ensures
        r@ == v@,
{
    let n = v.len();
    let mut out: Vec<u8> = Vec::new();
    let mut i: usize = 0;
    while i < n
        invariant
            i <= n,
            n == v@.len(),
            out@.len() == i,
            forall|j: int| 0 <= j < i ==> out@[j] == v@[j],
        decreases n - i,
    {
        let b = v[i];
        out.push(b);
        i = i + 1;
    }
    proof {
        assert(out@ =~= v@);
    }
    out
}

} // verus!
