//! The mathematical model of the chunk chain: the generator state, the
//! step rule (expand, XOR, digest), and the stream of outputs it
//! determines, together with the laws the chain obeys.

use vstd::prelude::*;

verus! {

/// What a seeded expansion of `seed` to `n` bytes returns.
///
/// The expansion is performed by an outside pseudo-random generator
/// that is a pure function of its seed, so the result is named here
/// and pinned down only where the trusted wrapper applies it.
pub uninterp spec fn expand_of(seed: Seq<u8>, n: nat) -> Seq<u8>;

/// What the 256-bit digest of `data` returns.
pub uninterp spec fn digest_of(data: Seq<u8>) -> Seq<u8>;

/// Byte-wise XOR of two sequences of equal length.
pub open spec fn xor_bytes(a: Seq<u8>, b: Seq<u8>) -> Seq<u8>
    recommends
        a.len() == b.len(),
{
    Seq::new(a.len(), |i: int| a[i] ^ b[i])
}

/// A sequence of `n` zero bytes.
pub open spec fn zero_seq(n: nat) -> Seq<u8> {
    Seq::new(n, |i: int| 0u8)
}

/// The complete information needed to continue the chain: the digest
/// that seeds the next expansion, the running chunk accumulator, and
/// the fixed chunk width.
#[verifier::ext_equal]
pub ghost struct StateModel {
    pub seed: Seq<u8>,
    pub chunk: Seq<u8>,
    pub chunk_size: nat,
}

impl StateModel {
    /// The state is well formed when the seed is a 32-byte digest and
    /// the chunk has exactly the configured width.
    pub open spec fn wf(self) -> bool {
        &&& self.seed.len() == 32
        &&& self.chunk.len() == self.chunk_size
    }
}

/// The chunk produced by one step from state `s`: the expansion of the
/// seed folded into the previous chunk by byte-wise XOR.
pub open spec fn step_chunk(s: StateModel) -> Seq<u8> {
    xor_bytes(s.chunk, expand_of(s.seed, s.chunk_size))
}

/// The state after one step: the produced chunk becomes the
/// accumulator and its digest becomes the next seed.
pub open spec fn step_state(s: StateModel) -> StateModel {
    StateModel {
        seed: digest_of(step_chunk(s)),
        chunk: step_chunk(s),
        chunk_size: s.chunk_size,
    }
}

/// The state after `n` steps from `s`.
pub open spec fn chain_state(s: StateModel, n: nat) -> StateModel
    decreases n,
{
    if n == 0 {
        s
    } else {
        step_state(chain_state(s, (n - 1) as nat))
    }
}

/// The `(chunk, hash)` pair produced at step `i` of the chain that
/// starts from `s`.
pub open spec fn output_at(s: StateModel, i: nat) -> (Seq<u8>, Seq<u8>) {
    (step_chunk(chain_state(s, i)), digest_of(step_chunk(chain_state(s, i))))
}

/// The first `n` `(chunk, hash)` pairs of the chain that starts from `s`.
pub open spec fn chain_outputs(s: StateModel, n: nat) -> Seq<(Seq<u8>, Seq<u8>)> {
    Seq::new(n, |i: int| output_at(s, i as nat))
}

/// Stepping `n + m` times is stepping `n` times and then `m` more.
pub proof fn lemma_chain_state_add(s: StateModel, n: nat, m: nat)
    ensures
        chain_state(chain_state(s, n), m) == chain_state(s, n + m),
    decreases m,
{
    if m > 0 {
        lemma_chain_state_add(s, n, (m - 1) as nat);
    }
}

/// Determinism: the chain's outputs are a function of the initial
/// state alone, so two runs from equal states agree step for step.
pub proof fn lemma_determinism(s1: StateModel, s2: StateModel, n: nat)
    requires
        s1 == s2,
    ensures
        chain_outputs(s1, n) == chain_outputs(s2, n),
{
}

/// Resumability: the first `m` outputs are the first `n` outputs
/// followed by the first `m - n` outputs of the chain resumed from the
/// state reached after step `n`.
pub proof fn lemma_resumability(s: StateModel, n: nat, m: nat)
    requires
        n <= m,
    ensures
        chain_outputs(s, m) == chain_outputs(s, n) + chain_outputs(
            chain_state(s, n),
            (m - n) as nat,
        ),
{
    let rhs = chain_outputs(s, n) + chain_outputs(chain_state(s, n), (m - n) as nat);
    assert forall|i: int| 0 <= i < m implies chain_outputs(s, m)[i] == rhs[i] by {
        if i >= n {
            lemma_chain_state_add(s, n, (i - n) as nat);
        }
    }
    assert(chain_outputs(s, m) =~= rhs);
}

/// Truncation: the first `k` outputs of a longer run are exactly the
/// outputs of a run of length `k`.
pub proof fn lemma_prefix(s: StateModel, n: nat, k: nat)
    requires
        k <= n,
    ensures
        chain_outputs(s, n).subrange(0, k as int) == chain_outputs(s, k),
{
    assert(chain_outputs(s, n).subrange(0, k as int) =~= chain_outputs(s, k));
}

/// Integrity of the stream: each step's hash is the digest of its
/// chunk, and each chunk past the first folds the previous chunk with
/// the expansion of the seed that the previous step produced.
pub proof fn lemma_integrity(s: StateModel, n: nat, i: nat)
    requires
        i < n,
    ensures
        chain_outputs(s, n)[i as int].1 == digest_of(chain_outputs(s, n)[i as int].0),
        i > 0 ==> chain_outputs(s, n)[i as int].0 == xor_bytes(
            chain_outputs(s, n)[i as int - 1].0,
            expand_of(chain_outputs(s, n)[i as int - 1].1, s.chunk_size),
        ),
{
    if i > 0 {
        lemma_chain_chunk_size(s, i);
    }
}

/// The chunk width is fixed for the lifetime of the chain.
pub proof fn lemma_chain_chunk_size(s: StateModel, n: nat)
    ensures
        chain_state(s, n).chunk_size == s.chunk_size,
    decreases n,
{
    if n > 0 {
        lemma_chain_chunk_size(s, (n - 1) as nat);
    }
}

/// Fixed width: from a well-formed state every produced chunk has
/// exactly `chunk_size` bytes.
pub proof fn lemma_chain_chunk_len(s: StateModel, n: nat, i: nat)
    requires
        s.wf(),
        i < n,
    ensures
        chain_outputs(s, n)[i as int].0.len() == s.chunk_size,
    decreases i,
{
    lemma_chain_chunk_size(s, i);
    if i > 0 {
        lemma_chain_chunk_len(s, n, (i - 1) as nat);
    }
}

} // verus!
