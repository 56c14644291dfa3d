use generate_db::generator::ChunkGenerator;
use generate_db::store::{run_to_target, MemStore};

use rand::distributions::Alphanumeric;
use rand::rngs::StdRng;
use rand::{Rng, SeedableRng};
use sha2::{Digest, Sha256};

/// The reference expansion: the same seeded, deterministic byte stream
/// the library relies on, computed directly from the outside crates.
fn expand_ref(seed: [u8; 32], n: usize) -> Vec<u8> {
    let prng = StdRng::from_seed(seed);
    prng.sample_iter(Alphanumeric)
        .take(n)
        .map(|c| c as u8)
        .collect()
}

/// The reference digest, computed directly from sha2.
fn digest_ref(data: &[u8]) -> [u8; 32] {
    let mut hasher = Sha256::new();
    hasher.update(data);
    hasher.finalize().into()
}

fn xor_ref(a: &[u8], b: &[u8]) -> Vec<u8> {
    a.iter().zip(b.iter()).map(|(&x, &y)| x ^ y).collect()
}

#[test]
fn determinism_two_fresh_runs() {
    let seed = digest_ref(b"fixed");
    let mut g1 = ChunkGenerator::new(seed, 16);
    let mut g2 = ChunkGenerator::new(seed, 16);
    for _ in 0..5 {
        let (c1, h1) = g1.next();
        let (c2, h2) = g2.next();
        assert_eq!(c1, c2);
        assert_eq!(h1, h2);
    }
}

#[test]
fn resumability_matches_uninterrupted_run() {
    let mut full = ChunkGenerator::with_default_seed(8);
    let mut full_outputs = Vec::new();
    for _ in 0..5 {
        full_outputs.push(full.next());
    }

    let mut first = ChunkGenerator::with_default_seed(8);
    for i in 0..2 {
        assert_eq!(first.next(), full_outputs[i]);
    }
    // checkpoint after step 1, then resume from it
    let seed = first.seed();
    let chunk = first.chunk().clone();
    let mut resumed = ChunkGenerator::from_parts(seed, chunk, 8).unwrap();
    for i in 2..5 {
        assert_eq!(resumed.next(), full_outputs[i]);
    }
}

#[test]
fn truncation_leaves_a_fresh_prefix() {
    let default = ChunkGenerator::with_default_seed(8);
    let mut long = MemStore::new();
    run_to_target(&mut long, &default, 5, false);
    assert_eq!(long.len(), 5);
    run_to_target(&mut long, &default, 3, false);
    assert_eq!(long.len(), 3);

    let mut fresh = MemStore::new();
    run_to_target(&mut fresh, &default, 3, false);
    assert_eq!(fresh.len(), 3);
    for i in 0..3 {
        let a = long.get(i);
        let b = fresh.get(i);
        assert_eq!(a.id, b.id);
        assert_eq!(a.data, b.data);
        assert_eq!(a.hash, b.hash);
        assert_eq!(a.flag, b.flag);
        assert_eq!(a.state.seed(), b.state.seed());
        assert_eq!(a.state.chunk(), b.state.chunk());
    }
}

#[test]
fn store_resume_extends_without_rewriting() {
    let default = ChunkGenerator::with_default_seed(4);
    let mut twice = MemStore::new();
    run_to_target(&mut twice, &default, 3, false);
    run_to_target(&mut twice, &default, 6, false);

    let mut once = MemStore::new();
    run_to_target(&mut once, &default, 6, false);
    assert_eq!(twice.len(), 6);
    assert_eq!(once.len(), 6);
    for i in 0..6 {
        assert_eq!(twice.get(i).data, once.get(i).data);
        assert_eq!(twice.get(i).hash, once.get(i).hash);
    }
}

#[test]
fn integrity_of_stored_rows() {
    let default = ChunkGenerator::with_default_seed(8);
    let mut st = MemStore::new();
    run_to_target(&mut st, &default, 4, false);
    let mut prev_chunk = vec![0u8; 8];
    let mut prev_seed = digest_ref(&vec![0u8; 8]);
    for i in 0..4 {
        let row = st.get(i);
        assert_eq!(row.id, i);
        assert_eq!(row.hash, hex::encode(digest_ref(&row.data)));
        let expected = xor_ref(&prev_chunk, &expand_ref(prev_seed, 8));
        assert_eq!(row.data, expected);
        prev_seed = digest_ref(&row.data);
        prev_chunk = row.data.clone();
    }
}

#[test]
fn fixed_width_of_chunks_and_digests() {
    let mut g = ChunkGenerator::with_default_seed(13);
    for _ in 0..4 {
        let (c, h) = g.next();
        assert_eq!(c.len(), 13);
        assert_eq!(h.len(), 32);
        assert_eq!(g.chunk().len(), 13);
        assert_eq!(g.seed().len(), 32);
    }
    let default = ChunkGenerator::with_default_seed(13);
    let mut st = MemStore::new();
    run_to_target(&mut st, &default, 3, false);
    for i in 0..3 {
        assert_eq!(st.get(i).data.len(), 13);
        assert_eq!(st.get(i).hash.len(), 64);
    }
}

#[test]
fn example_scenario_size_eight_default_seed() {
    let zeros = vec![0u8; 8];
    let seed0 = digest_ref(&zeros);
    let mut g = ChunkGenerator::with_default_seed(8);
    assert_eq!(g.seed(), seed0);
    assert_eq!(g.chunk().as_slice(), zeros.as_slice());

    // step 0: expansion of digest(zeros_8), XORed into zeros_8
    let (c0, h0) = g.next();
    assert_eq!(c0, xor_ref(&zeros, &expand_ref(seed0, 8)));
    assert_eq!(h0, digest_ref(&c0));

    // step 1 must use seed = digest(step 0's chunk)
    assert_eq!(g.seed(), digest_ref(&c0));
    let (c1, _h1) = g.next();
    assert_eq!(c1, xor_ref(&c0, &expand_ref(digest_ref(&c0), 8)));

    // an uninterrupted three-step run
    let mut full = ChunkGenerator::with_default_seed(8);
    let f0 = full.next();
    let f1 = full.next();
    let f2 = full.next();
    assert_eq!(f0.0, c0);
    assert_eq!(f1.0, c1);

    // resuming after step 1 and asking for three total steps
    // reproduces step 2 exactly
    let mut resumed = ChunkGenerator::from_parts(g.seed(), g.chunk().clone(), 8).unwrap();
    let r2 = resumed.next();
    assert_eq!(r2, f2);
}

#[test]
fn only_hash_blanks_data_but_keeps_digests() {
    let default = ChunkGenerator::with_default_seed(8);
    let mut hashes_only = MemStore::new();
    run_to_target(&mut hashes_only, &default, 3, true);
    let mut both = MemStore::new();
    run_to_target(&mut both, &default, 3, false);
    for i in 0..3 {
        assert!(hashes_only.get(i).data.is_empty());
        assert_eq!(hashes_only.get(i).hash, both.get(i).hash);
        assert_eq!(hashes_only.get(i).hash, hex::encode(digest_ref(&both.get(i).data)));
    }
}

#[test]
fn from_parts_rejects_mismatched_width() {
    let seed = digest_ref(b"label");
    assert!(ChunkGenerator::from_parts(seed, vec![0u8; 7], 8).is_none());
    assert!(ChunkGenerator::from_parts(seed, vec![0u8; 8], 8).is_some());
}

#[test]
fn new_starts_from_a_zeroed_accumulator() {
    let seed = digest_ref(b"anything");
    let g = ChunkGenerator::new(seed, 5);
    assert_eq!(g.chunk_size(), 5);
    assert_eq!(g.seed(), seed);
    assert_eq!(g.chunk().as_slice(), &[0u8; 5]);
}

#[test]
fn load_state_of_empty_store_returns_default() {
    let st = MemStore::new();
    let default = ChunkGenerator::with_default_seed(8);
    let (resume_index, state) = st.load_state(default.snapshot());
    assert_eq!(resume_index, 0);
    assert_eq!(state.seed(), default.seed());
    assert_eq!(state.chunk(), default.chunk());
}

#[test]
fn load_state_after_appends_resumes_past_the_last_id() {
    let default = ChunkGenerator::with_default_seed(8);
    let mut st = MemStore::new();
    run_to_target(&mut st, &default, 2, false);
    let (resume_index, state) = st.load_state(default.snapshot());
    assert_eq!(resume_index, 2);
    assert_eq!(state.seed(), st.get(1).state.seed());
    assert_eq!(state.chunk(), st.get(1).state.chunk());
}

#[test]
fn truncate_past_the_end_changes_nothing() {
    let default = ChunkGenerator::with_default_seed(8);
    let mut st = MemStore::new();
    run_to_target(&mut st, &default, 3, false);
    let before: Vec<String> = (0..3).map(|i| st.get(i).hash.clone()).collect();
    st.truncate(10);
    assert_eq!(st.len(), 3);
    for i in 0..3 {
        assert_eq!(st.get(i).hash, before[i]);
    }
}

#[test]
fn run_to_same_target_is_a_no_op() {
    let default = ChunkGenerator::with_default_seed(8);
    let mut st = MemStore::new();
    run_to_target(&mut st, &default, 3, false);
    let before: Vec<String> = (0..3).map(|i| st.get(i).hash.clone()).collect();
    run_to_target(&mut st, &default, 3, false);
    assert_eq!(st.len(), 3);
    for i in 0..3 {
        assert_eq!(st.get(i).hash, before[i]);
    }
}

#[test]
fn xor_operation_combines_byte_for_byte() {
    let out = ChunkGenerator::xor_operation(&[1u8, 2, 3], &[255u8, 0, 3]);
    assert_eq!(out, vec![254u8, 2, 0]);
}

#[test]
fn zero_chunk_is_all_zeroes() {
    assert_eq!(generate_db::generator::zero_chunk(4), vec![0u8; 4]);
    assert!(generate_db::generator::zero_chunk(0).is_empty());
}
