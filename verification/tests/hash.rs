use tlsn_hash::alg_id::HashAlgId;
use tlsn_hash::algorithm::HashAlgorithm;
use tlsn_hash::blinder::{Blinded, Blinder, M31BlinderSampler};
use tlsn_hash::commit::{plan_commitments, CommitStep, collect_decoded, decoded_to_typed, is_reused, needs_m31_blinder, select_hasher, CommitHasher, HashCommitError};
use tlsn_hash::digests::{Blake2s, Blake3, Keccak256, Sha256};
use tlsn_hash::hash::{MAX_LEN, TOO_LONG};
use tlsn_hash::m31::{add, mul, pow5, P};
use tlsn_hash::poseidon2::permutation::{apply_m4, permute};
use tlsn_hash::poseidon2::sponge::{hash_bytes, Poseidon2};
use tlsn_hash::provider::HashProvider;

fn hex(bytes: &[u8]) -> String {
    bytes.iter().map(|b| format!("{:02x}", b)).collect()
}

fn unhex(s: &str) -> Vec<u8> {
    (0..s.len()).step_by(2).map(|i| u8::from_str_radix(&s[i..i + 2], 16).unwrap()).collect()
}

fn hash_of(bytes: Vec<u8>) -> tlsn_hash::hash::Hash {
    tlsn_hash::hash::Hash::try_from(bytes).unwrap()
}

// The native half of the VM comparison: Poseidon2 of the data with the
// blinder after it, on the four inputs of that comparison.
#[test]
fn test_poseidon2_vm_matches_native() {
    let cases: [(&[u8], Vec<u8>, &str); 4] = [
        (b"", vec![0u8; 16], "90e6085240567b70049dfc1512d3037f646b9b613335df5aba8e01431bd92802"),
        (b"hello", (1u8..=16).collect(), "debc54402c479a4390db09300e162a1866742f4e66c5bf34c9ab843784cfae54"),
        (
            b"12345678",
            unhex("aabbccddeeff11223344556677889900"),
            "f1ef135a6ee08c1f820336472e33692cee965b0ce156e1176e825731e2b03755",
        ),
        (
            b"the quick brown fox jumps over",
            unhex("deadbeefcafebabe0123456789abcdef"),
            "864f71446e260d2bc36362450683f4481ba1111ccd395205c4a44e4cf6992515",
        ),
    ];
    let hasher = Poseidon2::default();
    for (data, blinder, expected) in cases.iter() {
        let native_hash = hasher.hash_prefixed(data, blinder);
        assert_eq!(hex(native_hash.as_bytes()), *expected, "data={data:?} blinder={blinder:?}");
        let mut combined = data.to_vec();
        combined.extend_from_slice(blinder);
        assert_eq!(hasher.hash(&combined).as_bytes(), native_hash.as_bytes());
    }
}

#[test]
fn poseidon2_digests() {
    assert_eq!(hex(&hash_bytes(b"")), "30cf85460a26164653c6506f557ebc42e6af5173a421f660f9938128e010af15");
    assert_eq!(hex(&hash_bytes(b"abc")), "a7df0526d9b2f32bba84490642a3e662903b12259058e21c1a3c96319b5b4e6a");
    let h = Poseidon2::default().hash(b"abc");
    assert_eq!(h.as_bytes().len(), 32);
    assert_eq!(Poseidon2::default().id().as_u8(), 5);
}

#[test]
fn poseidon2_zero_padding() {
    assert_eq!(hash_bytes(b"abc"), hash_bytes(b"abc\0"));
    assert_eq!(hash_bytes(b"abc"), hash_bytes(b"abc\0\0\0\0\0"));
    assert_eq!(hash_bytes(b""), hash_bytes(&[0u8; 8]));
    assert_ne!(hash_bytes(b"abc"), hash_bytes(b"abc\0\0\0\0\0\0"));
}

#[test]
fn m31_arithmetic() {
    assert_eq!(P, 2147483647);
    assert_eq!(add(P - 1, 1), 0);
    assert_eq!(add(P - 1, P - 1), P - 2);
    assert_eq!(add(3, 4), 7);
    assert_eq!(add(u32::MAX, 5), 4);
    assert_eq!(add(P, P), P);
    assert_eq!(mul(P - 1, P - 1), 1);
    assert_eq!(mul(u32::MAX, 2), ((u32::MAX as u64 * 2) % P as u64) as u32);
    assert_eq!(pow5(2), 32);
    assert_eq!(pow5(P - 1), P - 1);
}

#[test]
fn m4_matrix_columns() {
    assert_eq!(apply_m4([1, 0, 0, 0]), [5, 4, 1, 1]);
    assert_eq!(apply_m4([0, 1, 0, 0]), [7, 6, 3, 1]);
    assert_eq!(apply_m4([0, 0, 1, 0]), [1, 1, 5, 4]);
    assert_eq!(apply_m4([0, 0, 0, 1]), [3, 1, 7, 6]);
    assert_eq!(apply_m4([P - 1, 0, 0, 0]), [P - 5, P - 4, P - 1, P - 1]);
}

#[test]
fn permutation_output_is_reduced() {
    let out = permute([0u32; 16]);
    assert!(out.iter().all(|&x| x < P));
    assert_ne!(out, [0u32; 16]);
}

#[test]
fn sha256_digest() {
    let alg = Sha256::default();
    assert_eq!(alg.id(), HashAlgId::SHA256());
    assert_eq!(hex(alg.hash(b"abc").as_bytes()), "ba7816bf8f01cfea414140de5dae2223b00361a396177a9cb410ff61f20015ad");
    assert_eq!(alg.hash_prefixed(b"ab", b"c").as_bytes(), alg.hash(b"abc").as_bytes());
}

#[test]
fn blake2s_digest() {
    let alg = Blake2s::default();
    assert_eq!(alg.id(), HashAlgId::BLAKE2S());
    assert_eq!(hex(alg.hash(b"abc").as_bytes()), "508c5e8c327c14e2e1a72ba34eeb452f37458b209ed63a294d999b4c86675982");
    assert_eq!(hex(alg.hash_prefixed(b"hello ", b"world").as_bytes()), "9aec6806794561107e594b1f6a8a6b0c92a0cba9acf5e5e93cca06f781813b0b");
}

#[test]
fn keccak256_digest() {
    let alg = Keccak256::default();
    assert_eq!(alg.id(), HashAlgId::KECCAK256());
    assert_eq!(hex(alg.hash(b"").as_bytes()), "c5d2460186f7233c927e7db2dcc703c0e500b653ca82273b7bfad8045d85a470");
    assert_eq!(hex(alg.hash(b"abc").as_bytes()), "4e03657aea45a94fc7d47ba826c8d667c0d1e6e33a64a036ec44f58fa12d6c45");
    assert_eq!(alg.hash_prefixed(b"a", b"bc").as_bytes(), alg.hash(b"abc").as_bytes());
}

#[test]
fn blake3_digest() {
    let alg = Blake3::default();
    assert_eq!(alg.id(), HashAlgId::BLAKE3());
    assert_eq!(hex(alg.hash(b"").as_bytes()), "af1349b9f5f9a1a6a0404dea36dcc9499bcb25c9adc112b7cc9a93cae41f3262");
    assert_eq!(hex(alg.hash(b"abc").as_bytes()), "6437b3ac38465133ffb63b75273a8db548c558465d79db03fd359c6cd5bd9d85");
    assert_eq!(alg.hash_prefixed(b"", b"abc").as_bytes(), alg.hash(b"abc").as_bytes());
}

#[test]
fn alg_id_values() {
    assert_eq!(HashAlgId::SHA256().as_u8(), 1);
    assert_eq!(HashAlgId::BLAKE3().as_u8(), 2);
    assert_eq!(HashAlgId::KECCAK256().as_u8(), 3);
    assert_eq!(HashAlgId::BLAKE2S().as_u8(), 4);
    assert_eq!(HashAlgId::POSEIDON2().as_u8(), 5);
    assert_eq!(HashAlgId::new(200).as_u8(), 200);
    assert_eq!(HashAlgId::new(128).as_u8(), 128);
    assert_eq!(HashAlgId::from_u8(7).as_u8(), 7);
    assert_eq!(HashAlgId::from_u8(1), HashAlgId::SHA256());
}

#[test]
fn alg_id_display() {
    assert_eq!(HashAlgId::SHA256().to_string(), "01");
    assert_eq!(HashAlgId::new(0xab).to_string(), "ab");
    assert_eq!(HashAlgId::new(255).to_string(), "ff");
}

#[test]
fn default_provider_has_builtins() {
    let provider = HashProvider::default();
    for id in [
        HashAlgId::SHA256(),
        HashAlgId::BLAKE3(),
        HashAlgId::KECCAK256(),
        HashAlgId::BLAKE2S(),
        HashAlgId::POSEIDON2(),
    ] {
        let alg = provider.get(&id).ok().unwrap();
        assert_eq!(alg.id(), id);
    }
    let sha = provider.get(&HashAlgId::SHA256()).ok().unwrap();
    assert_eq!(hex(sha.hash(b"abc").as_bytes()), "ba7816bf8f01cfea414140de5dae2223b00361a396177a9cb410ff61f20015ad");
}

#[test]
fn provider_unknown_id() {
    let provider = HashProvider::default();
    let id = HashAlgId::new(200);
    let err = provider.get(&id).err().unwrap();
    assert_eq!(err.0, id);
    assert_eq!(err.to_string(), "unknown hash algorithm id: c8");
}

#[test]
fn provider_set_algorithm() {
    let mut provider = HashProvider::default();
    let id = HashAlgId::new(130);
    assert!(provider.get(&id).is_err());
    provider.set_algorithm(id, Box::new(Poseidon2::default()));
    let alg = provider.get(&id).ok().unwrap();
    assert_eq!(alg.id(), HashAlgId::POSEIDON2());
    // Overriding a built-in.
    provider.set_algorithm(HashAlgId::SHA256(), Box::new(Blake3::default()));
    let alg = provider.get(&HashAlgId::SHA256()).ok().unwrap();
    assert_eq!(alg.id(), HashAlgId::BLAKE3());
    assert!(provider.get(&HashAlgId::KECCAK256()).is_ok());
}

#[test]
fn provider_override_with_trait_object() {
    let mut provider = HashProvider::default();
    let blake3: Box<dyn HashAlgorithm> = Box::new(Blake3::default());
    provider.set_algorithm(HashAlgId::SHA256(), blake3);
    let alg = provider.get(&HashAlgId::SHA256()).ok().unwrap();
    assert_eq!(alg.id(), HashAlgId::BLAKE3());
    assert_eq!(
        hex(alg.hash(b"abc").as_bytes()),
        hex(Blake3::default().hash(b"abc").as_bytes())
    );
    assert_eq!(provider.get(&HashAlgId::BLAKE3()).ok().unwrap().id(), HashAlgId::BLAKE3());
    assert_eq!(provider.get(&HashAlgId::POSEIDON2()).ok().unwrap().id(), HashAlgId::POSEIDON2());
}

#[test]
fn builtin_digests_are_32_bytes() {
    let algs: [Box<dyn HashAlgorithm>; 5] = [
        Box::new(Sha256::default()),
        Box::new(Blake3::default()),
        Box::new(Keccak256::default()),
        Box::new(Blake2s::default()),
        Box::new(Poseidon2::default()),
    ];
    for alg in algs.iter() {
        for data in [&b""[..], &b"abc"[..], &[0x5au8; 200][..]] {
            let h = alg.hash(data);
            assert_eq!(h.as_bytes().len(), 32);
            let p = alg.hash_prefixed(b"prefix", data);
            assert_eq!(p.as_bytes().len(), 32);
            assert_eq!(alg.hash_prefixed(&[], data).as_bytes(), h.as_bytes());
            let mut joined = b"prefix".to_vec();
            joined.extend_from_slice(data);
            assert_eq!(alg.hash(&joined).as_bytes(), p.as_bytes());
        }
    }
}

#[test]
fn hash_try_from() {
    let h = hash_of(vec![7u8; MAX_LEN]);
    assert_eq!(h.as_bytes(), &[7u8; 64][..]);
    let err = tlsn_hash::hash::Hash::try_from(vec![0u8; MAX_LEN + 1]).err().unwrap();
    assert_eq!(err, TOO_LONG);
    assert_eq!(err, "hash value must be at most 64 bytes");
    let empty = hash_of(vec![]);
    assert_eq!(empty.as_bytes(), &[] as &[u8]);
}

#[test]
fn hash_into_vec_roundtrip() {
    let bytes = vec![1u8, 2, 3, 4, 5];
    let h = hash_of(bytes.clone());
    let back: Vec<u8> = h.into();
    assert_eq!(back, bytes);
    assert_eq!(hash_of(back), h);
}

#[test]
fn hash_default_is_empty() {
    let h = tlsn_hash::hash::Hash::default();
    assert_eq!(h.as_bytes().len(), 0);
    assert_eq!(h, hash_of(vec![]));
}

#[test]
fn hash_equality_by_bytes() {
    assert_eq!(hash_of(vec![1, 2, 3]), hash_of(vec![1, 2, 3]));
    assert_ne!(hash_of(vec![1, 2, 3]), hash_of(vec![1, 2]));
    assert_ne!(hash_of(vec![1, 2, 3]), hash_of(vec![1, 2, 4]));
    assert_ne!(hash_of(vec![0]), hash_of(vec![]));
}

#[test]
fn hash_from_byte_seq() {
    let h = tlsn_hash::hash::Hash::from_byte_seq(&[9u8; 64]).ok().unwrap();
    assert_eq!(h.as_bytes(), &[9u8; 64][..]);
    assert_eq!(tlsn_hash::hash::Hash::from_byte_seq(&[9u8; 65]).err(), Some(64));
    assert_eq!(tlsn_hash::hash::Hash::from_byte_seq(&[]).ok().unwrap(), hash_of(vec![]));
}

#[test]
fn typed_hash_fields() {
    let t = tlsn_hash::hash::TypedHash { alg: HashAlgId::SHA256(), value: hash_of(vec![1, 2]) };
    assert_eq!(t.alg.as_u8(), 1);
    assert_eq!(t.value.as_bytes(), &[1, 2]);
}

#[test]
fn blinder_bytes() {
    let b = Blinder::from_bytes([3u8; 16]);
    assert_eq!(b.as_bytes(), &[3u8; 16]);
    assert_eq!(Blinder::random().as_bytes().len(), 16);
}

#[test]
fn m31_blinder_sampler() {
    let mut s = M31BlinderSampler::new();
    assert!(s.offer(P).is_none());
    assert!(s.offer(0x0403_0201).is_none());
    assert!(s.offer(u32::MAX).is_none());
    assert!(s.offer(0x0807_0605).is_none());
    assert!(s.offer(0x0c0b_0a09).is_none());
    let b = s.offer(P - 1).unwrap();
    assert_eq!(
        b.as_bytes(),
        &[1, 2, 3, 4, 5, 6, 7, 8, 9, 10, 11, 12, 0xfe, 0xff, 0xff, 0x7f]
    );
}

#[test]
fn blinded_data() {
    let blinded = Blinded::new(vec![1u8, 2, 3]);
    assert_eq!(blinded.data(), &vec![1u8, 2, 3]);
    assert_eq!(blinded.blinder().as_bytes().len(), 16);
    let fixed = Blinded::with_blinder(5u32, Blinder::from_bytes([1u8; 16]));
    assert_eq!(*fixed.data(), 5);
    assert_eq!(fixed.blinder().as_bytes(), &[1u8; 16]);
}

#[test]
fn commit_hasher_selection() {
    assert_eq!(select_hasher(HashAlgId::SHA256()), Ok(CommitHasher::Sha256));
    assert_eq!(select_hasher(HashAlgId::BLAKE3()), Ok(CommitHasher::Blake3));
    assert_eq!(select_hasher(HashAlgId::KECCAK256()), Ok(CommitHasher::Keccak256));
    assert_eq!(select_hasher(HashAlgId::BLAKE2S()), Ok(CommitHasher::Blake2s));
    assert_eq!(select_hasher(HashAlgId::POSEIDON2()), Ok(CommitHasher::Poseidon2));
    let alg = HashAlgId::new(0x86);
    let err = select_hasher(alg).err().unwrap();
    assert_eq!(err, HashCommitError::UnsupportedAlg { alg });
    assert_eq!(err.to_string(), "unsupported hash algorithm: 86");
    assert!(is_reused(CommitHasher::Sha256));
    assert!(!is_reused(CommitHasher::Poseidon2));
}

#[test]
fn commit_blinder_kind() {
    assert!(needs_m31_blinder(HashAlgId::BLAKE2S()));
    assert!(!needs_m31_blinder(HashAlgId::SHA256()));
    assert!(!needs_m31_blinder(HashAlgId::POSEIDON2()));
}

#[test]
fn commit_decoded_conversion() {
    let alg = HashAlgId::SHA256();
    assert_eq!(decoded_to_typed(alg, None).err(), Some(HashCommitError::Decode));
    assert_eq!(
        decoded_to_typed(alg, Some(vec![0u8; 65])).err(),
        Some(HashCommitError::Convert(TOO_LONG))
    );
    let t = decoded_to_typed(alg, Some(vec![5u8; 32])).ok().unwrap();
    assert_eq!(t.alg, alg);
    assert_eq!(t.value.as_bytes(), &[5u8; 32]);
    assert_eq!(HashCommitError::Decode.to_string(), "failed to decode hash");
    assert_eq!(
        HashCommitError::Convert(TOO_LONG).to_string(),
        "failed to convert hash: hash value must be at most 64 bytes"
    );
    assert_eq!(HashCommitError::Hasher("x".to_string()).to_string(), "hasher error: x");
    assert_eq!(HashCommitError::Vm("y".to_string()).to_string(), "VM error: y");
}

#[test]
fn commit_collect_decoded() {
    let ok = collect_decoded(vec![
        (HashAlgId::SHA256(), Some(vec![1u8; 32])),
        (HashAlgId::POSEIDON2(), Some(vec![2u8; 32])),
    ])
    .ok()
    .unwrap();
    assert_eq!(ok.len(), 2);
    assert_eq!(ok[1].alg, HashAlgId::POSEIDON2());
    assert_eq!(ok[1].value.as_bytes(), &[2u8; 32]);
    let err = collect_decoded(vec![
        (HashAlgId::SHA256(), Some(vec![1u8; 32])),
        (HashAlgId::SHA256(), Some(vec![1u8; 70])),
        (HashAlgId::SHA256(), None),
    ])
    .err()
    .unwrap();
    assert_eq!(err, HashCommitError::Convert(TOO_LONG));
    assert!(collect_decoded(vec![]).ok().unwrap().is_empty());
}

#[test]
fn commit_plan_reuses_hashers() {
    let algs = vec![
        HashAlgId::SHA256(),
        HashAlgId::POSEIDON2(),
        HashAlgId::SHA256(),
        HashAlgId::POSEIDON2(),
        HashAlgId::BLAKE3(),
        HashAlgId::BLAKE3(),
    ];
    let steps = plan_commitments(&algs).ok().unwrap();
    let fresh: Vec<bool> = steps.iter().map(|s| s.fresh).collect();
    assert_eq!(fresh, vec![true, true, false, true, true, false]);
    assert_eq!(steps[4], CommitStep { hasher: CommitHasher::Blake3, fresh: true });
    let err = plan_commitments(&vec![HashAlgId::SHA256(), HashAlgId::from_u8(9), HashAlgId::new(200)])
        .err()
        .unwrap();
    assert_eq!(err, HashCommitError::UnsupportedAlg { alg: HashAlgId::from_u8(9) });
    assert!(plan_commitments(&vec![]).ok().unwrap().is_empty());
}
