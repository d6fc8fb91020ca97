use musiccut::fingerprint::{
    compare_fingerprints, compute_fingerprint_hash, count_ones, fingerprint_from_values, Confidence,
    CONFIDENCE_ONE,
};

#[test]
fn test_compute_hash() {
    let data = vec![1u8, 2, 3, 4, 5];
    let hash = compute_fingerprint_hash(&data);
    assert!(!hash.is_empty());
    assert_eq!(hash.len(), 64);
}

#[test]
fn test_compare_identical() {
    let fp = vec![0u8, 0, 0, 1, 0, 0, 0, 2];
    let found = compare_fingerprints(&fp, &fp);
    let similarity = found.matching_bits() as f64 / found.total_bits() as f64;
    assert!((similarity - 1.0).abs() < 0.001);
    assert_eq!(found.matching_bits(), found.total_bits());
    assert_eq!(found.total_bits(), 64);
    assert_eq!(found.confidence().scaled, CONFIDENCE_ONE);
}

#[test]
fn hash_of_known_inputs() {
    assert_eq!(
        compute_fingerprint_hash(b"abc"),
        "ba7816bf8f01cfea414140de5dae2223b00361a396177a9cb410ff61f20015ad"
    );
    assert_eq!(
        compute_fingerprint_hash(&[]),
        "e3b0c44298fc1c149afbf4c8996fb92427ae41e4649b934ca495991b7852b855"
    );
}

#[test]
fn empty_fingerprint_has_no_similarity() {
    let fp = vec![1u8, 2, 3, 4];
    let empty: Vec<u8> = Vec::new();
    for (a, b) in [(&fp, &empty), (&empty, &fp), (&empty, &empty)] {
        let similarity = compare_fingerprints(a, b);
        assert_eq!(similarity.total_bits(), 0);
        assert_eq!(similarity.matching_bits(), 0);
        assert_eq!(similarity.confidence(), Confidence::zero());
    }
}

#[test]
fn fingerprint_shorter_than_a_word_has_no_similarity() {
    let a = vec![0xffu8, 0xff, 0xff];
    let b = vec![0xffu8, 0xff, 0xff];
    let similarity = compare_fingerprints(&a, &b);
    assert_eq!(similarity.total_bits(), 0);
    assert_eq!(similarity.confidence().scaled, 0);
}

#[test]
fn similarity_counts_agreeing_bits() {
    // One word: 0x0000_00ff against 0x0000_000f differ in four bits.
    let a = vec![0xffu8, 0, 0, 0];
    let b = vec![0x0fu8, 0, 0, 0];
    let similarity = compare_fingerprints(&a, &b);
    assert_eq!(similarity.total_bits(), 32);
    assert_eq!(similarity.matching_bits(), 28);
    assert_eq!(similarity.confidence().scaled, 875_000_000_000_000_000);
}

#[test]
fn similarity_is_symmetric() {
    let a = vec![0x12u8, 0x34, 0x56, 0x78, 0x9a, 0xbc, 0xde, 0xf0, 0x55];
    let b = vec![0xffu8, 0x00, 0xaa, 0x55, 0x01, 0x02, 0x03, 0x04];
    let ab = compare_fingerprints(&a, &b);
    let ba = compare_fingerprints(&b, &a);
    assert_eq!(ab.matching_bits(), ba.matching_bits());
    assert_eq!(ab.total_bits(), ba.total_bits());
    assert_eq!(ab.confidence(), ba.confidence());
}

#[test]
fn comparison_stops_at_the_shorter_fingerprint() {
    let a = vec![1u8, 0, 0, 0, 2, 0, 0, 0, 3, 0, 0, 0];
    let b = vec![1u8, 0, 0, 0, 2, 0];
    let similarity = compare_fingerprints(&a, &b);
    assert_eq!(similarity.total_bits(), 32);
    assert_eq!(similarity.matching_bits(), 32);
}

#[test]
fn opposite_words_agree_nowhere() {
    let a = vec![0x00u8, 0x00, 0x00, 0x00];
    let b = vec![0xffu8, 0xff, 0xff, 0xff];
    let similarity = compare_fingerprints(&a, &b);
    assert_eq!(similarity.matching_bits(), 0);
    assert_eq!(similarity.total_bits(), 32);
    assert_eq!(similarity.confidence().scaled, 0);
}

#[test]
fn count_ones_counts() {
    assert_eq!(count_ones(0), 0);
    assert_eq!(count_ones(1), 1);
    assert_eq!(count_ones(0xffff_ffff), 32);
    assert_eq!(count_ones(0x8000_0001), 2);
    assert_eq!(count_ones(0x0f0f_0f0f), 16);
}

#[test]
fn values_become_little_endian_bytes() {
    let bytes = fingerprint_from_values(&[1, 0x0102_0304, -1, 0x1_0000_0005]);
    assert_eq!(
        bytes,
        vec![1, 0, 0, 0, 4, 3, 2, 1, 0xff, 0xff, 0xff, 0xff, 5, 0, 0, 0]
    );
    assert!(fingerprint_from_values(&[]).is_empty());
}

#[test]
fn confidence_from_ratio() {
    assert_eq!(Confidence::from_ratio(9, 10).scaled, 900_000_000_000_000_000);
    assert_eq!(Confidence::from_ratio(1, 3).scaled, 333_333_333_333_333_333);
    assert_eq!(Confidence::from_ratio(5, 0).scaled, 0);
    assert_eq!(Confidence::from_ratio(1, 1), Confidence::one());
    assert_eq!(Confidence::from_ratio(u64::MAX, 1).scaled, u64::MAX);
    assert!(Confidence::one().at_least(&Confidence::zero()));
    assert!(!Confidence::zero().at_least(&Confidence::one()));
    assert_eq!(Confidence::zero().max(Confidence::one()), Confidence::one());
}
