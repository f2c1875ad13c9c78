use corrupted_gif::mutate::{generate_candidates, mutate_at};

#[test]
fn single_byte_mutation_concrete() {
    let original = [5u8, 6, 7, 8];
    let mutated = mutate_at(&original, 2, 0xEE);
    assert_eq!(mutated, vec![5u8, 6, 0xEE, 8]);
}

#[test]
fn mutation_candidates_differ_in_exactly_one_offset() {
    let original: Vec<u8> = (0u8..64).collect();
    let picks = [(0usize, 0xFFu8), (10, 99), (63, 1)];
    let cands = generate_candidates(&original, &picks).expect("source is non-empty");
    assert_eq!(cands.len(), picks.len() + 1);
    assert_eq!(cands[0].index, None);
    assert_eq!(cands[0].bytes, original);
    for (k, &(offset, value)) in picks.iter().enumerate() {
        let cand = &cands[k + 1];
        assert_eq!(cand.index, Some(offset));
        assert_eq!(cand.bytes.len(), original.len());
        let differing: Vec<usize> =
            (0..original.len()).filter(|&j| cand.bytes[j] != original[j]).collect();
        assert_eq!(differing, vec![offset]);
        assert_eq!(cand.bytes[offset], value);
    }
}

#[test]
fn mutation_with_equal_value_leaves_buffer_unchanged() {
    let original = [9u8, 9, 9];
    let mutated = mutate_at(&original, 1, 9);
    assert_eq!(mutated, original.to_vec());
}
