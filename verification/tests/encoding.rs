use peptide_classifier::encode_class;
use peptide_classifier::encode_peptide_sequence;

#[test]
fn test_encode_peptide_sequence() {
    let sequence = "ACDEFGHIKLMNPQRSTVWY";
    let encoded = encode_peptide_sequence(sequence);
    assert_eq!(encoded.len(), 20);
    assert_eq!(encoded[0], 0); // A
    assert_eq!(encoded[1], 1); // C
    assert_eq!(encoded[19], 19); // Y
}

#[test]
fn full_alphabet_maps_to_all_indices() {
    let encoded = encode_peptide_sequence("ACDEFGHIKLMNPQRSTVWY");
    let expected: Vec<u8> = (0..20).collect();
    assert_eq!(encoded, expected);
}

#[test]
fn empty_sequence_is_all_sentinel() {
    let encoded = encode_peptide_sequence("");
    assert_eq!(encoded, vec![20u8; 20]);
}

#[test]
fn short_sequence_is_right_padded() {
    let encoded = encode_peptide_sequence("AC");
    assert_eq!(encoded.len(), 20);
    assert_eq!(encoded[0], 0);
    assert_eq!(encoded[1], 1);
    for i in 2..20 {
        assert_eq!(encoded[i], 20);
    }
}

#[test]
fn long_sequence_is_truncated() {
    let encoded = encode_peptide_sequence("ACDEFGHIKLMNPQRSTVWYACDEF");
    assert_eq!(encoded.len(), 20);
    let expected: Vec<u8> = (0..20).collect();
    assert_eq!(encoded, expected);
}

#[test]
fn unknown_symbols_map_to_sentinel() {
    let encoded = encode_peptide_sequence("XBZa1 *");
    assert_eq!(encoded.len(), 20);
    for i in 0..7 {
        assert_eq!(encoded[i], 20);
    }
}

#[test]
fn distinct_valid_sequences_encode_distinctly() {
    let a = encode_peptide_sequence("ACDEFGHIKLMNPQRSTVWY");
    let b = encode_peptide_sequence("CADEFGHIKLMNPQRSTVWY");
    assert_ne!(a, b);
}

#[test]
fn recognized_classes_are_one_hot() {
    assert_eq!(encode_class("mod "), [1, 0, 0]);
    assert_eq!(encode_class("exp"), [0, 1, 0]);
    assert_eq!(encode_class("very"), [0, 0, 1]);
    assert_eq!(encode_class("virtual"), [0, 1, 0]);
}

#[test]
fn class_matching_ignores_letter_case() {
    assert_eq!(encode_class("MOD "), [1, 0, 0]);
    assert_eq!(encode_class("Exp"), [0, 1, 0]);
    assert_eq!(encode_class("VeRy"), [0, 0, 1]);
    assert_eq!(encode_class("VIRTUAL"), [0, 1, 0]);
}

#[test]
fn unrecognized_classes_are_all_zero() {
    assert_eq!(encode_class(""), [0, 0, 0]);
    assert_eq!(encode_class("mod"), [0, 0, 0]);
    assert_eq!(encode_class("very "), [0, 0, 0]);
    assert_eq!(encode_class("inactive"), [0, 0, 0]);
    assert_eq!(encode_class("mod  "), [0, 0, 0]);
}
