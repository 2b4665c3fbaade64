//! Encoding of peptide records: amino-acid sequences become fixed-width
//! integer vectors, activity-class labels become one-hot target vectors.

use vstd::prelude::*;
use vstd::string::StrSliceExecFns;
use crate::ENCODED_LEN;
use crate::SENTINEL;

verus! {

/// A peptide record: an amino-acid sequence and its activity-class label.
#[derive(Debug, Clone)]
pub struct Peptide {
    pub sequence: String,
    pub class: String,
}

/// Alphabet index of one amino-acid symbol. The twenty standard one-letter
/// codes map to 0 through 19; every other character maps to the sentinel.
pub open spec fn symbol_index(c: char) -> u8 {
    if c == 'A' {
        0
    } else if c == 'C' {
        1
    } else if c == 'D' {
        2
    } else if c == 'E' {
        3
    } else if c == 'F' {
        4
    } else if c == 'G' {
        5
    } else if c == 'H' {
        6
    } else if c == 'I' {
        7
    } else if c == 'K' {
        8
    } else if c == 'L' {
        9
    } else if c == 'M' {
        10
    } else if c == 'N' {
        11
    } else if c == 'P' {
        12
    } else if c == 'Q' {
        13
    } else if c == 'R' {
        14
    } else if c == 'S' {
        15
    } else if c == 'T' {
        16
    } else if c == 'V' {
        17
    } else if c == 'W' {
        18
    } else if c == 'Y' {
        19
    } else {
        SENTINEL
    }
}

/// A character is in the alphabet exactly when it has a non-sentinel index.
pub open spec fn in_alphabet(c: char) -> bool {
    symbol_index(c) != SENTINEL
}

/// The encoding of a whole sequence: always `ENCODED_LEN` entries, one per
/// position, padding positions past the end of the input with the sentinel.
pub open spec fn sequence_encoding(s: Seq<char>) -> Seq<u8> {
    Seq::new(
        ENCODED_LEN as nat,
        |i: int|
            if i < s.len() {
                symbol_index(s[i])
            } else {
                SENTINEL
            },
    )
}

/// One character folded to lower case, over the basic letters A through Z;
/// every other character is left as it is. Class labels are folded before
/// they are matched, so label recognition ignores letter case.
pub open spec fn fold_char(c: char) -> char {
    if c == 'A' {
        'a'
    } else if c == 'B' {
        'b'
    } else if c == 'C' {
        'c'
    } else if c == 'D' {
        'd'
    } else if c == 'E' {
        'e'
    } else if c == 'F' {
        'f'
    } else if c == 'G' {
        'g'
    } else if c == 'H' {
        'h'
    } else if c == 'I' {
        'i'
    } else if c == 'J' {
        'j'
    } else if c == 'K' {
        'k'
    } else if c == 'L' {
        'l'
    } else if c == 'M' {
        'm'
    } else if c == 'N' {
        'n'
    } else if c == 'O' {
        'o'
    } else if c == 'P' {
        'p'
    } else if c == 'Q' {
        'q'
    } else if c == 'R' {
        'r'
    } else if c == 'S' {
        's'
    } else if c == 'T' {
        't'
    } else if c == 'U' {
        'u'
    } else if c == 'V' {
        'v'
    } else if c == 'W' {
        'w'
    } else if c == 'X' {
        'x'
    } else if c == 'Y' {
        'y'
    } else if c == 'Z' {
        'z'
    } else {
        c
    }
}

/// A whole label folded to lower case, character by character.
pub open spec fn fold_label(s: Seq<char>) -> Seq<char> {
    s.map_values(|c: char| fold_char(c))
}

fn fold_code(c: char) -> (folded: char)
    ensures
        folded == fold_char(c),
{
    match c {
        'A' => 'a',
        'B' => 'b',
        'C' => 'c',
        'D' => 'd',
        'E' => 'e',
        'F' => 'f',
        'G' => 'g',
        'H' => 'h',
        'I' => 'i',
        'J' => 'j',
        'K' => 'k',
        'L' => 'l',
        'M' => 'm',
        'N' => 'n',
        'O' => 'o',
        'P' => 'p',
        'Q' => 'q',
        'R' => 'r',
        'S' => 's',
        'T' => 't',
        'U' => 'u',
        'V' => 'v',
        'W' => 'w',
        'X' => 'x',
        'Y' => 'y',
        'Z' => 'z',
        _ => c,
    }
}

fn label_matches(class: &str, name: &str) -> (matched: bool)
    ensures
        matched == (fold_label(class@) == name@),
{
    let n = class.unicode_len();
    let m = name.unicode_len();
    if n != m {
        proof {
            assert(fold_label(class@).len() == class@.len());
        }
        return false;
    }
    let mut i: usize = 0;
    while i < n
        invariant
            i <= n,
            n == class@.len(),
            n == name@.len(),
            forall|j: int| 0 <= j < i ==> fold_char(class@[j]) == name@[j],
        decreases n - i,
    {
        let folded = fold_code(class.get_char(i));
        if folded != name.get_char(i) {
            proof {
                assert(fold_label(class@)[i as int] != name@[i as int]);
            }
            return false;
        }
        i += 1;
    }
    proof {
        assert(fold_label(class@) =~= name@);
    }
    true
}

/// The one-hot target for a label: recognition goes by the case-folded
/// label, and every unrecognized label yields the all-zero vector.
pub open spec fn class_code(label: Seq<char>) -> Seq<u8> {
    let folded = fold_label(label);
    if folded == "mod "@ {
        seq![1u8, 0u8, 0u8]
    } else if folded == "exp"@ {
        seq![0u8, 1u8, 0u8]
    } else if folded == "very"@ {
        seq![0u8, 0u8, 1u8]
    } else if folded == "virtual"@ {
        seq![0u8, 1u8, 0u8]
    } else {
        seq![0u8, 0u8, 0u8]
    }
}

/// Encode an activity-class label as a one-hot target vector. Matching
/// ignores letter case; a label that matches none of the recognized class
/// names yields the all-zero vector rather than an error.
pub fn encode_class(class: &str) -> (code: [u8; 3])
    ensures
        code@ == class_code(class@),
{
    if label_matches(class, "mod ") {
        [1, 0, 0]
    } else if label_matches(class, "exp") {
        [0, 1, 0]
    } else if label_matches(class, "very") {
        [0, 0, 1]
    } else if label_matches(class, "virtual") {
        [0, 1, 0]
    } else {
        [0, 0, 0]
    }
}

fn symbol_code(c: char) -> (code: u8)
    ensures
        code == symbol_index(c),
{
    match c {
        'A' => 0,
        'C' => 1,
        'D' => 2,
        'E' => 3,
        'F' => 4,
        'G' => 5,
        'H' => 6,
        'I' => 7,
        'K' => 8,
        'L' => 9,
        'M' => 10,
        'N' => 11,
        'P' => 12,
        'Q' => 13,
        'R' => 14,
        'S' => 15,
        'T' => 16,
        'V' => 17,
        'W' => 18,
        'Y' => 19,
        _ => SENTINEL,
    }
}

/// Encode an amino-acid sequence as a vector of exactly `ENCODED_LEN` small
/// integers: the alphabet index of each symbol, the sentinel for unknown
/// symbols, truncated or right-padded with the sentinel to the fixed width.
/// Total: no input is rejected.
pub fn encode_peptide_sequence(sequence: &str) -> (encoded: Vec<u8>)
    ensures
        encoded@.len() == ENCODED_LEN,
        encoded@ == sequence_encoding(sequence@),
{
    let n = sequence.unicode_len();
    let mut encoded: Vec<u8> = Vec::new();
    let mut i: usize = 0;
    while i < ENCODED_LEN
        invariant
            i <= ENCODED_LEN,
            n == sequence@.len(),
            encoded@.len() == i,
            forall|j: int| 0 <= j < i ==> encoded@[j] == sequence_encoding(sequence@)[j],
        decreases ENCODED_LEN - i,
    {
        let code: u8 = if i < n {
            symbol_code(sequence.get_char(i))
        } else {
            SENTINEL
        };
        encoded.push(code);
        i += 1;
    }
    proof {
        assert(encoded@ =~= sequence_encoding(sequence@));
    }
    encoded
}

/// Distinct alphabet characters have distinct indices.
pub proof fn lemma_symbol_index_injective(c1: char, c2: char)
    requires
        in_alphabet(c1),
        in_alphabet(c2),
        symbol_index(c1) == symbol_index(c2),
    ensures
        c1 == c2,
{
}

/// Sequence encoding is injective on full-width sequences drawn purely from
/// the alphabet: two such sequences with the same encoding are the same
/// sequence.
pub proof fn lemma_sequence_encoding_injective(s: Seq<char>, t: Seq<char>)
    requires
        s.len() == ENCODED_LEN,
        t.len() == ENCODED_LEN,
        forall|i: int| 0 <= i < s.len() ==> in_alphabet(#[trigger] s[i]),
        forall|i: int| 0 <= i < t.len() ==> in_alphabet(#[trigger] t[i]),
        sequence_encoding(s) == sequence_encoding(t),
    ensures
        s == t,
{
    assert forall|i: int| 0 <= i < s.len() implies s[i] == t[i] by {
        assert(sequence_encoding(s)[i] == symbol_index(s[i]));
        assert(sequence_encoding(t)[i] == symbol_index(t[i]));
        lemma_symbol_index_injective(s[i], t[i]);
    }
    assert(s =~= t);
}

/// Case folding is idempotent: folding a folded label changes nothing.
pub proof fn lemma_fold_label_idempotent(s: Seq<char>)
    ensures
        fold_label(fold_label(s)) == fold_label(s),
{
    assert forall|i: int| 0 <= i < s.len() implies fold_char(fold_char(s[i])) == fold_char(
        s[i],
    ) by {
    }
    assert(fold_label(fold_label(s)) =~= fold_label(s));
}

/// Class encoding is case-insensitive: a label and its case-folded form
/// yield the same target vector, and so do any two labels that agree up to
/// letter case.
pub proof fn lemma_class_code_case_insensitive(a: Seq<char>, b: Seq<char>)
    requires
        fold_label(a) == fold_label(b),
    ensures
        class_code(a) == class_code(b),
        class_code(a) == class_code(fold_label(a)),
{
    lemma_fold_label_idempotent(a);
}

/// Class encoding is total: every label whose folded form matches none of
/// the recognized class names yields the all-zero vector.
pub proof fn lemma_class_code_unrecognized(label: Seq<char>)
    requires
        fold_label(label) != "mod "@,
        fold_label(label) != "exp"@,
        fold_label(label) != "very"@,
        fold_label(label) != "virtual"@,
    ensures
        class_code(label) == seq![0u8, 0u8, 0u8],
{
}

} // verus!
