//! Integer-valued decisions of the evaluator: which class a network output
//! predicts, which class a one-hot target names, and how many predictions
//! were correct. The caller maps the network's output activations to
//! integer keys that preserve their order before asking for the argmax.

use vstd::prelude::*;

verus! {

/// The class named by a one-hot target: the lowest index holding a one,
/// or class zero when no entry is one (an all-zero target counts as
/// class zero).
pub open spec fn one_hot_class(target: Seq<u8>) -> int {
    if target[0] == 1 {
        0
    } else if target[1] == 1 {
        1
    } else if target[2] == 1 {
        2
    } else {
        0
    }
}

/// How many positions of the two sequences agree, over the first `n`.
pub open spec fn match_count(predicted: Seq<usize>, actual: Seq<usize>, n: int) -> int
    decreases n,
{
    if n <= 0 {
        0
    } else {
        match_count(predicted, actual, n - 1) + if predicted[n - 1] == actual[n - 1] {
            1int
        } else {
            0int
        }
    }
}

/// Index of the largest score; when several entries are equal and maximal,
/// the lowest index wins, since only a strictly greater score displaces the
/// running best.
pub fn argmax_first(scores: &Vec<u64>) -> (best: usize)
    requires
        scores@.len() > 0,
    ensures
        best < scores@.len(),
        forall|j: int| 0 <= j < scores@.len() ==> scores@[j] <= scores@[best as int],
        forall|j: int| 0 <= j < best ==> scores@[j] < scores@[best as int],
{
    let mut best: usize = 0;
    let mut biggest: u64 = scores[0];
    let mut j: usize = 0;
    while j < scores.len()
        invariant
            j <= scores@.len(),
            0 < scores@.len(),
            best < scores@.len(),
            biggest == scores@[best as int],
            forall|k: int| 0 <= k < j ==> scores@[k] <= biggest,
            forall|k: int| 0 <= k < best ==> scores@[k] < biggest,
        decreases scores@.len() - j,
    {
        if scores[j] > biggest {
            biggest = scores[j];
            best = j;
        }
        j += 1;
    }
    best
}

/// The class a one-hot target names: the lowest index holding a one, or
/// class zero for an all-zero target.
pub fn one_hot_index(target: &[u8; 3]) -> (idx: usize)
    ensures
        idx < 3,
        idx == one_hot_class(target@),
{
    if target[0] == 1 {
        0
    } else if target[1] == 1 {
        1
    } else if target[2] == 1 {
        2
    } else {
        0
    }
}

/// How many predictions agree with the actual classes, position by
/// position.
pub fn count_correct(predicted: &Vec<usize>, actual: &Vec<usize>) -> (correct: usize)
    requires
        predicted@.len() == actual@.len(),
    ensures
        correct == match_count(predicted@, actual@, predicted@.len() as int),
        correct <= predicted@.len(),
{
    let mut correct: usize = 0;
    let mut i: usize = 0;
    while i < predicted.len()
        invariant
            i <= predicted@.len(),
            predicted@.len() == actual@.len(),
            correct == match_count(predicted@, actual@, i as int),
            correct <= i,
        decreases predicted@.len() - i,
    {
        if predicted[i] == actual[i] {
            correct += 1;
        }
        i += 1;
    }
    correct
}

} // verus!
