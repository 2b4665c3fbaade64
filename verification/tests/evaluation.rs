use peptide_classifier::evaluation::argmax_first;
use peptide_classifier::evaluation::count_correct;
use peptide_classifier::evaluation::one_hot_index;

#[test]
fn argmax_picks_the_largest_entry() {
    assert_eq!(argmax_first(&vec![1, 2, 3]), 2);
    assert_eq!(argmax_first(&vec![9, 2, 3]), 0);
    assert_eq!(argmax_first(&vec![1, 7, 3]), 1);
    assert_eq!(argmax_first(&vec![4]), 0);
}

#[test]
fn argmax_tie_break_picks_the_lowest_index() {
    assert_eq!(argmax_first(&vec![5, 5, 3]), 0);
    assert_eq!(argmax_first(&vec![1, 3, 3]), 1);
    assert_eq!(argmax_first(&vec![2, 2, 2]), 0);
}

#[test]
fn one_hot_index_reads_the_hot_entry() {
    assert_eq!(one_hot_index(&[1, 0, 0]), 0);
    assert_eq!(one_hot_index(&[0, 1, 0]), 1);
    assert_eq!(one_hot_index(&[0, 0, 1]), 2);
}

#[test]
fn all_zero_target_counts_as_class_zero() {
    assert_eq!(one_hot_index(&[0, 0, 0]), 0);
}

#[test]
fn count_correct_counts_matching_positions() {
    assert_eq!(count_correct(&vec![0, 1, 2], &vec![0, 1, 2]), 3);
    assert_eq!(count_correct(&vec![0, 1, 2], &vec![0, 2, 2]), 2);
    assert_eq!(count_correct(&vec![1, 1], &vec![2, 0]), 0);
    assert_eq!(count_correct(&vec![], &vec![]), 0);
}
