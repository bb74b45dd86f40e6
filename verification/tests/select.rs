use k_ia::select::{epsilon_greedy_decide, SelectError};

#[test]
fn empty_input_is_an_error() {
    let empty: Vec<u64> = vec![];
    assert_eq!(epsilon_greedy_decide(&empty, false, 0), Err(SelectError::EmptyInput));
    assert_eq!(epsilon_greedy_decide(&empty, true, 0), Err(SelectError::EmptyInput));
}

#[test]
fn exploring_returns_the_drawn_index() {
    let keys: Vec<u64> = vec![5, 1, 9];
    assert_eq!(epsilon_greedy_decide(&keys, true, 0), Ok(0));
    assert_eq!(epsilon_greedy_decide(&keys, true, 2), Ok(2));
}

#[test]
fn greedy_picks_the_maximum() {
    let keys: Vec<u64> = vec![3, 9, 4];
    assert_eq!(epsilon_greedy_decide(&keys, false, 0), Ok(1));
}

#[test]
fn greedy_resolves_ties_to_the_lowest_index() {
    let keys: Vec<u64> = vec![3, 9, 9, 1];
    assert_eq!(epsilon_greedy_decide(&keys, false, 0), Ok(1));
    let all_equal: Vec<u64> = vec![7, 7, 7];
    assert_eq!(epsilon_greedy_decide(&all_equal, false, 0), Ok(0));
}

#[test]
fn greedy_single_element_is_index_zero() {
    let keys: Vec<u64> = vec![42];
    assert_eq!(epsilon_greedy_decide(&keys, false, 0), Ok(0));
}

#[test]
fn greedy_maximum_at_either_end() {
    let front: Vec<u64> = vec![9, 3, 4];
    assert_eq!(epsilon_greedy_decide(&front, false, 0), Ok(0));
    let back: Vec<u64> = vec![3, 4, 9];
    assert_eq!(epsilon_greedy_decide(&back, false, 0), Ok(2));
}
