use github_manager::selection::{parse_selection, resolve_selection, select_positions, SelectionError};

#[test]
fn parse_three_numbers_against_five_items() {
    assert_eq!(select_positions("1,2,3", 5), Ok(vec![0, 1, 2]));
}

#[test]
fn parse_rejects_non_numeric_piece() {
    assert_eq!(parse_selection("1,x,3"), Err(SelectionError::InvalidFormat));
    assert_eq!(select_positions("1,x,3", 5), Err(SelectionError::InvalidFormat));
}

#[test]
fn out_of_range_number_is_dropped() {
    assert_eq!(select_positions("1,99", 3), Ok(vec![0]));
}

#[test]
fn resolved_order_follows_listing() {
    assert_eq!(parse_selection("3,1"), Ok(vec![3, 1]));
    assert_eq!(select_positions("3,1", 5), Ok(vec![0, 2]));
    assert_eq!(select_positions("1,3", 5), Ok(vec![0, 2]));
}

#[test]
fn repeated_numbers_select_once() {
    assert_eq!(select_positions("2,2,2", 3), Ok(vec![1]));
}

#[test]
fn pieces_are_trimmed() {
    assert_eq!(parse_selection("  1 ,\t2 , 3\n"), Ok(vec![1, 2, 3]));
}

#[test]
fn plus_sign_is_accepted() {
    assert_eq!(parse_selection("+2"), Ok(vec![2]));
}

#[test]
fn empty_input_is_malformed() {
    assert_eq!(parse_selection(""), Err(SelectionError::InvalidFormat));
    assert_eq!(parse_selection("   "), Err(SelectionError::InvalidFormat));
    assert_eq!(parse_selection("1,,2"), Err(SelectionError::InvalidFormat));
    assert_eq!(parse_selection("-1"), Err(SelectionError::InvalidFormat));
    assert_eq!(parse_selection("+"), Err(SelectionError::InvalidFormat));
}

#[test]
fn number_too_large_is_malformed() {
    let too_large = format!("{}0", usize::MAX);
    assert_eq!(parse_selection(&too_large), Err(SelectionError::InvalidFormat));
    let largest = format!("{}", usize::MAX);
    assert_eq!(parse_selection(&largest), Ok(vec![usize::MAX]));
}

#[test]
fn zero_names_nothing() {
    assert_eq!(select_positions("0", 3), Err(SelectionError::NothingSelected));
    assert_eq!(select_positions("4,5", 3), Err(SelectionError::NothingSelected));
}

#[test]
fn resolve_against_empty_listing() {
    assert_eq!(resolve_selection(&vec![1, 2], 0), Vec::<usize>::new());
    assert_eq!(resolve_selection(&vec![5, 1, 4], 4), vec![0, 3]);
}
