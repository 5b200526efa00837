use oscamp::progress::{count_done, find_next_incomplete, first_incomplete};

#[test]
fn next_incomplete_is_the_nearest_going_forward() {
    assert_eq!(find_next_incomplete(&[false, false, false], 0), Some(1));
    assert_eq!(find_next_incomplete(&[true, true, false, false], 0), Some(2));
    assert_eq!(find_next_incomplete(&[true, false, true, false], 1), Some(3));
}

#[test]
fn next_incomplete_wraps_round_to_the_start() {
    assert_eq!(find_next_incomplete(&[false, true, true], 2), Some(0));
    assert_eq!(find_next_incomplete(&[true, false, true, true], 3), Some(1));
}

#[test]
fn next_incomplete_tries_the_current_exercise_last() {
    assert_eq!(find_next_incomplete(&[true, false, true], 1), Some(1));
    assert_eq!(find_next_incomplete(&[false], 0), Some(0));
}

#[test]
fn next_incomplete_is_none_when_all_are_done() {
    assert_eq!(find_next_incomplete(&[true, true, true], 1), None);
    assert_eq!(find_next_incomplete(&[true], 0), None);
    assert_eq!(find_next_incomplete(&[], 0), None);
}

#[test]
fn next_incomplete_takes_any_starting_point() {
    // an index beyond the last counts from where it falls after wraparound
    assert_eq!(find_next_incomplete(&[false, true, false], 5), Some(0));
    assert_eq!(find_next_incomplete(&[true, false], usize::MAX), Some(1));
}

#[test]
fn next_incomplete_agrees_with_a_plain_search() {
    let cases: [&[bool]; 5] = [
        &[true, false, true, false, true],
        &[false, false],
        &[true, true, true, false],
        &[false, true, true, true],
        &[true, true],
    ];
    for done in cases {
        for current in 0..done.len() {
            let n = done.len();
            let expected = (1..=n).map(|i| (current + i) % n).find(|&idx| !done[idx]);
            assert_eq!(find_next_incomplete(done, current), expected);
        }
    }
}

#[test]
fn done_exercises_are_counted() {
    assert_eq!(count_done(&[]), 0);
    assert_eq!(count_done(&[false, false]), 0);
    assert_eq!(count_done(&[true, false, true, true]), 3);
}

#[test]
fn first_incomplete_is_the_lowest_index_not_done() {
    assert_eq!(first_incomplete(&[true, true, false, false]), Some(2));
    assert_eq!(first_incomplete(&[false, true]), Some(0));
    assert_eq!(first_incomplete(&[true, true]), None);
    assert_eq!(first_incomplete(&[]), None);
}
