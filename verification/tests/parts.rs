use parallel_sum::partition::{split, split_point};
use parallel_sum::sum;
use parallel_sum::worker::{combine, join_workers, partial_sum, WorkerFault};

#[test]
fn split_point_is_half_rounded_down() {
    assert_eq!(split_point(0), 0);
    assert_eq!(split_point(1), 0);
    assert_eq!(split_point(2), 1);
    assert_eq!(split_point(5), 2);
    assert_eq!(split_point(10), 5);
    assert_eq!(split_point(usize::MAX), usize::MAX / 2);
}

#[test]
fn split_of_empty() {
    let (left, right) = split(&vec![]);
    assert!(left.is_empty());
    assert!(right.is_empty());
}

#[test]
fn split_of_one_goes_right() {
    let (left, right) = split(&vec![42]);
    assert!(left.is_empty());
    assert_eq!(right, vec![42]);
}

#[test]
fn split_of_odd_length() {
    let (left, right) = split(&vec![1, 2, 3, 4, 5]);
    assert_eq!(left, vec![1, 2]);
    assert_eq!(right, vec![3, 4, 5]);
}

#[test]
fn split_of_even_length() {
    let (left, right) = split(&vec![-1, -2, -3, -4]);
    assert_eq!(left, vec![-1, -2]);
    assert_eq!(right, vec![-3, -4]);
}

#[test]
fn split_leaves_input_untouched_and_covers_it() {
    for len in 0..65i32 {
        let values: Vec<i32> = (0..len).map(|i| i * i - 7 * i).collect();
        let (left, right) = split(&values);
        assert_eq!(left.len(), values.len() / 2);
        assert_eq!(left.len() + right.len(), values.len());
        let mut joined: Vec<i32> = left.clone();
        joined.extend(right.iter().copied());
        assert_eq!(joined, values);
        assert_eq!(
            partial_sum(&left).wrapping_add(partial_sum(&right)),
            partial_sum(&values)
        );
    }
}

#[test]
fn partial_sum_of_empty_is_zero() {
    assert_eq!(partial_sum(&vec![]), 0);
}

#[test]
fn partial_sum_adds_every_element() {
    assert_eq!(partial_sum(&vec![5]), 5);
    assert_eq!(partial_sum(&vec![3, 4, 5]), 12);
    assert_eq!(partial_sum(&vec![-10, 4, -5]), -11);
}

#[test]
fn partial_sum_wraps() {
    assert_eq!(partial_sum(&vec![i32::MAX, 2]), i32::MIN + 1);
    assert_eq!(partial_sum(&vec![i32::MAX, 2, -2]), i32::MAX);
}

#[test]
fn combine_adds() {
    assert_eq!(combine(0, 0), 0);
    assert_eq!(combine(3, 12), 15);
    assert_eq!(combine(-20, 5), -15);
}

#[test]
fn combine_wraps() {
    assert_eq!(combine(i32::MAX, 1), i32::MIN);
    assert_eq!(combine(i32::MIN, -1), i32::MAX);
    assert_eq!(combine(i32::MIN, i32::MIN), 0);
}

#[test]
fn combine_does_not_depend_on_order() {
    let pairs: Vec<(i32, i32)> = vec![(1, 2), (-7, 7), (i32::MAX, 9), (i32::MIN, -9), (0, -1)];
    for (a, b) in pairs {
        assert_eq!(combine(a, b), combine(b, a));
    }
}

#[test]
fn steps_compose_to_sum() {
    let values: Vec<i32> = vec![9, -8, 7, -6, 5, -4, 3, -2, 1];
    let (left, right) = split(&values);
    let joined: i32 = combine(partial_sum(&left), partial_sum(&right));
    assert_eq!(joined, 5);
    assert_eq!(sum(values), joined);
}

#[test]
fn join_of_two_results() {
    assert_eq!(join_workers(Some(3), Some(12)), Ok(15));
    assert_eq!(join_workers(Some(0), Some(0)), Ok(0));
    assert_eq!(join_workers(Some(-4), Some(1)), Ok(-3));
}

#[test]
fn join_wraps_like_combine() {
    assert_eq!(join_workers(Some(i32::MAX), Some(1)), Ok(i32::MIN));
}

#[test]
fn join_fails_without_left_result() {
    assert_eq!(join_workers(None, Some(12)), Err(WorkerFault));
}

#[test]
fn join_fails_without_right_result() {
    assert_eq!(join_workers(Some(3), None), Err(WorkerFault));
}

#[test]
fn join_fails_without_any_result() {
    assert_eq!(join_workers(None, None), Err(WorkerFault));
}

#[test]
fn steps_compose_through_join() {
    let values: Vec<i32> = vec![1, 2, 3, 4, 5, 6, 7, 8, 9, 10];
    let (left, right) = split(&values);
    assert_eq!(join_workers(Some(partial_sum(&left)), Some(partial_sum(&right))), Ok(55));
}
