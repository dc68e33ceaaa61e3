use ralg::insertion::InsertionSort;
use ralg::merge::{merge, MergeSort};
use ralg::search::has_two_sum;
use ralg::sorting::{is_sorted, Sorter};

#[test]
fn insertion() {
    let mut xs = vec![123, 91847, 1, 0, -1, -450, 800, 555];
    InsertionSort::sort(&mut xs);
    assert!(is_sorted(&xs));
}

#[test]
fn sort() {
    let mut xs = vec![123, 91847, 1, 0, -1, -450, 800, 555];
    MergeSort::sort(&mut xs);
    assert!(is_sorted(&xs));
}

#[test]
fn merge_arrays() {
    let mut xs = vec![5, 6, 7, 8, 1, 2, 3, 4];
    merge(&mut xs, 0, 3, 7);
    assert_eq!(xs, vec![1, 2, 3, 4, 5, 6, 7, 8]);

    let mut xs = vec![13, 11, 5, 6, 7, 8, 1, 2, 3, 4, 90, 21];
    merge(&mut xs, 2, 5, 9);
    assert_eq!(xs, vec![13, 11, 1, 2, 3, 4, 5, 6, 7, 8, 90, 21]);
}

#[test]
fn sorted() {
    let v1 = vec![1, 2, 3, 4, 5, 5];
    assert!(is_sorted(&v1));

    let v2 = vec![0, 3, 9, 8, 10];
    assert!(!is_sorted(&v2));
}

#[test]
fn binary_search() {
    let xs = vec![3];
    assert_eq!(ralg::search::binary_search(&xs, &3), Some(0));

    let xs = vec![3, 4];
    assert_eq!(ralg::search::binary_search(&xs, &3), Some(0));
    assert_eq!(ralg::search::binary_search(&xs, &4), Some(1));

    let xs = vec![3, 5, 7, 11, 35, 90];
    assert_eq!(ralg::search::binary_search(&xs, &90), Some(xs.len() - 1));
    assert_eq!(ralg::search::binary_search(&xs, &6), None);
}

#[test]
fn binary_search_absent_below_first() {
    let xs = vec![3, 5, 7];
    assert_eq!(ralg::search::binary_search(&xs, &1), None);
}

#[test]
fn two_sum() {
    let xs = vec![3, 9, 1];
    assert!(has_two_sum(&xs, 10));
    assert!(has_two_sum(&xs, 4));
    assert!(!has_two_sum(&xs, 11));

    // a pair must be two distinct elements
    let xs = vec![4];
    assert!(!has_two_sum(&xs, 8));
    let xs = vec![4, 4];
    assert!(has_two_sum(&xs, 8));

    let xs: Vec<i64> = vec![];
    assert!(!has_two_sum(&xs, 0));
}
