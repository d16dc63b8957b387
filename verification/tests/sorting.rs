use pico_bench::sort::{bubble_sort, fill_reversed, is_sorted, sort_benchmark};

#[test]
fn fill_reversed_counts_down() {
    let v = fill_reversed(5);
    assert_eq!(v, vec![5, 4, 3, 2, 1]);
}

#[test]
fn fill_reversed_empty() {
    let v = fill_reversed(0);
    assert!(v.is_empty());
}

#[test]
fn fill_reversed_single() {
    let v = fill_reversed(1);
    assert_eq!(v, vec![1]);
}

#[test]
fn bubble_sort_small() {
    let mut v = vec![3, 1, 2];
    bubble_sort(&mut v);
    assert_eq!(v, vec![1, 2, 3]);
}

#[test]
fn bubble_sort_duplicates() {
    let mut v = vec![2, 1, 2, 1];
    bubble_sort(&mut v);
    assert_eq!(v, vec![1, 1, 2, 2]);
}

#[test]
fn bubble_sort_sorted_input() {
    let mut v = vec![-5, 0, 7];
    bubble_sort(&mut v);
    assert_eq!(v, vec![-5, 0, 7]);
}

#[test]
fn bubble_sort_single() {
    let mut v = vec![42];
    bubble_sort(&mut v);
    assert_eq!(v, vec![42]);
}

#[test]
fn bubble_sort_empty() {
    let mut v: Vec<i32> = vec![];
    bubble_sort(&mut v);
    assert!(v.is_empty());
}

#[test]
fn bubble_sort_worst_case_buffer() {
    let mut v = fill_reversed(1000);
    bubble_sort(&mut v);
    for i in 0..1000usize {
        assert_eq!(v[i], (i + 1) as i32);
    }
}

#[test]
fn is_sorted_accepts_sorted() {
    assert!(is_sorted(&[1, 2, 2, 9]));
}

#[test]
fn is_sorted_rejects_unsorted() {
    assert!(!is_sorted(&[1, 3, 2]));
}

#[test]
fn is_sorted_single() {
    assert!(is_sorted(&[7]));
}

#[test]
fn sort_benchmark_full_size() {
    assert!(sort_benchmark(1000));
}

#[test]
fn sort_benchmark_smallest() {
    assert!(sort_benchmark(1));
}
