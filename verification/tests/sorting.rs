use audio_upload_service::sorting::{bubble_sort, heap_sort, quick_sort, selection_sort};

#[test]
fn bubble_empty_array() {
    let mut arr: [i32; 0] = [];
    bubble_sort(&mut arr);
    assert_eq!(arr, []);
}

#[test]
fn bubble_single_element() {
    let mut arr = [42];
    bubble_sort(&mut arr);
    assert_eq!(arr, [42]);
}

#[test]
fn bubble_already_sorted() {
    let mut arr = [1, 2, 3, 4, 5];
    bubble_sort(&mut arr);
    assert_eq!(arr, [1, 2, 3, 4, 5]);
}

#[test]
fn bubble_reverse_sorted() {
    let mut arr = [5, 4, 3, 2, 1];
    bubble_sort(&mut arr);
    assert_eq!(arr, [1, 2, 3, 4, 5]);
}

#[test]
fn bubble_with_duplicates() {
    let mut arr = [3, 1, 2, 1, 3, 0];
    bubble_sort(&mut arr);
    assert_eq!(arr, [0, 1, 1, 2, 3, 3]);
}

#[test]
fn bubble_all_same_elements() {
    let mut arr = [7, 7, 7, 7, 7];
    bubble_sort(&mut arr);
    assert_eq!(arr, [7, 7, 7, 7, 7]);
}

#[test]
fn bubble_two_elements() {
    let mut arr = [2, 1];
    bubble_sort(&mut arr);
    assert_eq!(arr, [1, 2]);
}

#[test]
fn bubble_strings() {
    let mut arr = ["zebra", "apple", "banana", "cherry"];
    bubble_sort(&mut arr);
    assert_eq!(arr, ["apple", "banana", "cherry", "zebra"]);
}

#[test]
fn u8_type() {
    let mut arr: [u8; 5] = [200, 50, 100, 150, 25];
    bubble_sort(&mut arr);
    assert_eq!(arr, [25, 50, 100, 150, 200]);
}

#[test]
fn i64_type() {
    let mut arr: [i64; 4] = [1000000000, -1000000000, 0, 500000000];
    bubble_sort(&mut arr);
    assert_eq!(arr, [-1000000000, 0, 500000000, 1000000000]);
}

#[test]
fn bubble_chars() {
    let mut arr = ['z', 'a', 'x', 'b', 'c'];
    bubble_sort(&mut arr);
    assert_eq!(arr, ['a', 'b', 'c', 'x', 'z']);
}

#[test]
fn heap_sort_sorts_duplicates() {
    let mut v = [3, 1, 2, 1, 3, 0];
    heap_sort(&mut v);
    assert_eq!(v, [0, 1, 1, 2, 3, 3]);
}

#[test]
fn heap_sort_empty_array() {
    let mut arr: [i32; 0] = [];
    heap_sort(&mut arr);
    assert_eq!(arr, []);
}

#[test]
fn heap_sort_single_element() {
    let mut arr = [77];
    heap_sort(&mut arr);
    assert_eq!(arr, [77]);
}

#[test]
fn heap_sort_already_sorted() {
    let mut arr = [1, 2, 3, 4, 5];
    heap_sort(&mut arr);
    assert_eq!(arr, [1, 2, 3, 4, 5]);
}

#[test]
fn heap_sort_reverse_sorted() {
    let mut arr = [10, 9, 8, 7, 6, 5, 4, 3, 2, 1];
    heap_sort(&mut arr);
    assert_eq!(arr, [1, 2, 3, 4, 5, 6, 7, 8, 9, 10]);
}

#[test]
fn heap_sort_all_same_elements() {
    let mut arr = [3, 3, 3, 3, 3, 3];
    heap_sort(&mut arr);
    assert_eq!(arr, [3, 3, 3, 3, 3, 3]);
}

#[test]
fn heap_sort_two_elements() {
    let mut arr = [8, 3];
    heap_sort(&mut arr);
    assert_eq!(arr, [3, 8]);
}

#[test]
fn many_duplicates() {
    let mut arr = [1, 3, 1, 3, 2, 2, 1, 3];
    heap_sort(&mut arr);
    assert_eq!(arr, [1, 1, 1, 2, 2, 3, 3, 3]);
}

#[test]
fn negative_numbers() {
    let mut arr = [-1, -5, -3, -2, -4];
    heap_sort(&mut arr);
    assert_eq!(arr, [-5, -4, -3, -2, -1]);
}

#[test]
fn u16_type() {
    let mut arr: [u16; 5] = [65535, 1000, 30000, 5000, 10000];
    heap_sort(&mut arr);
    assert_eq!(arr, [1000, 5000, 10000, 30000, 65535]);
}

#[test]
fn heap_sort_chars() {
    let mut arr = ['m', 'a', 'z', 'b', 'y'];
    heap_sort(&mut arr);
    assert_eq!(arr, ['a', 'b', 'm', 'y', 'z']);
}

#[test]
fn heap_sort_strings() {
    let mut arr = ["dog", "cat", "elephant", "ant", "bear"];
    heap_sort(&mut arr);
    assert_eq!(arr, ["ant", "bear", "cat", "dog", "elephant"]);
}

#[test]
fn i128_type() {
    let mut arr: [i128; 4] = [1000000000000000000, -1000000000000000000, 0, 500000000000000000];
    heap_sort(&mut arr);
    assert_eq!(arr, [-1000000000000000000, 0, 500000000000000000, 1000000000000000000]);
}

#[test]
fn quick_sort_sorts_duplicates() {
    let mut v = [3, 1, 2, 1, 3, 0];
    quick_sort(&mut v);
    assert_eq!(v, [0, 1, 1, 2, 3, 3]);
}

#[test]
fn quick_sort_empty_array() {
    let mut arr: [i32; 0] = [];
    quick_sort(&mut arr);
    assert_eq!(arr, []);
}

#[test]
fn quick_sort_single_element() {
    let mut arr = [1];
    quick_sort(&mut arr);
    assert_eq!(arr, [1]);
}

#[test]
fn quick_sort_already_sorted() {
    let mut arr = [1, 2, 3, 4, 5, 6, 7];
    quick_sort(&mut arr);
    assert_eq!(arr, [1, 2, 3, 4, 5, 6, 7]);
}

#[test]
fn quick_sort_reverse_sorted() {
    let mut arr = [9, 8, 7, 6, 5, 4, 3, 2, 1];
    quick_sort(&mut arr);
    assert_eq!(arr, [1, 2, 3, 4, 5, 6, 7, 8, 9]);
}

#[test]
fn quick_sort_all_same_elements() {
    let mut arr = [42, 42, 42, 42, 42];
    quick_sort(&mut arr);
    assert_eq!(arr, [42, 42, 42, 42, 42]);
}

#[test]
fn quick_sort_two_elements() {
    let mut arr = [5, 3];
    quick_sort(&mut arr);
    assert_eq!(arr, [3, 5]);
}

#[test]
fn u64_type() {
    let mut arr: [u64; 5] = [18446744073709551615, 1, 9223372036854775808, 100, 50];
    quick_sort(&mut arr);
    assert_eq!(arr, [1, 50, 100, 9223372036854775808, 18446744073709551615]);
}

#[test]
fn quick_sort_chars() {
    let mut arr = ['d', 'a', 'c', 'b', 'e'];
    quick_sort(&mut arr);
    assert_eq!(arr, ['a', 'b', 'c', 'd', 'e']);
}

#[test]
fn quick_sort_strings() {
    let mut arr = ["zebra", "apple", "mango", "banana"];
    quick_sort(&mut arr);
    assert_eq!(arr, ["apple", "banana", "mango", "zebra"]);
}

#[test]
fn selection_reverse_sorted() {
    let mut a = [6, 5, 4, 3, 2, 1];
    selection_sort(&mut a);
    assert_eq!(a, [1, 2, 3, 4, 5, 6]);
}

#[test]
fn selection_with_duplicates() {
    let mut a = [3, 1, 2, 1, 3, 0];
    selection_sort(&mut a);
    assert_eq!(a, [0, 1, 1, 2, 3, 3]);
}

#[test]
fn selection_empty_array() {
    let mut arr: [i32; 0] = [];
    selection_sort(&mut arr);
    assert_eq!(arr, []);
}

#[test]
fn selection_single_element() {
    let mut arr = [99];
    selection_sort(&mut arr);
    assert_eq!(arr, [99]);
}

#[test]
fn selection_already_sorted() {
    let mut arr = [1, 2, 3, 4, 5];
    selection_sort(&mut arr);
    assert_eq!(arr, [1, 2, 3, 4, 5]);
}

#[test]
fn selection_all_same_elements() {
    let mut arr = [5, 5, 5, 5];
    selection_sort(&mut arr);
    assert_eq!(arr, [5, 5, 5, 5]);
}

#[test]
fn selection_chars() {
    let mut arr = ['z', 'a', 'm', 'b', 'y'];
    selection_sort(&mut arr);
    assert_eq!(arr, ['a', 'b', 'm', 'y', 'z']);
}

#[test]
fn u32_type() {
    let mut arr: [u32; 5] = [4000000000, 1000000000, 3000000000, 2000000000, 500000000];
    selection_sort(&mut arr);
    assert_eq!(arr, [500000000, 1000000000, 2000000000, 3000000000, 4000000000]);
}

#[test]
fn selection_strings() {
    let mut arr = ["rust", "python", "java", "c++"];
    selection_sort(&mut arr);
    assert_eq!(arr, ["c++", "java", "python", "rust"]);
}
