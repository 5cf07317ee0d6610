use rust_bits::iteration::{demo_adapters, demo_vec_iter_mut_for};

#[test]
fn adapters_keep_positive_and_shift() {
    let a = [1, -1, 0, 2, 3, 4];
    assert_eq!(demo_adapters(&a, 2), vec![3, 4, 5, 6]);
}

#[test]
fn adapters_on_no_positive_items() {
    let a = [0i64, -4, -1];
    assert_eq!(demo_adapters(&a, 10), Vec::<i64>::new());
    let empty: [i32; 0] = [];
    assert_eq!(demo_adapters(&empty, 1), Vec::<i32>::new());
}

#[test]
fn adapters_with_negative_shift() {
    let v = vec![5i32, -2, 1];
    assert_eq!(demo_adapters(&v, -1), vec![4, 0]);
}

#[test]
fn vec_iter_mut_for_applies_in_place() {
    let mut v = vec![1, 2, 3, 4, 5];
    demo_vec_iter_mut_for(&mut v, |x: &i32| x + 1);
    assert_eq!(v, vec![2, 3, 4, 5, 6]);
    let mut w: Vec<String> = vec!["a".to_string(), "b".to_string()];
    demo_vec_iter_mut_for(&mut w, |s: &String| format!("{s}{s}"));
    assert_eq!(w, vec!["aa".to_string(), "bb".to_string()]);
}
