use rust_bits::hello_generic::HelloGeneric;
use rust_bits::point_n::PointN;
use rust_bits::point_object;
use rust_bits::points::{Point1, Point2};
use rust_bits::points_generic;
use rust_bits::points_iter;

#[test]
fn hello_generic_holds_value() {
    let mut h = HelloGeneric::<i32>::new(42);
    assert_eq!(*h.value(), 42);
    *h.value() = 84;
    let mut c = h.clone();
    assert_eq!(*c.value(), 84);
    let mut d = HelloGeneric::<String>::default_new();
    assert_eq!(*d.value(), "");
}

#[test]
fn point1_getters_setters() {
    let mut p = Point1::new();
    assert_eq!((*p.get_x(), *p.get_y(), *p.get_z()), (0, 0, 0));
    p.set_x(3);
    p.set_y(-4);
    p.set_z(5);
    assert_eq!((*p.get_x(), *p.get_y(), *p.get_z()), (3, -4, 5));
}

#[test]
fn point2_new_init_coors() {
    let mut p = Point2::<i32>::new(3);
    assert_eq!(p.len(), 3);
    assert_eq!(*p.coors(), vec![0, 0, 0]);
    let mut q = p.init(vec![1, 2]);
    assert_eq!(q.len(), 2);
    *q.coors() = vec![9, 8, 7, 6];
    assert_eq!(q.len(), 4);
    assert_eq!(*q.coors(), vec![9, 8, 7, 6]);
}

#[test]
fn pointn_new_init_coors() {
    let mut p = PointN::<f64>::new(2);
    assert_eq!(*p.coors(), vec![0.0, 0.0]);
    let mut q = p.init(vec![1.5, 2.5, 3.5]);
    assert_eq!(q.len(), 3);
    q.coors()[1] = -1.0;
    assert_eq!(*q.coors(), vec![1.5, -1.0, 3.5]);
}

#[test]
fn generic_point_init_pads_with_defaults() {
    let mut p = points_generic::Point::<i32, 5>::new().init(&vec![1, 2, 3]);
    assert_eq!(p.len(), 5);
    assert_eq!(*p.coors(), vec![1, 2, 3, 0, 0]);
}

#[test]
fn generic_point_init_ignores_extra() {
    let mut p = points_generic::Point::<i32, 3>::new().init(&vec![1, 2, 3, 4, 5]);
    assert_eq!(*p.coors(), vec![1, 2, 3]);
    *p.coors() = vec![1, 0, -1, 0, 1];
    let mut q = p.init(&vec![7]);
    assert_eq!(*q.coors(), vec![7, 0, 0, 0, 1]);
}

#[test]
fn iter_point_init_and_iterate() {
    let mut p = points_iter::Point::<i32, 7>::new();
    p.init(&vec![1, 2, 3, 4, 3, 2, 1]);
    assert_eq!(p.items, vec![1, 2, 3, 4, 3, 2, 1]);
    let total: i32 = p.iter().sum();
    assert_eq!(total, 16);
    p.init(&vec![5, 6]);
    assert_eq!(p.items, vec![5, 6, 0, 0, 0, 0, 0]);
}

#[test]
fn iter_point_iter_mut_changes_items() {
    let mut p = points_iter::Point::<i32, 4>::new();
    p.init(&vec![1, 2, 3, 4]);
    for x in p.iter_mut() {
        *x *= 10;
    }
    assert_eq!(p.items, vec![10, 20, 30, 40]);
}

#[test]
fn iter_point_into_iter() {
    let mut p = points_iter::Point::<String, 2>::new();
    p.init(&vec!["x".to_string()]);
    let out: Vec<String> = p.into_iter().collect();
    assert_eq!(out, vec!["x".to_string(), String::new()]);
}

#[test]
fn object_point_new_into_iter() {
    let p = point_object::Point::<i32>::new(3);
    let out: Vec<i32> = p.into_iter().collect();
    assert_eq!(out, vec![0, 0, 0]);
}

#[test]
fn object_point_cursor_walks_items() {
    let mut p = point_object::Point::<u8>::new(3);
    *p.index_mut(0) = 7;
    *p.index_mut(2) = 9;
    let mut it = p.iter();
    assert_eq!(it.next(), Some(&7));
    assert_eq!(it.next(), Some(&0));
    assert_eq!(it.next(), Some(&9));
    assert_eq!(it.next(), None);
    assert_eq!(it.next(), None);
}

#[test]
fn object_point_index() {
    let mut p = point_object::Point::<i32>::new(2);
    *p.index_mut(1) = -4;
    assert_eq!(*p.index(0), 0);
    assert_eq!(*p.index(1), -4);
    let out: Vec<i32> = p.into_iter().collect();
    assert_eq!(out, vec![0, -4]);
}

#[test]
fn generic_point_index_and_index_mut() {
    let mut p = points_generic::Point::<i32, 5>::new().init(&vec![1, 2, 3, 2, 1]);
    assert_eq!(*p.index(0), 1);
    *p.index_mut(0) = 3;
    *p.index_mut(1) = 4;
    assert_eq!(*p.coors(), vec![3, 4, 3, 2, 1]);
}

#[test]
fn iter_point_index_and_index_mut() {
    let mut p = points_iter::Point::<f64, 3>::new();
    *p.index_mut(2) = 2.5;
    assert_eq!(*p.index(2), 2.5);
    assert_eq!(p.items, vec![0.0, 0.0, 2.5]);
}

#[test]
fn object_point_cursor_on_empty_point() {
    let p = point_object::Point::<String>::new(0);
    let mut it = p.iter();
    assert_eq!(it.next(), None);
}

#[test]
fn iter_point_borrowed_into_iter_keeps_point() {
    let mut p = points_iter::Point::<String, 2>::new();
    p.init(&vec!["a".to_string(), "b".to_string()]);
    let mut seen = Vec::new();
    for s in &p {
        seen.push(s);
    }
    assert_eq!(seen, vec!["a".to_string(), "b".to_string()]);
    assert_eq!(p.items, vec!["a".to_string(), "b".to_string()]);
}

#[test]
fn generic_point_as_slice() {
    let p = points_generic::Point::<i32, 4>::new().init(&vec![4, 3, 2]);
    let s: &[i32] = p.as_ref();
    assert_eq!(s, &[4, 3, 2, 0]);
    assert_eq!(p[1], 3);
    assert_eq!(p.iter().sum::<i32>(), 9);
    assert_eq!(rust_bits::text::csl(&p), "4, 3, 2, 0");
}
