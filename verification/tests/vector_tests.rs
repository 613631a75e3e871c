use interop_bindings::vector::Vector;

#[test]
fn test_vector_new_is_empty() {
    let v: Vector<i32> = Vector::new();
    assert!(v.is_empty());
    assert_eq!(v.len(), 0);
    assert!(v.capacity() >= v.len());
    assert!(v.get(0).is_none());
}

#[test]
fn test_vector_push_keeps_order() {
    let mut v: Vector<i32> = Vector::new();
    v.push(7);
    v.push(9);
    assert!(!v.is_empty());
    assert_eq!(v.len(), 2);
    assert_eq!(v.get(0), Some(&7));
    assert_eq!(v.get(1), Some(&9));
    assert_eq!(v.get(2), None);
    assert!(v.capacity() >= 2);
}

#[test]
fn test_vector_default_is_empty() {
    let v: Vector<u8> = Vector::default();
    assert!(v.is_empty());
    assert_eq!(v.as_slice(), &[] as &[u8]);
}

#[test]
fn test_vector_index_and_set() {
    let mut v: Vector<i32> = Vector::new();
    v.push(1);
    v.push(2);
    v.push(3);
    assert_eq!(*v.index(1), 2);
    v.set(1, 20);
    assert_eq!(*v.index(1), 20);
    assert_eq!(v.as_slice(), &[1, 20, 3]);
    assert_eq!(v.len(), 3);
}
