use musiccut::order::stable_order_of;

#[test]
fn order_of_no_keys() {
    assert!(stable_order_of(&Vec::new()).is_empty());
}

#[test]
fn order_ascends_by_key() {
    assert_eq!(stable_order_of(&vec![30, 10, 20]), vec![1, 2, 0]);
    assert_eq!(stable_order_of(&vec![1, 2, 3]), vec![0, 1, 2]);
    assert_eq!(stable_order_of(&vec![3, 2, 1]), vec![2, 1, 0]);
    assert_eq!(stable_order_of(&vec![u64::MAX, 0]), vec![1, 0]);
}

#[test]
fn equal_keys_keep_their_order() {
    assert_eq!(stable_order_of(&vec![5, 1, 5, 1, 5]), vec![1, 3, 0, 2, 4]);
    assert_eq!(stable_order_of(&vec![7, 7, 7]), vec![0, 1, 2]);
}
