use stabby::vec::Vec as StableVec;

#[test]
fn round_trip_keeps_length_capacity_and_elements() {
    let mut v: Vec<u32> = Vec::with_capacity(10);
    v.push(7);
    v.push(8);
    v.push(9);
    let cap = v.capacity();
    let stable = StableVec::from_std(v);
    assert_eq!(stable.len(), 3);
    assert_eq!(stable.capacity(), cap);
    assert_eq!(stable.as_slice(), &[7, 8, 9]);
    let back = stable.into_std();
    assert_eq!(back.len(), 3);
    assert_eq!(back.capacity(), cap);
    assert_eq!(back, vec![7, 8, 9]);
}

#[test]
fn round_trip_of_empty_buffer() {
    let v: Vec<String> = Vec::new();
    let stable = StableVec::from_std(v);
    assert_eq!(stable.len(), 0);
    let back = stable.into_std();
    assert!(back.is_empty());
    assert_eq!(back.capacity(), 0);
}
