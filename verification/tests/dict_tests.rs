use wyag::sorted_dict::OrderedDictionary;

#[test]
fn creates_ordered_iterator() {
    let pairs = [("test1", 9), ("test2", 8), ("test3", 0)];
    let mut test_dict: OrderedDictionary<i32> = OrderedDictionary::new();

    for (k, v) in pairs.iter() {
        test_dict.add(k.to_string(), v.clone());
    }
    let mut check_iter = pairs.iter();
    let mut entries = test_dict.into_iter();
    while let Some(pair) = entries.next() {
        println!("Grabbing pair from dictionary...");
        let expected = *check_iter
            .next()
            .expect("More entries in dictionary than expected");
        assert!(
            pair.0 == expected.0 && pair.1 == expected.1,
            "Mismatch: Dictionary: {:?}, Expected: {:?}",
            pair,
            expected
        );
    }
    assert!(check_iter.next().is_none());
}

#[test]
fn get_and_remove_work_by_key() {
    let mut dict: OrderedDictionary<u64> = OrderedDictionary::new();
    assert_eq!(dict.add("a".to_string(), 1), None);
    assert_eq!(dict.add("b".to_string(), 2), None);
    assert_eq!(dict.get(&"a".to_string()), Some(&1));
    assert_eq!(dict.get(&"missing".to_string()), None);
    assert_eq!(dict.remove(&"a".to_string()), Some(1));
    assert_eq!(dict.get(&"a".to_string()), None);
    assert_eq!(dict.remove(&"a".to_string()), None);
    assert_eq!(dict.get(&"b".to_string()), Some(&2));
}

#[test]
fn overwriting_keeps_the_original_position() {
    let mut dict: OrderedDictionary<i32> = OrderedDictionary::new();
    dict.add("first".to_string(), 1);
    dict.add("second".to_string(), 2);
    assert_eq!(dict.add("first".to_string(), 10), Some(1));
    let mut entries = dict.into_iter();
    let head = entries.next().unwrap();
    assert_eq!(head, ("first".to_string(), 10));
    let next = entries.next().unwrap();
    assert_eq!(next, ("second".to_string(), 2));
    assert!(entries.next().is_none());
}
