use fallback::Fallback;

fn four() -> Vec<(Option<i32>, Option<i32>)> {
    vec![(None, None), (Some(1), None), (None, Some(2)), (Some(1), Some(2))]
}

#[test]
fn some() {
    assert!(!Fallback::<()>::new(None, None).is_some());
}

#[test]
fn option() {
    let f = Fallback::new(None, Some(100));
    assert_eq!(Option::from(f), Some(100));
}

#[test]
fn empty() {
    let f = Fallback::new(Some(vec![]), Some(vec![1, 1, 4, 5, 1, 4]));
    assert_eq!(f.and_any(), Some(vec![1, 1, 4, 5, 1, 4]));

    let f = Fallback::new(Some(String::new()), Some("Hello world!".to_string()));
    assert_eq!(f.and_any_str(), Some("Hello world!".to_string()));
}

#[test]
fn is_some_is_false_only_when_both_slots_are_absent() {
    assert!(!Fallback::<i32>::new(None, None).is_some());
    assert!(Fallback::new(Some(1), None).is_some());
    assert!(Fallback::new(None, Some(2)).is_some());
    assert!(Fallback::new(Some(1), Some(2)).is_some());
}

#[test]
fn fallback_prefers_the_primary_slot() {
    assert_eq!(Fallback::<i32>::new(None, None).fallback(), None);
    assert_eq!(Fallback::new(Some(1), None).fallback(), Some(1));
    assert_eq!(Fallback::new(None, Some(2)).fallback(), Some(2));
    assert_eq!(Fallback::new(Some(1), Some(2)).fallback(), Some(1));
}

#[test]
fn conversion_agrees_with_fallback() {
    for (data, base_data) in four() {
        let converted: Option<i32> = Fallback::new(data, base_data).into();
        assert_eq!(converted, Fallback::new(data, base_data).fallback());
    }
}

#[test]
fn unzip_then_new_gives_the_pair_back() {
    for (data, base_data) in four() {
        let (a, b) = Fallback::new(data, base_data).unzip();
        assert_eq!((a, b), (data, base_data));
        assert_eq!(Fallback::new(a, b).unzip(), (data, base_data));
    }
}

#[test]
fn map_keeps_the_occupancy() {
    for (data, base_data) in four() {
        let before = Fallback::new(data, base_data).is_some();
        let mapped = Fallback::new(data, base_data).map(|i| i.to_string());
        assert_eq!(mapped.is_some(), before);
        assert_eq!(
            mapped.unzip(),
            (data.map(|i| i.to_string()), base_data.map(|i| i.to_string()))
        );
    }
}

#[test]
fn map_visits_the_primary_slot_first() {
    let mut seen = Vec::new();
    let mapped = Fallback::new(Some(10), Some(20)).map(|i| {
        seen.push(i);
        i + 1
    });
    assert_eq!(mapped.unzip(), (Some(11), Some(21)));
    assert_eq!(seen, vec![10, 20]);
}

#[test]
fn and_then_falls_back_when_the_primary_is_rejected() {
    let fallback = Fallback::new(Some("hello"), Some("123"));
    let num = fallback.and_then(|s| s.parse::<i32>().ok());
    assert_eq!(num, Some(123));
}

#[test]
fn and_then_after_map() {
    let fallback = Fallback::new(Some(123), Some(123456));
    let fallback = fallback.map(|i| i.to_string());
    let s = fallback.and_then(|s| if s.len() > 3 { Some(s) } else { None });
    assert_eq!(s, Some("123456".to_string()));
}

#[test]
fn and_then_stops_at_the_first_result() {
    let mut calls = Vec::new();
    let out = Fallback::new(Some(4), Some(6)).and_then(|i| {
        calls.push(i);
        if i % 2 == 0 {
            Some(i * 10)
        } else {
            None
        }
    });
    assert_eq!(out, Some(40));
    assert_eq!(calls, vec![4]);
}

#[test]
fn and_then_tries_primary_then_secondary() {
    let mut calls = Vec::new();
    let out = Fallback::new(Some(3), Some(6)).and_then(|i| {
        calls.push(i);
        if i % 2 == 0 {
            Some(i * 10)
        } else {
            None
        }
    });
    assert_eq!(out, Some(60));
    assert_eq!(calls, vec![3, 6]);
}

#[test]
fn and_then_gives_nothing_when_both_are_rejected_or_absent() {
    let mut calls = 0;
    let out = Fallback::new(Some(3), Some(5)).and_then(|i: i32| {
        calls += 1;
        if i % 2 == 0 {
            Some(i)
        } else {
            None
        }
    });
    assert_eq!(out, None);
    assert_eq!(calls, 2);

    let mut calls = 0;
    let out = Fallback::<i32>::new(None, None).and_then(|i| {
        calls += 1;
        Some(i)
    });
    assert_eq!(out, None);
    assert_eq!(calls, 0);

    let out = Fallback::new(None, Some(8)).and_then(|i: i32| Some(i + 1));
    assert_eq!(out, Some(9));
    let out = Fallback::new(Some(3), None).and_then(|i: i32| if i > 5 { Some(i) } else { None });
    assert_eq!(out, None);
}

#[test]
fn and_then_with_the_identity_is_fallback() {
    for (data, base_data) in four() {
        assert_eq!(
            Fallback::new(data, base_data).and_then(Some),
            Fallback::new(data, base_data).fallback()
        );
    }
}

#[test]
fn as_ref_borrows_both_slots() {
    let pair = Fallback::new(Some("a".to_string()), None);
    assert_eq!(pair.as_ref().unzip(), (Some(&"a".to_string()), None));
    assert_eq!(pair.as_ref().fallback().map(|s| s.len()), Some(1));
    let pair = Fallback::new(None, Some("bc".to_string()));
    assert_eq!(pair.as_ref().unzip(), (None, Some(&"bc".to_string())));
    assert_eq!(pair.unzip(), (None, Some("bc".to_string())));
}

#[test]
fn flatten_removes_one_level_in_each_slot() {
    assert_eq!(
        Fallback::new(Some(Some(1)), Some(Some(2))).flatten().unzip(),
        (Some(1), Some(2))
    );
    assert_eq!(
        Fallback::new(Some(None), Some(Some(2))).flatten().unzip(),
        (None, Some(2))
    );
    assert_eq!(
        Fallback::<Option<i32>>::new(None, Some(None)).flatten().unzip(),
        (None, None)
    );
    assert_eq!(
        Fallback::new(Some(None), Some(Some(2))).flatten().fallback(),
        Some(2)
    );
}
