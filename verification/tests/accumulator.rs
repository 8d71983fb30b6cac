use validated_accumulator::accumulator::ValidatedAccumulator;
use validated_accumulator::validate::{make_key, NonEmptyValidator, RangeValidator, Validator};

fn key_of(s: &str) -> validated_accumulator::validate::ValidatedKey<String> {
    make_key(String::from(s), &NonEmptyValidator).expect("non-empty key")
}

#[test]
fn make_key_rejects_invalid_keys() {
    let v = NonEmptyValidator;
    let r = make_key(String::new(), &v);
    assert!(r.is_err());
    let r = make_key(String::from("ok"), &v);
    assert!(r.is_ok());
}

#[test]
fn make_key_empty_reports_rule() {
    let v = NonEmptyValidator;
    match make_key(String::new(), &v) {
        Ok(_) => panic!("the empty string must be rejected"),
        Err(e) => {
            assert_eq!(e.raw, String::new());
            assert_eq!(e.rule, String::from("non-empty"));
        }
    }
}

#[test]
fn range_validator_accepts_exact_bounds() {
    let v = RangeValidator { lo: 1, hi: 100 };
    assert!(make_key(1i32, &v).is_ok());
    assert!(make_key(100i32, &v).is_ok());
    assert!(make_key(0i32, &v).is_err());
    assert!(make_key(101i32, &v).is_err());
    match make_key(0i32, &v) {
        Err(e) => {
            assert_eq!(e.raw, 0);
            assert_eq!(e.rule, String::from("in-range"));
        }
        Ok(_) => panic!("0 is out of range"),
    }
}

#[test]
fn validator_check_matches_outcome() {
    let v = NonEmptyValidator;
    assert!(!v.check(&String::new()));
    assert!(v.check(&String::from("a")));
}

#[test]
fn thunk_runs_once_across_two_calls() {
    let mut acc: ValidatedAccumulator<String, u32> = ValidatedAccumulator::new();
    let mut count = 0u32;
    {
        let r = acc.get_or_insert(key_of("a"), || {
            count += 1;
            7
        });
        assert_eq!(*r, 7);
    }
    {
        let r = acc.get_or_insert(key_of("a"), || {
            count += 1;
            9
        });
        assert_eq!(*r, 7);
    }
    assert_eq!(count, 1);
}

#[test]
fn get_on_never_inserted_key_is_none() {
    let acc: ValidatedAccumulator<String, u32> = ValidatedAccumulator::new();
    assert!(acc.get(&key_of("missing")).is_none());
}

#[test]
fn entry_accumulation_reaches_three() {
    let mut acc: ValidatedAccumulator<String, u32> = ValidatedAccumulator::new();
    acc.upsert(key_of("a"), 0);
    for _ in 0..3 {
        let r = acc.get_or_insert(key_of("a"), || 0);
        *r += 1;
    }
    assert_eq!(acc.get(&key_of("a")).copied(), Some(3));
}

#[test]
fn upsert_replaces_existing_value() {
    let mut acc: ValidatedAccumulator<String, u32> = ValidatedAccumulator::new();
    acc.upsert(key_of("a"), 1);
    acc.upsert(key_of("a"), 5);
    assert_eq!(acc.get(&key_of("a")).copied(), Some(5));
}

#[test]
fn snapshot_yields_all_pairs_in_insertion_order() {
    let mut acc: ValidatedAccumulator<String, u32> = ValidatedAccumulator::new();
    acc.upsert(key_of("a"), 1);
    acc.upsert(key_of("b"), 2);
    let mut it = acc.snapshot_iterate();
    let mut seen: Vec<(String, u32)> = Vec::new();
    loop {
        match it.next(&acc) {
            Ok(Some((k, v))) => seen.push((k.clone(), *v)),
            Ok(None) => break,
            Err(_) => panic!("no mutation happened"),
        }
    }
    assert_eq!(
        seen,
        vec![(String::from("a"), 1), (String::from("b"), 2)]
    );
}

#[test]
fn mutation_during_snapshot_is_reported() {
    let mut acc: ValidatedAccumulator<String, u32> = ValidatedAccumulator::new();
    acc.upsert(key_of("a"), 1);
    let mut it = acc.snapshot_iterate();
    assert!(matches!(it.next(&acc), Ok(Some(_))));
    let _ = acc.get_or_insert(key_of("b"), || 2);
    assert!(it.next(&acc).is_err());
}

#[test]
fn value_overwrite_is_not_structural() {
    let mut acc: ValidatedAccumulator<String, u32> = ValidatedAccumulator::new();
    acc.upsert(key_of("a"), 1);
    let mut it = acc.snapshot_iterate();
    acc.upsert(key_of("a"), 2);
    assert!(matches!(it.next(&acc), Ok(Some(_))));
}

#[test]
fn repeated_get_is_identical() {
    let mut acc: ValidatedAccumulator<String, u32> = ValidatedAccumulator::new();
    acc.upsert(key_of("a"), 42);
    let k = key_of("a");
    let first = acc.get(&k).copied();
    let second = acc.get(&k).copied();
    let third = acc.get(&k).copied();
    assert_eq!(first, Some(42));
    assert_eq!(first, second);
    assert_eq!(second, third);
    let missing = key_of("b");
    assert_eq!(acc.get(&missing).copied(), acc.get(&missing).copied());
}

#[test]
fn word_counting_accumulates() {
    let text = "hello world wonderful world";
    let mut counts: ValidatedAccumulator<String, u32> = ValidatedAccumulator::new();
    for word in text.split_whitespace() {
        let count = counts.get_or_insert(key_of(word), || 0);
        *count += 1;
    }
    assert_eq!(counts.get(&key_of("hello")).copied(), Some(1));
    assert_eq!(counts.get(&key_of("world")).copied(), Some(2));
    assert_eq!(counts.get(&key_of("wonderful")).copied(), Some(1));
    assert_eq!(counts.get(&key_of("absent")).copied(), None);
}

#[test]
fn integer_keys_work_too() {
    let v = RangeValidator { lo: 1, hi: 100 };
    let mut acc: ValidatedAccumulator<i32, String> = ValidatedAccumulator::new();
    let k = make_key(7i32, &v).expect("in range");
    acc.upsert(k, String::from("seven"));
    let k = make_key(7i32, &v).expect("in range");
    assert_eq!(acc.get(&k), Some(&String::from("seven")));
}
