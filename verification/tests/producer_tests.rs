use rust_with_kafka_tls::producer::{build_demo_batch, collect_outcomes};
use rust_with_kafka_tls::text::{i64_to_dec, join_strings, u64_to_dec};

#[test]
fn demo_batch_of_five_has_synthetic_keys_payloads_and_header() {
    let batch = build_demo_batch(&"t1".to_string(), 5);
    assert_eq!(batch.len(), 5);
    for (i, record) in batch.iter().enumerate() {
        assert_eq!(record.topic, "t1");
        assert_eq!(record.key, format!("Key {}", i));
        assert_eq!(record.payload, format!("Message {}", i));
        assert_eq!(
            record.headers,
            vec![("header_key".to_string(), "header_value".to_string())]
        );
    }
}

#[test]
fn five_results_yield_five_index_aligned_outcomes() {
    let results: Vec<Result<(i32, i64), String>> = vec![
        Ok((2, 100)),
        Ok((0, 7)),
        Ok((1, 55)),
        Ok((2, 101)),
        Ok((0, 8)),
    ];
    let outcomes = collect_outcomes(&results);
    assert_eq!(outcomes.len(), 5);
    for (i, out) in outcomes.iter().enumerate() {
        assert_eq!(out.index, i);
        assert!(out.success);
        assert_eq!(out.error, None);
    }
    assert_eq!((outcomes[0].partition, outcomes[0].offset), (2, 100));
    assert_eq!((outcomes[3].partition, outcomes[3].offset), (2, 101));
}

#[test]
fn one_failed_send_fails_only_its_own_outcome() {
    let results: Vec<Result<(i32, i64), String>> = vec![
        Ok((0, 10)),
        Ok((0, 11)),
        Err("network failure".to_string()),
        Ok((1, 3)),
        Ok((1, 4)),
    ];
    let outcomes = collect_outcomes(&results);
    assert_eq!(outcomes.len(), 5);
    assert!(!outcomes[2].success);
    assert_eq!(outcomes[2].error, Some("network failure".to_string()));
    assert_eq!(outcomes[2].partition, -1);
    assert_eq!(outcomes[2].offset, -1);
    for i in [0usize, 1, 3, 4] {
        assert!(outcomes[i].success, "sibling send {} must be unaffected", i);
        assert_eq!(outcomes[i].error, None);
    }
}

#[test]
fn rerunning_the_batch_gives_a_structurally_equivalent_outcome_set() {
    let results: Vec<Result<(i32, i64), String>> = vec![
        Ok((0, 10)),
        Err("timeout".to_string()),
        Ok((2, 30)),
    ];
    let first = collect_outcomes(&results);
    let second = collect_outcomes(&results);
    assert_eq!(first.len(), second.len());
    for (a, b) in first.iter().zip(second.iter()) {
        assert_eq!(a.index, b.index);
        assert_eq!(a.success, b.success);
        assert_eq!(a.partition, b.partition);
        assert_eq!(a.offset, b.offset);
        assert_eq!(a.error, b.error);
    }
}

#[test]
fn empty_batch_yields_no_outcomes() {
    let outcomes = collect_outcomes(&Vec::new());
    assert!(outcomes.is_empty());
    let batch = build_demo_batch(&"t1".to_string(), 0);
    assert!(batch.is_empty());
}

#[test]
fn decimal_rendering_matches_std_formatting() {
    assert_eq!(u64_to_dec(0), "0");
    assert_eq!(u64_to_dec(9), "9");
    assert_eq!(u64_to_dec(10), "10");
    assert_eq!(u64_to_dec(1234567890), "1234567890");
    assert_eq!(u64_to_dec(u64::MAX), u64::MAX.to_string());
    assert_eq!(i64_to_dec(0), "0");
    assert_eq!(i64_to_dec(-1), "-1");
    assert_eq!(i64_to_dec(-42), "-42");
    assert_eq!(i64_to_dec(i64::MIN), i64::MIN.to_string());
    assert_eq!(i64_to_dec(i64::MAX), i64::MAX.to_string());
}

#[test]
fn joining_matches_std_join() {
    let items = vec!["a".to_string(), "b".to_string(), "c".to_string()];
    assert_eq!(join_strings(&items, ","), "a,b,c");
    assert_eq!(join_strings(&items, ", "), items.join(", "));
    assert_eq!(join_strings(&Vec::new(), ","), "");
    assert_eq!(join_strings(&vec!["solo".to_string()], ","), "solo");
}
