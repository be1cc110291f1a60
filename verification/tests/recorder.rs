use benchmarker::recorder::{Benchmarker, StoreError};
use benchmarker::store::Store;

#[test]
fn benchmarker() {
    let mut store = Store::missing();
    let b = Benchmarker::new_from_path(String::from("bench.csv"), &mut store);
    let r: Result<(), String> = b.bench(&mut store, "test_fun", || {
        let _total: u32 = (0..10000).sum();
        Ok(())
    });
    assert!(r.is_ok());
    assert!(store.created);
}

#[test]
fn header_written_once_over_repeated_constructions() {
    let mut store = Store::missing();
    let _b1 = Benchmarker::new_from_path(String::from("bench.csv"), &mut store);
    let _b2 = Benchmarker::new_from_path(String::from("bench.csv"), &mut store);
    let _b3 = Benchmarker::new_from_path(String::from("bench.csv"), &mut store);
    assert_eq!(store.rows.len(), 1);
    assert_eq!(store.rows[0].name, "name");
    assert_eq!(store.rows[0].time, "time");
    assert_eq!(store.bytes, b"name,time\n".to_vec());
}

#[test]
fn existing_store_left_untouched() {
    let mut store = Store::existing();
    let _b = Benchmarker::new_from_path(String::from("bench.csv"), &mut store);
    assert_eq!(store.rows.len(), 0);
    assert_eq!(store.bytes, Vec::<u8>::new());
}

#[test]
fn row_count_is_one_header_plus_k_rows() {
    let mut store = Store::missing();
    let b = Benchmarker::new_from_path(String::from("bench.csv"), &mut store);
    for i in 0..3u128 {
        b.write_to_csv(&mut store, "op", i).unwrap();
    }
    assert_eq!(store.rows.len(), 4);
}

#[test]
fn failed_work_leaves_no_trace() {
    let mut store = Store::missing();
    let b = Benchmarker::new_from_path(String::from("bench.csv"), &mut store);
    let rows_before = store.rows.len();
    let bytes_before = store.bytes.len();
    let r: Result<u32, String> = b.bench(&mut store, "broken", || Err(String::from("boom")));
    assert_eq!(r, Err(String::from("boom")));
    assert_eq!(store.rows.len(), rows_before);
    assert_eq!(store.bytes.len(), bytes_before);
}

#[test]
fn prefix_is_joined_with_a_dash() {
    let mut store = Store::missing();
    let b = Benchmarker::new_from_path(String::from("bench.csv"), &mut store);
    let bp = b.with_prefix("p");
    let r: Result<(), String> = bp.bench(&mut store, "name", || Ok(()));
    assert!(r.is_ok());
    assert_eq!(store.rows[1].name, "p-name");
    // The underived recorder is unaffected: its prefix is still empty.
    let r2: Result<(), String> = b.bench(&mut store, "name", || Ok(()));
    assert!(r2.is_ok());
    assert_eq!(store.rows[2].name, "name");
}

#[test]
fn elapsed_is_a_small_nonnegative_integer() {
    let mut store = Store::missing();
    let b = Benchmarker::new_from_path(String::from("bench.csv"), &mut store);
    let r: Result<(), String> = b.bench(&mut store, "noop", || Ok(()));
    assert!(r.is_ok());
    let time = &store.rows[1].time;
    assert!(time.chars().all(|c| c.is_ascii_digit()));
    let value: u128 = time.parse().unwrap();
    assert!(value < 1000);
}

#[test]
fn rows_appear_in_append_order() {
    let mut store = Store::missing();
    let b = Benchmarker::new_from_path(String::from("bench.csv"), &mut store);
    for name in ["a", "b", "c"] {
        let r: Result<(), String> = b.bench(&mut store, name, || Ok(()));
        assert!(r.is_ok());
    }
    assert_eq!(store.rows.len(), 4);
    assert_eq!(store.rows[1].name, "a");
    assert_eq!(store.rows[2].name, "b");
    assert_eq!(store.rows[3].name, "c");
}

#[test]
fn end_to_end_sum_scenario() {
    let mut store = Store::missing();
    let b = Benchmarker::new_from_path(String::from("bench.csv"), &mut store);
    let r: Result<u32, String> = b.bench(&mut store, "sum", || {
        let total: u32 = (0..10000).sum();
        Ok(total)
    });
    assert_eq!(r, Ok(49995000));
    assert!(store.created);
    assert_eq!(store.rows.len(), 2);
    assert_eq!(store.rows[0].name, "name");
    assert_eq!(store.rows[0].time, "time");
    assert_eq!(store.rows[1].name, "sum");
    let elapsed: u128 = store.rows[1].time.parse().unwrap();
    assert!(elapsed < 1000);
    let expected = format!("name,time\nsum,{}\n", store.rows[1].time);
    assert_eq!(store.bytes, expected.into_bytes());
}

#[test]
fn elapsed_values_are_rendered_in_decimal() {
    let mut store = Store::missing();
    let b = Benchmarker::new_from_path(String::from("bench.csv"), &mut store);
    b.write_to_csv(&mut store, "zero", 0).unwrap();
    b.write_to_csv(&mut store, "plain", 12345).unwrap();
    b.write_to_csv(&mut store, "huge", u128::MAX).unwrap();
    assert_eq!(store.rows[1].time, "0");
    assert_eq!(store.rows[2].time, "12345");
    assert_eq!(store.rows[3].time, "340282366920938463463374607431768211455");
}

#[test]
fn recording_against_a_missing_store_fails() {
    let mut store = Store::missing();
    let b = Benchmarker {
        csv_path: String::from("bench.csv"),
        prefix: String::new(),
    };
    let r = b.write_to_csv(&mut store, "op", 5);
    assert_eq!(r, Err(StoreError::Missing));
    assert_eq!(store.rows.len(), 0);
    assert_eq!(store.bytes.len(), 0);
}

#[test]
fn names_needing_escapes_are_quoted_in_the_image() {
    let mut store = Store::missing();
    let b = Benchmarker::new_from_path(String::from("bench.csv"), &mut store);
    b.write_to_csv(&mut store, "a,b", 5).unwrap();
    b.write_to_csv(&mut store, "say \"hi\"", 6).unwrap();
    // The rows keep the raw names; the persisted image quotes them.
    assert_eq!(store.rows[1].name, "a,b");
    assert_eq!(store.rows[2].name, "say \"hi\"");
    let expected = b"name,time\n\"a,b\",5\n\"say \"\"hi\"\"\",6\n".to_vec();
    assert_eq!(store.bytes, expected);
}
