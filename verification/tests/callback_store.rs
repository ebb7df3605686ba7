use mpesa_dev::callback_store::{
    dir, new_stored_file_name, newest_first, resolve, stored_file_name, summarize, NameProbes, Resolution,
    StoredCallback, UtcTime,
};
use mpesa_dev::error::Error;

fn probes(direct: bool, in_store: bool, has_ext: bool, json: bool) -> NameProbes {
    NameProbes {
        direct_is_file: direct,
        in_store_is_file: in_store,
        in_store_has_extension: has_ext,
        in_store_json_is_file: json,
    }
}

fn message(r: Result<Resolution, Error>) -> String {
    match r {
        Err(Error::Config(m)) => m,
        other => panic!("expected a config error, got {other:?}"),
    }
}

#[test]
fn indexes_are_one_based() {
    let none = probes(false, false, false, false);
    assert_eq!(resolve("1", 3, &none).unwrap(), Resolution::Stored(0));
    assert_eq!(resolve("3", 3, &none).unwrap(), Resolution::Stored(2));
    assert_eq!(
        message(resolve("0", 3, &none)),
        "stored callbacks are 1-indexed; try `mpesa-dev replay 1`"
    );
    assert_eq!(
        message(resolve("4", 3, &none)),
        "no stored callback #4; run `mpesa-dev replay` with no arguments to see what's available"
    );
}

#[test]
fn names_resolve_in_order() {
    assert_eq!(resolve("cb.json", 0, &probes(true, true, true, false)).unwrap(), Resolution::Direct);
    assert_eq!(resolve("cb.json", 0, &probes(false, true, true, false)).unwrap(), Resolution::InStore);
    assert_eq!(resolve("cb", 0, &probes(false, false, false, true)).unwrap(), Resolution::InStoreJson);
    assert_eq!(
        message(resolve("cb.txt", 0, &probes(false, false, true, true))),
        "no stored callback matching 'cb.txt'; run `mpesa-dev replay` with no arguments to see what's available"
    );
}

#[test]
fn summaries() {
    assert_eq!(summarize(StoredCallback::Unreadable), "(unreadable)");
    assert_eq!(summarize(StoredCallback::Unrecognized), "(not a recognized STK callback shape)");
    assert_eq!(
        summarize(StoredCallback::Stk(1032)),
        "ResultCode 1032: Cancelled — the customer pressed cancel on the STK prompt"
    );
    assert_eq!(summarize(StoredCallback::Stk(0)), "ResultCode 0: Success — the transaction completed");
}

#[test]
fn file_names() {
    assert_eq!(dir(), "callbacks");
    assert_eq!(
        stored_file_name("20260728-153245", Some(0), "a1b2c3d4"),
        "20260728-153245_rc0_a1b2c3d4.json"
    );
    assert_eq!(stored_file_name("20260728-153245", None, "zz"), "20260728-153245_raw_zz.json");
    assert_eq!(stored_file_name("t", Some(-5), "x"), "t_rc-5_x.json");
    let t = UtcTime { year: 2026, month: 7, day: 28, hour: 15, minute: 32, second: 45 };
    let name = new_stored_file_name(&t, Some(1037));
    assert!(name.starts_with("20260728-153245_rc1037_"), "{name}");
    assert!(name.ends_with(".json"));
    assert_eq!(name.len(), "20260728-153245_rc1037_".len() + 8 + ".json".len());
}

#[test]
fn listing_is_newest_first_and_json_only() {
    let early = UtcTime { year: 999, month: 12, day: 31, hour: 23, minute: 59, second: 59 };
    let early_name = new_stored_file_name(&early, None);
    assert!(early_name.starts_with("09991231-235959_raw_"), "{early_name}");
    let later = new_stored_file_name(&UtcTime { year: 2026, month: 1, day: 1, hour: 0, minute: 0, second: 0 }, Some(0));
    assert_eq!(newest_first(&vec![early_name.clone(), later.clone()]), vec![later, early_name]);
    let names: Vec<String> = [
        "20260101-000000_rc0_aaaaaaaa.json",
        "notes.txt",
        "20261231-235959_raw_bbbbbbbb.json",
        ".json",
        "20260615-120000_rc1032_cccccccc.json",
        "x.JSON",
    ]
    .iter()
    .map(|s| s.to_string())
    .collect();
    assert_eq!(
        newest_first(&names),
        vec![
            "20261231-235959_raw_bbbbbbbb.json".to_string(),
            "20260615-120000_rc1032_cccccccc.json".to_string(),
            "20260101-000000_rc0_aaaaaaaa.json".to_string(),
        ]
    );
    assert!(newest_first(&Vec::new()).is_empty());
}

#[test]
fn later_captures_list_first() {
    let older = stored_file_name("20260728-153245", Some(1032), "zzzzzzzz");
    let newer = stored_file_name("20260728-153246", None, "00000000");
    assert_eq!(newest_first(&vec![older.clone(), newer.clone()]), vec![newer, older]);
}

#[test]
fn years_beyond_four_digits_carry_a_sign() {
    let far = UtcTime { year: 10000, month: 1, day: 2, hour: 3, minute: 4, second: 5 };
    let name = new_stored_file_name(&far, None);
    assert!(name.starts_with("+100000102-030405_raw_"), "{name}");
    let before_zero = UtcTime { year: -1, month: 12, day: 31, hour: 0, minute: 0, second: 0 };
    let name = new_stored_file_name(&before_zero, Some(1));
    assert!(name.starts_with("-00011231-000000_rc1_"), "{name}");
    let year_zero = UtcTime { year: 0, month: 2, day: 29, hour: 0, minute: 0, second: 1 };
    let name = new_stored_file_name(&year_zero, None);
    assert!(name.starts_with("00000229-000001_raw_"), "{name}");
}
