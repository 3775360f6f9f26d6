use maknae_kernel::classification::{names, select, SYSTEM_NAMES};

#[test]
fn the_kernel_ships_us_first_and_names_are_unique() {
    let n = names();
    assert_eq!(n, vec!["US", "AUS"]);
    let mut sorted = n.clone();
    sorted.sort_unstable();
    sorted.dedup();
    assert_eq!(
        sorted.len(),
        n.len(),
        "a duplicate name would make selection ambiguous"
    );
}

#[test]
fn selection_is_by_name_case_insensitive_and_trimmed() {
    for (raw, want) in [
        ("US", "US"),
        ("us", "US"),
        (" Us ", "US"),
        ("AUS", "AUS"),
        ("aus", "AUS"),
    ] {
        assert_eq!(select(raw), Some(want), "{raw:?}");
    }
    for unknown in ["ROK", "UK", "", "U S", "USA", "AUSS"] {
        assert!(
            select(unknown).is_none(),
            "{unknown:?} must not select a system"
        );
    }
}

#[test]
fn selection_trims_every_kind_of_whitespace() {
    assert_eq!(select("\tAUS\n"), Some("AUS"));
    assert_eq!(select("\u{2003}us\u{3000}"), Some("US"));
    assert_eq!(select("   "), None);
    assert_eq!(SYSTEM_NAMES, ["US", "AUS"]);
}
