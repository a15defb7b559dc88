use datawrangler::args::Args;
use datawrangler::load::{classify_extension, derive_table_name, split_extension, table_name, FileFormat};

#[test]
fn known_extensions_route_to_their_reader() {
    assert_eq!(classify_extension("csv"), Some(FileFormat::Csv));
    assert_eq!(classify_extension("parquet"), Some(FileFormat::Parquet));
}

#[test]
fn unknown_extensions_are_unsupported() {
    assert_eq!(classify_extension("txt"), None);
    assert_eq!(classify_extension(""), None);
    // the match is case-sensitive
    assert_eq!(classify_extension("CSV"), None);
}

#[test]
fn split_at_last_dot() {
    assert_eq!(split_extension("data.csv"), Some(("data".to_string(), "csv".to_string())));
    assert_eq!(split_extension("a.b.c"), Some(("a.b".to_string(), "c".to_string())));
    assert_eq!(split_extension(".hidden"), Some(("".to_string(), "hidden".to_string())));
    assert_eq!(split_extension("trailing."), Some(("trailing".to_string(), "".to_string())));
}

#[test]
fn no_dot_means_no_extension() {
    assert_eq!(split_extension("noext"), None);
    assert_eq!(split_extension(""), None);
}

#[test]
fn derived_name_replaces_dots() {
    assert_eq!(derive_table_name("data.csv"), "data_csv");
    assert_eq!(derive_table_name("a.b.c"), "a_b_c");
    assert_eq!(derive_table_name("plain"), "plain");
}

#[test]
fn explicit_table_name_wins() {
    assert_eq!(table_name(Some("t1"), "data.csv"), "t1");
    assert_eq!(table_name(None, "data.csv"), "data_csv");
}

#[test]
fn args_hand_back_their_values() {
    let a = Args::new(true, "data.csv".to_string());
    assert!(a.no_header());
    assert_eq!(a.file(), "data.csv");
    let b = Args::new(false, "x".to_string());
    assert!(!b.no_header());
}
