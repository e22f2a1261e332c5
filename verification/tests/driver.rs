use wasi_tests_toml::{artifact_name, trial_name};

#[test]
fn artifact_name_is_what_follows_the_prefix() {
    assert_eq!(
        artifact_name("CARGO_BIN_FILE_WASI_TESTS_BINS_stdout"),
        Some("stdout".to_string())
    );
    assert_eq!(
        artifact_name("CARGO_BIN_FILE_WASI_TESTS_BINS_PRESTAT"),
        Some("PRESTAT".to_string())
    );
    assert_eq!(
        artifact_name("CARGO_BIN_FILE_WASI_TESTS_BINS_r\u{e9}ad_dir"),
        Some("r\u{e9}ad_dir".to_string())
    );
}

#[test]
fn artifact_name_may_be_empty() {
    assert_eq!(artifact_name("CARGO_BIN_FILE_WASI_TESTS_BINS_"), Some(String::new()));
}

#[test]
fn other_keys_name_no_artifact() {
    assert_eq!(artifact_name(""), None);
    assert_eq!(artifact_name("PATH"), None);
    assert_eq!(artifact_name("CARGO_BIN_FILE_WASI_TESTS_BINS"), None);
    assert_eq!(artifact_name("CARGO_BIN_FILE_WASI_TESTS_BINT_stdout"), None);
    assert_eq!(artifact_name("cargo_bin_file_wasi_tests_bins_stdout"), None);
    assert_eq!(artifact_name(" CARGO_BIN_FILE_WASI_TESTS_BINS_stdout"), None);
    assert_eq!(artifact_name("\u{e9}ARGO_BIN_FILE_WASI_TESTS_BINS_stdout"), None);
}

#[test]
fn trial_name_joins_group_and_artifact() {
    assert_eq!(trial_name("all", "stdout"), "all::stdout");
    assert_eq!(trial_name("", ""), "::");
    assert_eq!(trial_name("a::b", "c"), "a::b::c");
}
