use distributed_wasm_runtime::cli::job_name;

#[test]
fn given_name_is_kept() {
    assert_eq!(job_name(Some("nightly".to_string()), "src/main.rs"), "nightly");
    assert_eq!(job_name(Some(String::new()), "src/main.rs"), "");
}

#[test]
fn given_name_is_kept_whatever_the_path() {
    assert_eq!(job_name(Some("nightly".to_string()), ""), "nightly");
    assert_eq!(job_name(Some("nightly".to_string()), "a"), "nightly");
}

#[test]
fn default_name_drops_the_last_two_characters_of_the_path() {
    assert_eq!(job_name(None, "main.rs"), "main.");
    assert_eq!(job_name(None, "jobs/fib.rs"), "jobs/fib.");
    assert_eq!(job_name(None, "ab"), "");
    assert_eq!(job_name(None, "abc"), "a");
}

#[test]
fn default_name_counts_bytes_off_in_characters() {
    // Five characters in seven bytes: five places are kept, which is all of them.
    assert_eq!(job_name(None, "é.rsé"), "é.rsé");
    // Four characters in five bytes: three places are kept.
    assert_eq!(job_name(None, "é.rs"), "é.r");
}
