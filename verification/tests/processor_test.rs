use metatube_cli::processor::archive_wanted;
use metatube_cli::error::ProcessError;
use metatube_cli::processor::{
    actress_group_dir, describe_failure, failure_record, make_subdir_name, needs_copy_fallback,
    parse_u16, plan_destination, recognize_number, should_retry_record, standard_filename,
    FailedRecord,
};

#[test]
fn test_should_retry_record_http() {
    let record = FailedRecord {
        error_type: "Http".into(),
        reason: "timeout".into(),
        number: None,
        file_path: "/tmp/test.mp4".into(),
        timestamp: "2024-01-01T00:00:00Z".into(),
    };
    assert!(should_retry_record(&record));
}

#[test]
fn test_should_retry_record_client_init() {
    let record = FailedRecord {
        error_type: "ClientInit".into(),
        reason: "bad proxy".into(),
        number: None,
        file_path: "/tmp/test.mp4".into(),
        timestamp: "2024-01-01T00:00:00Z".into(),
    };
    assert!(should_retry_record(&record));
}

#[test]
fn test_should_retry_record_file_not_found() {
    let record = FailedRecord {
        error_type: "FileNotFound".into(),
        reason: "missing file".into(),
        number: None,
        file_path: "/tmp/test.mp4".into(),
        timestamp: "2024-01-01T00:00:00Z".into(),
    };
    assert!(should_retry_record(&record));
}

#[test]
fn test_should_retry_record_api_5xx() {
    let record = FailedRecord {
        error_type: "Api".into(),
        reason: "500".into(),
        number: None,
        file_path: "/tmp/test.mp4".into(),
        timestamp: "2024-01-01T00:00:00Z".into(),
    };
    assert!(should_retry_record(&record));
}

#[test]
fn test_should_retry_record_api_4xx_not_retryable() {
    let record = FailedRecord {
        error_type: "Api".into(),
        reason: "404".into(),
        number: None,
        file_path: "/tmp/test.mp4".into(),
        timestamp: "2024-01-01T00:00:00Z".into(),
    };
    assert!(!should_retry_record(&record));
}

#[test]
fn test_should_retry_record_io_permission() {
    let record = FailedRecord {
        error_type: "Io".into(),
        reason: "permission denied".into(),
        number: None,
        file_path: "/tmp/test.mp4".into(),
        timestamp: "2024-01-01T00:00:00Z".into(),
    };
    assert!(should_retry_record(&record));
}

#[test]
fn test_should_retry_record_io_no_space() {
    let record = FailedRecord {
        error_type: "Io".into(),
        reason: "No space left on device".into(),
        number: None,
        file_path: "/tmp/test.mp4".into(),
        timestamp: "2024-01-01T00:00:00Z".into(),
    };
    assert!(should_retry_record(&record));
}

#[test]
fn test_should_retry_record_move_failed_permission() {
    let record = FailedRecord {
        error_type: "MoveFailed".into(),
        reason: "Access is denied".into(),
        number: None,
        file_path: "/tmp/test.mp4".into(),
        timestamp: "2024-01-01T00:00:00Z".into(),
    };
    assert!(should_retry_record(&record));
}

#[test]
fn test_should_retry_record_move_failed_cross_device() {
    let record = FailedRecord {
        error_type: "MoveFailed".into(),
        reason: "Invalid cross-device link".into(),
        number: None,
        file_path: "/tmp/test.mp4".into(),
        timestamp: "2024-01-01T00:00:00Z".into(),
    };
    assert!(should_retry_record(&record));
}

#[test]
fn test_should_retry_record_non_retryable() {
    for (error_type, reason) in [
        ("IdExtraction", "bad filename"),
        ("NoResults", "ABC-123"),
        ("NoMovieInfo", "fanza/ssis00123"),
    ] {
        let record = FailedRecord {
            error_type: error_type.into(),
            reason: reason.into(),
            number: None,
            file_path: "/tmp/test.mp4".into(),
            timestamp: "2024-01-01T00:00:00Z".into(),
        };
        assert!(!should_retry_record(&record));
    }
}

#[test]
fn test_should_retry_record_unknown_not_retryable() {
    let record = FailedRecord {
        error_type: "UnknownError".into(),
        reason: "something went wrong".into(),
        number: None,
        file_path: "/tmp/test.mp4".into(),
        timestamp: "2024-01-01T00:00:00Z".into(),
    };
    assert!(!should_retry_record(&record));
}

#[test]
fn test_make_subdir_name_with_number() {
    assert_eq!(
        make_subdir_name("SSIS-123.mp4", Some("SSIS-123")),
        "SSIS-123"
    );
}

#[test]
fn test_make_subdir_name_without_number() {
    let result = make_subdir_name("bad_file.mp4", None);
    assert!(!result.is_empty());
    assert!(result.len() == 16);
}

#[test]
fn test_make_subdir_name_deterministic() {
    let a = make_subdir_name("same_file.mp4", None);
    let b = make_subdir_name("same_file.mp4", None);
    assert_eq!(a, b);
    let c = make_subdir_name("different.mp4", None);
    assert_ne!(a, c);
}

#[test]
fn test_actress_group_dir_single() {
    let actresses = ["深田えいみ".to_string()];
    assert_eq!(actress_group_dir(&actresses, "1-未知演员"), "深田えいみ");
}

#[test]
fn test_actress_group_dir_multiple() {
    let actresses = ["actress_a".to_string(), "actress_b".to_string()];
    assert_eq!(
        actress_group_dir(&actresses, "1-未知演员"),
        "actress_a,actress_b"
    );
}

#[test]
fn test_actress_group_dir_empty_falls_back_to_unknown() {
    assert_eq!(actress_group_dir(&[], "1-未知演员"), "1-未知演员");
}

#[test]
fn test_standard_filename_censored() {
    assert_eq!(
        standard_filename("SSIS-123", "ssis00123.mp4"),
        "SSIS-123-C.mp4"
    );
}

#[test]
fn test_standard_filename_uncensored() {
    assert_eq!(
        standard_filename("HEYZO-1789", "heyzo-1789.wmv"),
        "HEYZO-1789-UC.wmv"
    );
}

#[test]
fn test_standard_filename_no_extension() {
    assert_eq!(standard_filename("ABP-030", "ABP-030"), "ABP-030-C.mp4");
}

#[test]
fn parse_u16_like_std() {
    for s in ["0", "500", "+7", "65535", "65536", "", "+", "-1", "5a", " 5", "007", "99999999"] {
        assert_eq!(parse_u16(s), s.parse::<u16>().ok(), "{:?}", s);
    }
}

#[test]
fn api_reason_text_mentions_server_error() {
    let mk = |reason: &str| FailedRecord {
        error_type: "Api".into(),
        reason: reason.into(),
        number: None,
        file_path: "/tmp/test.mp4".into(),
        timestamp: "2024-01-01T00:00:00Z".into(),
    };
    assert!(should_retry_record(&mk("API error (503): busy")));
    assert!(!should_retry_record(&mk("API error (404): Not Found")));
    assert!(should_retry_record(&mk("+502")));
    assert!(!should_retry_record(&mk("499")));
}

#[test]
fn move_failed_not_same_device_is_retried() {
    let record = FailedRecord {
        error_type: "MoveFailed".into(),
        reason: "Not Same Device".into(),
        number: None,
        file_path: "/tmp/test.mp4".into(),
        timestamp: "2024-01-01T00:00:00Z".into(),
    };
    assert!(should_retry_record(&record));
}

#[test]
fn subdir_name_is_lowercase_hex() {
    let s = make_subdir_name("x.mp4", None);
    assert!(s.chars().all(|c| c.is_ascii_hexdigit() && !c.is_ascii_uppercase()));
}

#[test]
fn recognize_number_and_plan_destination() {
    assert_eq!(recognize_number("[98t.tv]vema-181-4k-C.mp4").unwrap(), "vema-181");
    match recognize_number("") {
        Err(ProcessError::IdExtraction(f)) => assert_eq!(f, ""),
        other => panic!("unexpected {:?}", other),
    }
    let d = plan_destination(&["a".to_string(), "b".to_string()], "1-未知演员", "SSIS-123", "ssis00123.mkv");
    assert_eq!(d.group_dir, "a,b");
    assert_eq!(d.movie_dir, "SSIS-123");
    assert_eq!(d.file_name, "SSIS-123-C.mkv");
    let u = plan_destination(&[], "1-未知演员", "HEYZO-1789", "x");
    assert_eq!(u.group_dir, "1-未知演员");
    assert_eq!(u.file_name, "HEYZO-1789-UC.mp4");
}

#[test]
fn copy_fallback_on_cross_device_errors() {
    assert!(needs_copy_fallback("Invalid cross-device link (os error 18)"));
    assert!(needs_copy_fallback("The system cannot move the file to a different disk drive: NOT SAME DEVICE"));
    assert!(!needs_copy_fallback("Permission denied (os error 13)"));
}

#[test]
fn failure_records_use_number_or_hash() {
    let e = ProcessError::Api { code: 500, message: "Internal".into() };
    let (t, r) = describe_failure(Some(&e), "ignored");
    assert_eq!(t, "Api");
    assert_eq!(r, "API error (500): Internal");
    let (t2, r2) = describe_failure(None, "boom: cause");
    assert_eq!(t2, "Unknown");
    assert_eq!(r2, "boom: cause");

    let (dir, rec) = failure_record("SSIS-123.mp4", "Api", "500", "/d/SSIS-123.mp4", "2024");
    assert_eq!(dir, "SSIS-123");
    assert_eq!(rec.number.as_deref(), Some("SSIS-123"));
    assert_eq!(rec.error_type, "Api");
    let (dir2, rec2) = failure_record("", "Http", "t", "/d/", "2024");
    assert_eq!(dir2.len(), 16);
    assert_eq!(dir2, make_subdir_name("", None));
    assert!(rec2.number.is_none());
}

#[test]
fn failures_are_archived_only_outside_dry_runs_while_present() {
    assert!(archive_wanted(false, true));
    assert!(!archive_wanted(true, true));
    assert!(!archive_wanted(false, false));
}
