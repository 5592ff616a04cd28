use metatube_cli::error::{IoError, IoKind, ProcessError as Error};

#[test]
fn test_display_id_extraction() {
    let e = Error::IdExtraction("bad_file.txt".into());
    assert_eq!(
        e.message(),
        "Failed to extract ID from filename: bad_file.txt"
    );
}

#[test]
fn test_display_no_results() {
    let e = Error::NoResults("ABC-123".into());
    assert_eq!(e.message(), "No search results for: ABC-123");
}

#[test]
fn test_display_api_error() {
    let e = Error::Api {
        code: 404,
        message: "Not Found".into(),
    };
    assert_eq!(e.message(), "API error (404): Not Found");
}

#[test]
fn test_display_file_not_found() {
    let e = Error::FileNotFound("/tmp/missing.mp4".into());
    assert_eq!(e.message(), "File not found: /tmp/missing.mp4");
}

#[test]
fn test_display_move_failed() {
    let e = Error::MoveFailed {
        src: "/src/a.mp4".into(),
        dst: "/dst/a.mp4".into(),
        reason: "permission denied".into(),
    };
    assert_eq!(
        e.message(),
        "Move failed: /src/a.mp4 -> /dst/a.mp4: permission denied"
    );
}

#[test]
fn test_display_no_movie_info() {
    let e = Error::NoMovieInfo {
        provider: "fanza".into(),
        id: "ssis00123".into(),
    };
    assert_eq!(e.message(), "No movie info found for: fanza/ssis00123");
}

#[test]
fn test_display_client_init() {
    let e = Error::ClientInit("bad proxy".into());
    assert_eq!(e.message(), "Client initialization error: bad proxy");
}

#[test]
fn test_error_type() {
    assert_eq!(
        Error::Io(IoError { kind: IoKind::Other, message: "".into() }).error_type(),
        "Io"
    );
    assert_eq!(Error::ClientInit("x".into()).error_type(), "ClientInit");
    assert_eq!(
        Error::Api {
            code: 500,
            message: "x".into()
        }
        .error_type(),
        "Api"
    );
    assert_eq!(Error::NoResults("x".into()).error_type(), "NoResults");
    assert_eq!(
        Error::NoMovieInfo {
            provider: "x".into(),
            id: "x".into()
        }
        .error_type(),
        "NoMovieInfo"
    );
    assert_eq!(Error::IdExtraction("x".into()).error_type(), "IdExtraction");
    assert_eq!(
        Error::FileNotFound("x".into()).error_type(),
        "FileNotFound"
    );
    assert_eq!(
        Error::MoveFailed {
            src: "a".into(),
            dst: "b".into(),
            reason: "x".into()
        }
        .error_type(),
        "MoveFailed"
    );
}

#[test]
fn test_is_retryable_api_5xx() {
    assert!(Error::Api {
        code: 500,
        message: "Internal Server Error".into()
    }
    .is_retryable());
    assert!(Error::Api {
        code: 502,
        message: "Bad Gateway".into()
    }
    .is_retryable());
    assert!(Error::Api {
        code: 503,
        message: "Service Unavailable".into()
    }
    .is_retryable());
}

#[test]
fn test_is_retryable_api_4xx_not_retryable() {
    assert!(!Error::Api {
        code: 400,
        message: "Bad Request".into()
    }
    .is_retryable());
    assert!(!Error::Api {
        code: 401,
        message: "Unauthorized".into()
    }
    .is_retryable());
    assert!(!Error::Api {
        code: 404,
        message: "Not Found".into()
    }
    .is_retryable());
}

#[test]
fn test_is_retryable_io_permission() {
    assert!(Error::Io(IoError { kind: IoKind::PermissionDenied, message: "permission denied".into() })
    .is_retryable());
}

#[test]
fn test_is_retryable_io_nospace() {
    assert!(Error::Io(IoError { kind: IoKind::Other, message: "no space left on device".into() })
    .is_retryable());
}

#[test]
fn test_is_retryable_io_notfound_not_retryable() {
    assert!(!Error::Io(IoError { kind: IoKind::NotFound, message: "file not found".into() })
    .is_retryable());
}

#[test]
fn test_is_retryable_move_failed_permission() {
    assert!(Error::MoveFailed {
        src: "a".into(),
        dst: "b".into(),
        reason: "Permission denied".into()
    }
    .is_retryable());
    assert!(Error::MoveFailed {
        src: "a".into(),
        dst: "b".into(),
        reason: "Access is denied".into()
    }
    .is_retryable());
}

#[test]
fn test_is_retryable_move_failed_cross_device() {
    assert!(Error::MoveFailed {
        src: "a".into(),
        dst: "b".into(),
        reason: "Invalid cross-device link".into()
    }
    .is_retryable());
}

#[test]
fn test_is_retryable_non_retryable_errors() {
    assert!(!Error::IdExtraction("x".into()).is_retryable());
    assert!(!Error::NoResults("x".into()).is_retryable());
    assert!(!Error::NoMovieInfo {
        provider: "x".into(),
        id: "x".into()
    }
    .is_retryable());
}

#[test]
fn test_is_retryable_client_init() {
    assert!(Error::ClientInit("bad proxy config".into()).is_retryable());
}

#[test]
fn test_is_retryable_file_not_found() {
    assert!(Error::FileNotFound("missing.mp4".into()).is_retryable());
}
