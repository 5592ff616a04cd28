//! The errors of processing one video, their short type names, their
//! messages, and whether a later run should retry them.

use vstd::prelude::*;
use crate::digits::{decimal, decimal_string};
use crate::text::{lowercase, push_all, seq_contains, str_contains, to_lowercase};

verus! {

/// The kind of an I/O failure, as far as the retry rules tell kinds apart.
#[derive(Debug, Clone, Copy, PartialEq, Eq, Structural)]
pub enum IoKind {
    NotFound,
    PermissionDenied,
    /// `std::io::ErrorKind::Other`.
    Other,
    /// Any other kind.
    Unlisted,
}

/// An I/O failure: its kind and its message.
#[derive(Debug, Clone)]
pub struct IoError {
    pub kind: IoKind,
    pub message: String,
}

/// Why processing a video failed.
#[derive(Debug, Clone)]
pub enum ProcessError {
    Io(IoError),
    /// A transport-level HTTP failure, with its message.
    Http(String),
    ClientInit(String),
    Api { code: u16, message: String },
    NoResults(String),
    NoMovieInfo { provider: String, id: String },
    IdExtraction(String),
    FileNotFound(String),
    MoveFailed { src: String, dst: String, reason: String },
}

/// The short type name recorded for an error.
pub open spec fn error_type_name(e: ProcessError) -> Seq<char> {
    match e {
        ProcessError::Io(_) => "Io"@,
        ProcessError::Http(_) => "Http"@,
        ProcessError::ClientInit(_) => "ClientInit"@,
        ProcessError::Api { .. } => "Api"@,
        ProcessError::NoResults(_) => "NoResults"@,
        ProcessError::NoMovieInfo { .. } => "NoMovieInfo"@,
        ProcessError::IdExtraction(_) => "IdExtraction"@,
        ProcessError::FileNotFound(_) => "FileNotFound"@,
        ProcessError::MoveFailed { .. } => "MoveFailed"@,
    }
}

/// Whether a failure is transient: I/O permission or full-disk problems,
/// transport failures, client set-up, server-side (5xx) API errors, missing
/// files, and moves refused for permission or across devices.
pub open spec fn retryable(e: ProcessError) -> bool {
    match e {
        ProcessError::Io(io) => io.kind == IoKind::PermissionDenied || (io.kind == IoKind::Other
            && seq_contains(lowercase(io.message@), "no space"@)),
        ProcessError::Http(_) => true,
        ProcessError::ClientInit(_) => true,
        ProcessError::Api { code, .. } => code >= 500,
        ProcessError::NoResults(_) => false,
        ProcessError::NoMovieInfo { .. } => false,
        ProcessError::IdExtraction(_) => false,
        ProcessError::FileNotFound(_) => true,
        ProcessError::MoveFailed { reason, .. } => {
            let r = lowercase(reason@);
            seq_contains(r, "permission denied"@) || seq_contains(r, "access is denied"@)
                || seq_contains(r, "cross-device"@)
        },
    }
}

/// The human-readable message of an error.
pub open spec fn message_text(e: ProcessError) -> Seq<char> {
    match e {
        ProcessError::Io(io) => "IO error: "@ + io.message@,
        ProcessError::Http(m) => "HTTP error: "@ + m@,
        ProcessError::ClientInit(m) => "Client initialization error: "@ + m@,
        ProcessError::Api { code, message } => "API error ("@ + decimal(code as nat) + "): "@
            + message@,
        ProcessError::NoResults(k) => "No search results for: "@ + k@,
        ProcessError::NoMovieInfo { provider, id } => "No movie info found for: "@ + provider@ + "/"@
            + id@,
        ProcessError::IdExtraction(f) => "Failed to extract ID from filename: "@ + f@,
        ProcessError::FileNotFound(p) => "File not found: "@ + p@,
        ProcessError::MoveFailed { src, dst, reason } => "Move failed: "@ + src@ + " -> "@ + dst@
            + ": "@ + reason@,
    }
}

impl ProcessError {
    /// The short type name of this error.
    pub fn error_type(&self) -> (r: &'static str)
        ensures
            r@ == error_type_name(*self),
    {
        match self {
            ProcessError::Io(_) => "Io",
            ProcessError::Http(_) => "Http",
            ProcessError::ClientInit(_) => "ClientInit",
            ProcessError::Api { .. } => "Api",
            ProcessError::NoResults(_) => "NoResults",
            ProcessError::NoMovieInfo { .. } => "NoMovieInfo",
            ProcessError::IdExtraction(_) => "IdExtraction",
            ProcessError::FileNotFound(_) => "FileNotFound",
            ProcessError::MoveFailed { .. } => "MoveFailed",
        }
    }

    /// Whether a later run should try this video again.
    pub fn is_retryable(&self) -> (r: bool)
        ensures
            r == retryable(*self),
    {
        match self {
            ProcessError::Io(io) => {
                match io.kind {
                    IoKind::PermissionDenied => true,
                    IoKind::Other => {
                        let l = to_lowercase(io.message.as_str());
                        str_contains(l.as_str(), "no space")
                    },
                    _ => false,
                }
            },
            ProcessError::Http(_) => true,
            ProcessError::ClientInit(_) => true,
            ProcessError::Api { code, .. } => *code >= 500,
            ProcessError::NoResults(_) => false,
            ProcessError::NoMovieInfo { .. } => false,
            ProcessError::IdExtraction(_) => false,
            ProcessError::FileNotFound(_) => true,
            ProcessError::MoveFailed { reason, .. } => {
                let r = to_lowercase(reason.as_str());
                str_contains(r.as_str(), "permission denied") || str_contains(
                    r.as_str(),
                    "access is denied",
                ) || str_contains(r.as_str(), "cross-device")
            },
        }
    }

    /// The human-readable message of this error.
    pub fn message(&self) -> (r: String)
        ensures
            r@ == message_text(*self),
    {
        let mut s = String::new();
        match self {
            ProcessError::Io(io) => {
                push_all(&mut s, "IO error: ");
                push_all(&mut s, io.message.as_str());
            },
            ProcessError::Http(m) => {
                push_all(&mut s, "HTTP error: ");
                push_all(&mut s, m.as_str());
            },
            ProcessError::ClientInit(m) => {
                push_all(&mut s, "Client initialization error: ");
                push_all(&mut s, m.as_str());
            },
            ProcessError::Api { code, message } => {
                push_all(&mut s, "API error (");
                let c = decimal_string(*code as u64);
                push_all(&mut s, c.as_str());
                push_all(&mut s, "): ");
                push_all(&mut s, message.as_str());
            },
            ProcessError::NoResults(k) => {
                push_all(&mut s, "No search results for: ");
                push_all(&mut s, k.as_str());
            },
            ProcessError::NoMovieInfo { provider, id } => {
                push_all(&mut s, "No movie info found for: ");
                push_all(&mut s, provider.as_str());
                push_all(&mut s, "/");
                push_all(&mut s, id.as_str());
            },
            ProcessError::IdExtraction(f) => {
                push_all(&mut s, "Failed to extract ID from filename: ");
                push_all(&mut s, f.as_str());
            },
            ProcessError::FileNotFound(p) => {
                push_all(&mut s, "File not found: ");
                push_all(&mut s, p.as_str());
            },
            ProcessError::MoveFailed { src, dst, reason } => {
                push_all(&mut s, "Move failed: ");
                push_all(&mut s, src.as_str());
                push_all(&mut s, " -> ");
                push_all(&mut s, dst.as_str());
                push_all(&mut s, ": ");
                push_all(&mut s, reason.as_str());
            },
        }
        assert(s@ =~= message_text(*self));
        s
    }
}

} // verus!
