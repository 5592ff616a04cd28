//! Which files count as videos to process.

use vstd::prelude::*;
use crate::text::{lowercase, str_eq, to_lowercase};

verus! {

/// The recognised video extensions (lowercase).
pub const VIDEO_EXTENSIONS: [&'static str; 8] = ["mp4", "mkv", "avi", "wmv", "flv", "ts", "mov", "webm"];

/// A video found on disk.
#[derive(Debug, Clone)]
pub struct VideoFile {
    pub path: String,
    pub size: u64,
    pub filename: String,
}

/// Whether a lowercase extension is one of the recognised video extensions.
pub open spec fn is_video_ext(ext: Seq<char>) -> bool {
    exists|i: int| 0 <= i < 8 && #[trigger] VIDEO_EXTENSIONS[i]@ == ext
}

/// Whether a file extension names a video, in any letter case.
pub fn is_video_extension(ext: &str) -> (r: bool)
    ensures
        r == is_video_ext(lowercase(ext@)),
{
    let l = to_lowercase(ext);
    let mut i: usize = 0;
    while i < 8
        invariant
            l@ == lowercase(ext@),
            i <= 8,
            forall|k: int| 0 <= k < i ==> VIDEO_EXTENSIONS[k]@ != l@,
        decreases 8 - i,
    {
        if str_eq(VIDEO_EXTENSIONS[i], l.as_str()) {
            return true;
        }
        i = i + 1;
    }
    false
}

/// Whether a file is a video to process: it has a video extension and is at
/// least `min_size` bytes long.
pub open spec fn is_candidate_spec(ext: Option<Seq<char>>, size: u64, min_size: u64) -> bool {
    match ext {
        Some(e) => is_video_ext(lowercase(e)) && size >= min_size,
        None => false,
    }
}

/// Decides whether a file is a video to process.
pub fn is_candidate(ext: Option<&str>, size: u64, min_size: u64) -> (r: bool)
    ensures
        r == is_candidate_spec(
            match ext {
                Some(e) => Some(e@),
                None => None,
            },
            size,
            min_size,
        ),
{
    match ext {
        Some(e) => is_video_extension(e) && size >= min_size,
        None => false,
    }
}

/// Whether a file seen by the watcher has settled: it can still be read and
/// its size is the one first seen.
pub fn size_settled(initial_size: u64, current_size: Option<u64>) -> (r: bool)
    ensures
        r == (current_size == Some(initial_size)),
{
    match current_size {
        Some(n) => n == initial_size,
        None => false,
    }
}

} // verus!
