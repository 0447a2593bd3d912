//! A single captured clipboard snapshot: its text and the moment of capture.

use vstd::prelude::*;

verus! {

/// One clipboard history entry. `content` is the dedup key (exact,
/// case-sensitive); `timestamp` is the capture time in seconds since the
/// Unix epoch, kept only for display purposes and never used by the
/// store's logic.
pub struct ClipEntry {
    pub content: String,
    pub timestamp: u64,
}

/// Relies on `std::time::SystemTime::now` for the capture timestamp; the
/// conversion to whole seconds since the Unix epoch falls back to zero for
/// a pre-epoch clock. The result depends on the wall clock, so nothing is
/// promised of it.
#[verifier::external_body]
fn now_unix_seconds() -> u64 {
    std::time::SystemTime::now()
        .duration_since(std::time::UNIX_EPOCH)
        .map(|d| d.as_secs())
        .unwrap_or(0)
}

impl ClipEntry {
    /// Builds an entry for `content`, stamped with the current time.
    pub fn new(content: String) -> (r: Self)
        ensures
            r.content@ == content@,
    {
        ClipEntry { content, timestamp: now_unix_seconds() }
    }
}

impl Clone for ClipEntry {
    fn clone(&self) -> (r: Self)
        ensures
            r == *self,
    {
        ClipEntry { content: self.content.clone(), timestamp: self.timestamp }
    }
}

} // verus!
