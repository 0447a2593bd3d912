//! The monitor: turns polled clipboard readings into history entries,
//! suppressing echoes of its own write-backs, empty readings, unchanged
//! readings, and everything while disabled. The clipboard itself is an
//! external resource: the driving loop performs each read and hands its
//! outcome to `tick`, and performs the write that a copy-back asks for
//! before reporting it through `record_write`.

use vstd::prelude::*;

use crate::entry::ClipEntry;
use crate::store::pushed;
use crate::store::ClipboardStack;

verus! {

/// A clipboard read or write failure at the operating-system boundary.
/// Read failures are swallowed by `tick` (transient hiccups are expected);
/// write failures are surfaced to whoever asked for the copy-back.
pub struct PlatformError {
    pub message: String,
}

/// The text a successful reading carries (empty for a failed one; used
/// only where the reading is known to be a success).
pub open spec fn reading_text(reading: Result<String, PlatformError>) -> Seq<char> {
    match reading {
        Ok(content) => content@,
        Err(_) => Seq::empty(),
    }
}

/// Whether a reading makes `tick` record a new entry: only when the
/// monitor is enabled and the read succeeded with text that is non-empty
/// and differs from the text last seen.
pub open spec fn tick_pushes(
    enabled: bool,
    last_seen: Seq<char>,
    reading: Result<String, PlatformError>,
) -> bool {
    &&& enabled
    &&& reading is Ok
    &&& reading_text(reading).len() > 0
    &&& reading_text(reading) != last_seen
}

/// The monitor with its change-detection state: the history it feeds, the
/// text last observed on the clipboard (whatever wrote it), and the
/// enable switch that gates polling.
pub struct Monitor {
    pub stack: ClipboardStack,
    pub last_seen: String,
    pub enabled: bool,
    /// The configured pause between polls, in milliseconds; fixed at
    /// construction. The driving loop schedules by it; no decision in
    /// here reads it.
    pub poll_interval_ms: u64,
}

impl Monitor {
    pub open spec fn wf(self) -> bool {
        self.stack.wf()
    }

    /// A monitor over an empty store with the given positive capacity and
    /// positive poll interval, enabled, with `initial_content` (what the
    /// clipboard held at start-up) as the text last seen.
    pub fn new(capacity: usize, poll_interval_ms: u64, initial_content: String) -> (r: Self)
        requires
            capacity >= 1,
            poll_interval_ms >= 1,
        ensures
            r.wf(),
            r.stack@ == Seq::<ClipEntry>::empty(),
            r.stack.capacity() == capacity,
            r.last_seen@ == initial_content@,
            r.enabled,
            r.poll_interval_ms == poll_interval_ms,
    {
        Monitor {
            stack: ClipboardStack::new(capacity),
            last_seen: initial_content,
            enabled: true,
            poll_interval_ms,
        }
    }

    /// Switches monitoring on or off; nothing else changes.
    pub fn set_enabled(&mut self, enabled: bool)
        ensures
            final(self).enabled == enabled,
            final(self).stack == old(self).stack,
            final(self).last_seen == old(self).last_seen,
            final(self).poll_interval_ms == old(self).poll_interval_ms,
    {
        self.enabled = enabled;
    }

    /// One poll step, fed with the outcome of the clipboard read that the
    /// driving loop just performed. A disabled monitor, a failed read, an
    /// empty text and an unchanged text all leave everything as it was
    /// (read failures are deliberately swallowed); otherwise the text
    /// enters the history, timestamped now, and becomes the text last
    /// seen.
    pub fn tick(&mut self, reading: Result<String, PlatformError>)
        requires
            old(self).wf(),
        ensures
            final(self).wf(),
            final(self).enabled == old(self).enabled,
            final(self).poll_interval_ms == old(self).poll_interval_ms,
            final(self).stack.capacity() == old(self).stack.capacity(),
            !tick_pushes(old(self).enabled, old(self).last_seen@, reading) ==> {
                &&& final(self).stack@ == old(self).stack@
                &&& final(self).last_seen == old(self).last_seen
            },
            tick_pushes(old(self).enabled, old(self).last_seen@, reading) ==> {
                &&& final(self).last_seen@ == reading_text(reading)
                &&& final(self).stack@.len() >= 1
                &&& final(self).stack@[0].content@ == reading_text(reading)
                &&& exists|e: ClipEntry|
                    #![auto]
                    e.content@ == reading_text(reading) && final(self).stack@ == pushed(
                        old(self).stack@,
                        e,
                        old(self).stack.capacity(),
                    )
            },
    {
        if !self.enabled {
            return ;
        }
        match reading {
            Ok(content) => {
                if !content.as_str().is_empty() && !(content == self.last_seen) {
                    let entry = ClipEntry::new(content.clone());
                    self.stack.push(entry);
                    self.last_seen = content;
                }
            },
            Err(_) => {},
        }
    }

    /// The state update after a successful write-back of `content` to the
    /// clipboard (the write itself is the driving loop's): the written
    /// text becomes the text last seen, so the next tick does not mistake
    /// the echo for a new external copy; the history is untouched. The
    /// text need not be present in the history.
    pub fn record_write(&mut self, content: String)
        ensures
            final(self).last_seen == content,
            final(self).stack == old(self).stack,
            final(self).enabled == old(self).enabled,
            final(self).poll_interval_ms == old(self).poll_interval_ms,
    {
        self.last_seen = content;
    }
}

/// Law (echo suppression): after a successful copy-back of some text —
/// `record_write` made it the text last seen — a tick whose reading
/// returns exactly that text records nothing, so no duplicate entry
/// arises from the self-inflicted write.
pub proof fn lemma_echo_suppressed(
    enabled: bool,
    content: String,
    reading: Result<String, PlatformError>,
)
    requires
        reading is Ok,
        reading_text(reading) == content@,
    ensures
        !tick_pushes(enabled, content@, reading),
{
}

/// Law (disabled monitor is inert): no reading whatever makes a disabled
/// tick record anything; with `tick`'s contract, any number of ticks
/// leave the history and the text last seen unchanged.
pub proof fn lemma_disabled_inert(last_seen: Seq<char>, reading: Result<String, PlatformError>)
    ensures
        !tick_pushes(false, last_seen, reading),
{
}

/// Law (empty-content suppression): a reading that returns empty text
/// records nothing, whatever the text last seen.
pub proof fn lemma_empty_suppressed(
    enabled: bool,
    last_seen: Seq<char>,
    reading: Result<String, PlatformError>,
)
    requires
        reading_text(reading).len() == 0,
    ensures
        !tick_pushes(enabled, last_seen, reading),
{
}

} // verus!
