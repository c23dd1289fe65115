//! Transient status messages with a fixed time-to-live.

use vstd::prelude::*;
use crate::text::{chars_of, push_all, sat_sub};

verus! {

/// How long a status message stays visible, in milliseconds.
pub const MESSAGE_TTL_MS: u64 = 5000;

/// A user-facing message together with its creation time, in
/// milliseconds of some monotonic clock. Stale messages are never
/// deleted; they simply stop being drawn.
pub struct StatusMessage {
    pub text: Vec<char>,
    pub time: u64,
}

/// Whether a message created at `time` is still shown at `now`.
/// The age is a saturating difference, so a clock reading that is
/// somehow older than the message counts as age zero.
pub open spec fn visible_at(time: u64, now: u64) -> bool {
    sat_sub(now as int, time as int) < MESSAGE_TTL_MS
}

impl StatusMessage {
    /// A message created from `text` at clock reading `now`.
    pub fn from(text: Vec<char>, now: u64) -> (m: StatusMessage)
        ensures
            m.text == text,
            m.time == now,
    {
        StatusMessage { text, time: now }
    }

    /// Whether the message is still within its display window at `now`.
    pub fn is_visible(&self, now: u64) -> (b: bool)
        ensures
            b == visible_at(self.time, now),
    {
        now.saturating_sub(self.time) < MESSAGE_TTL_MS
    }
}

/// The hint shown when the editor starts.
pub fn initial_status_text() -> (v: Vec<char>)
    ensures
        v@ == "Ctrl-Q to quit"@,
{
    chars_of("Ctrl-Q to quit")
}

/// The message reported when a file given on the command line could
/// not be opened: a fixed prefix followed by the attempted name.
pub fn open_failure_text(file_name: &Vec<char>) -> (v: Vec<char>)
    ensures
        v@ == "ERROR: Can't open "@ + file_name@,
{
    let mut v = chars_of("ERROR: Can't open ");
    push_all(&mut v, file_name);
    v
}

} // verus!
