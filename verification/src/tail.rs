//! Following the game's log file: which file is read, and from which byte
//! the new lines start.

use vstd::prelude::*;
use crate::text::text_eq;

verus! {

/// The file being followed and how much of it has been read.
pub struct LogCursor {
    pub current_path: String,
    pub last_size: u64,
}

impl LogCursor {
    /// Nothing followed yet.
    pub fn new() -> (r: LogCursor)
        ensures
            r.current_path@ == Seq::<char>::empty(),
            r.last_size == 0,
    {
        LogCursor { current_path: String::new(), last_size: 0 }
    }

    /// Whether `path` is another file than the one followed.
    pub fn switches_to(&self, path: &str) -> (r: bool)
        ensures
            r == (path@ != self.current_path@),
    {
        !text_eq(path, self.current_path.as_str())
    }

    /// Follows `path`, whose length is `len_now` when it can be read: what it
    /// already holds is not read (when the length is unknown, the old
    /// position stays).
    pub fn follow(&mut self, path: String, len_now: Option<u64>)
        ensures
            final(self).current_path@ == path@,
            final(self).last_size == (match len_now {
                Some(n) => n,
                None => old(self).last_size,
            }),
    {
        self.current_path = path;
        if let Some(n) = len_now {
            self.last_size = n;
        }
    }

    /// The followed file now holds `current_len` bytes: when it grew, the
    /// position to read from (everything up to the new length then counts
    /// as read); otherwise nothing to read.
    pub fn new_data(&mut self, current_len: u64) -> (from: Option<u64>)
        ensures
            current_len > old(self).last_size ==> from == Some(old(self).last_size) && final(self).last_size
                == current_len,
            current_len <= old(self).last_size ==> from is None && final(self).last_size == old(self).last_size,
            final(self).current_path == old(self).current_path,
    {
        if current_len > self.last_size {
            let from = self.last_size;
            self.last_size = current_len;
            Some(from)
        } else {
            None
        }
    }
}

} // verus!
