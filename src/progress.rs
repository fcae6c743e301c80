//! Upload progress accounting for one file stream.
use vstd::prelude::*;

verus! {

/// The progress of one upload: how much of it was read, and whether its
/// display was started and finished.
pub struct ProgressState {
    pub total: u64,
    pub transferred: u64,
    pub started: bool,
    pub finished: bool,
}

/// What the display has to do after a read.
#[derive(PartialEq, Eq, Structural, Clone, Copy, Debug)]
pub enum ProgressEvent {
    /// Nothing.
    Nothing,
    /// Show `amount` more bytes; `start` tells whether to show the display first.
    Advance { start: bool, amount: u64 },
    /// The stream is exhausted: clear the display and report that the file is
    /// being processed; `start` tells whether to show the display first.
    Finish { start: bool },
}

impl ProgressState {
    /// The progress of a fresh stream of `total` bytes; even an empty stream
    /// is reported as processed once it is exhausted or dropped.
    pub fn new(total: u64) -> (r: ProgressState)
        ensures
            r.total == total,
            r.transferred == 0,
            !r.started,
            !r.finished,
    {
        ProgressState { total, transferred: 0, started: false, finished: false }
    }

    /// Accounts for a read of `amount` bytes; a read of nothing ends the stream,
    /// and the end is reported only once.
    pub fn on_read(&mut self, amount: u64) -> (e: ProgressEvent)
        ensures
            final(self).total == old(self).total,
            amount > 0 ==> e == (ProgressEvent::Advance { start: !old(self).started, amount })
                && final(self).started && final(self).finished == old(self).finished
                && final(self).transferred == (if old(self).transferred + amount > u64::MAX {
                u64::MAX as int
            } else {
                old(self).transferred + amount
            }),
            amount == 0 && !old(self).finished ==> e == (ProgressEvent::Finish {
                start: !old(self).started,
            }) && final(self).started && final(self).finished && final(self).transferred == old(
                self,
            ).transferred,
            amount == 0 && old(self).finished ==> e == ProgressEvent::Nothing && *final(self)
                == *old(self),
    {
        if amount == 0 {
            if !self.finished {
                let start = !self.started;
                self.started = true;
                self.finished = true;
                ProgressEvent::Finish { start }
            } else {
                ProgressEvent::Nothing
            }
        } else {
            let start = !self.started;
            self.started = true;
            self.transferred = self.transferred.saturating_add(amount);
            ProgressEvent::Advance { start, amount }
        }
    }

    /// Accounts for the stream being dropped: an unfinished stream is finished now.
    pub fn on_drop(&mut self) -> (e: ProgressEvent)
        ensures
            final(self).total == old(self).total,
            final(self).transferred == old(self).transferred,
            !old(self).finished ==> e == (ProgressEvent::Finish { start: !old(self).started })
                && final(self).started && final(self).finished,
            old(self).finished ==> e == ProgressEvent::Nothing && *final(self) == *old(self),
    {
        if !self.finished {
            let start = !self.started;
            self.started = true;
            self.finished = true;
            ProgressEvent::Finish { start }
        } else {
            ProgressEvent::Nothing
        }
    }
}

} // verus!
