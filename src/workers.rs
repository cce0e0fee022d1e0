//! The decisions of the capture and timer threads, from the shared flags
//! and what just happened to what the thread does next.

use vstd::prelude::*;
use crate::snooper::ControlBlock;

verus! {

/// After this many read errors in a row the capture gives up.
pub const MAX_CONSECUTIVE_READ_ERRORS: u8 = 3;

/// What the capture thread does next.
#[derive(Debug, Clone, Copy, PartialEq, Eq, Structural)]
pub enum CaptureAction {
    /// Close the capture and leave; the channel to the consumer closes.
    Exit,
    /// Wait on the condition variable until the flags change.
    WaitForResume,
    /// Release and reopen the capture, then wait again.
    ReopenAndWait,
    /// Try to read one frame.
    Read,
    /// Send the frame just read to the consumer, then read again.
    Forward,
    /// Drop the frame just read, then read again.
    Discard,
}

/// How one read attempt went.
#[derive(Debug, Clone, Copy, PartialEq, Eq, Structural)]
pub enum ReadOutcome {
    Frame,
    Timeout,
    Error,
}

/// The capture thread's own state: read errors in a row.
#[derive(Debug, Clone, Copy, PartialEq, Eq, Structural)]
pub struct CaptureLoop {
    pub consecutive_errors: u8,
}

/// What the capture thread does when it is about to read or has just woken:
/// leave on terminate, wait while paused, else read.
pub open spec fn capture_next(control: ControlBlock) -> CaptureAction {
    if control.terminate {
        CaptureAction::Exit
    } else if control.pause {
        CaptureAction::WaitForResume
    } else {
        CaptureAction::Read
    }
}

impl CaptureLoop {
    /// A capture with no errors yet.
    pub fn new() -> (r: CaptureLoop)
        ensures
            r.consecutive_errors == 0,
    {
        CaptureLoop { consecutive_errors: 0 }
    }

    /// What to do before a read.
    pub fn before_read(&self, control: ControlBlock) -> (r: CaptureAction)
        ensures
            r == capture_next(control),
    {
        if control.terminate {
            CaptureAction::Exit
        } else if control.pause {
            CaptureAction::WaitForResume
        } else {
            CaptureAction::Read
        }
    }

    /// What to do on waking while paused: leave on terminate, release and
    /// reopen the capture while still paused, else read.
    pub fn after_wakeup(&self, control: ControlBlock) -> (r: CaptureAction)
        ensures
            r == if control.terminate {
                CaptureAction::Exit
            } else if control.pause {
                CaptureAction::ReopenAndWait
            } else {
                CaptureAction::Read
            },
    {
        if control.terminate {
            CaptureAction::Exit
        } else if control.pause {
            CaptureAction::ReopenAndWait
        } else {
            CaptureAction::Read
        }
    }

    /// What to do after a read attempt. A frame is forwarded only while
    /// neither flag is set; a frame or a timeout ends a run of errors; the
    /// third error in a row ends the capture.
    pub fn after_read(&mut self, control: ControlBlock, outcome: ReadOutcome) -> (r: CaptureAction)
        ensures
            outcome != ReadOutcome::Error ==> final(self).consecutive_errors == 0,
            outcome == ReadOutcome::Frame ==> r == if !control.pause && !control.terminate {
                CaptureAction::Forward
            } else {
                CaptureAction::Discard
            },
            outcome == ReadOutcome::Timeout ==> r == CaptureAction::Discard,
            outcome == ReadOutcome::Error ==> {
                &&& final(self).consecutive_errors as nat == if old(self).consecutive_errors
                    < MAX_CONSECUTIVE_READ_ERRORS {
                    old(self).consecutive_errors as nat + 1
                } else {
                    old(self).consecutive_errors as nat
                }
                &&& r == if final(self).consecutive_errors >= MAX_CONSECUTIVE_READ_ERRORS {
                    CaptureAction::Exit
                } else {
                    CaptureAction::Discard
                }
            },
    {
        match outcome {
            ReadOutcome::Frame => {
                self.consecutive_errors = 0;
                if !control.pause && !control.terminate {
                    CaptureAction::Forward
                } else {
                    CaptureAction::Discard
                }
            },
            ReadOutcome::Timeout => {
                self.consecutive_errors = 0;
                CaptureAction::Discard
            },
            ReadOutcome::Error => {
                if self.consecutive_errors < MAX_CONSECUTIVE_READ_ERRORS {
                    self.consecutive_errors = self.consecutive_errors + 1;
                }
                if self.consecutive_errors >= MAX_CONSECUTIVE_READ_ERRORS {
                    CaptureAction::Exit
                } else {
                    CaptureAction::Discard
                }
            },
        }
    }
}

/// What the timer thread does after each second.
#[derive(Debug, Clone, Copy, PartialEq, Eq, Structural)]
pub enum TimerAction {
    /// Write a last report, then leave.
    Exit,
    /// Wait on the condition variable until the flags change.
    Wait,
    /// Sleep another second.
    Sleep,
    /// Write the report, then sleep another second.
    Flush,
}

/// The timer thread's countdown to the next report.
#[derive(Debug, Clone, Copy, PartialEq, Eq, Structural)]
pub struct ReportTimer {
    /// Seconds between reports.
    pub period: u64,
    /// Seconds left until the next report.
    pub remaining: u64,
}

impl ReportTimer {
    /// The countdown is within a period.
    pub open spec fn wf(&self) -> bool {
        1 <= self.remaining <= self.period
    }

    /// A countdown of `period` seconds.
    pub fn new(period: u64) -> (r: ReportTimer)
        requires
            period > 0,
        ensures
            r.wf(),
            r.period == period,
            r.remaining == period,
    {
        ReportTimer { period, remaining: period }
    }

    /// Whether the timer, waiting on the condition variable, goes on
    /// waiting when it wakes: while paused and not terminating.
    pub fn keeps_waiting(&self, control: ControlBlock) -> (r: bool)
        ensures
            r == (control.pause && !control.terminate),
    {
        control.pause && !control.terminate
    }

    /// One second has passed. On terminate, or once the consumer has
    /// stopped (`input_closed`), the timer leaves; while paused it waits and
    /// the countdown stands still; otherwise the countdown goes down by one,
    /// and at zero a report is due and a new period starts.
    pub fn on_second(&mut self, control: ControlBlock, input_closed: bool) -> (r: TimerAction)
        requires
            old(self).wf(),
        ensures
            final(self).wf(),
            final(self).period == old(self).period,
            control.terminate || input_closed ==> r == TimerAction::Exit && *final(self) == *old(
                self,
            ),
            !control.terminate && !input_closed && control.pause ==> r == TimerAction::Wait
                && *final(self) == *old(self),
            !control.terminate && !input_closed && !control.pause ==> if old(self).remaining == 1 {
                r == TimerAction::Flush && final(self).remaining == old(self).period
            } else {
                r == TimerAction::Sleep && final(self).remaining == old(self).remaining - 1
            },
    {
        if control.terminate || input_closed {
            return TimerAction::Exit;
        }
        if control.pause {
            return TimerAction::Wait;
        }
        if self.remaining == 1 {
            self.remaining = self.period;
            TimerAction::Flush
        } else {
            self.remaining = self.remaining - 1;
            TimerAction::Sleep
        }
    }
}

} // verus!
