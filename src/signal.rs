use vstd::prelude::*;

verus! {

/// The flag raised when a run ends with the sentinel exit code, with ghost
/// counts of how often it was raised and how often the scheduler consumed it.
pub struct RerunSignal {
    pub pending: bool,
    pub raised: Ghost<nat>,
    pub consumed: Ghost<nat>,
}

/// Whether a process that ended with `code` asks to be run again; a process
/// killed by a signal has no code.
pub open spec fn requests_rerun(code: Option<i32>, sentinel: i32) -> bool {
    code == Some(sentinel)
}

/// Decides, for a finished run, whether the signal is to be raised.
pub fn exit_requests_rerun(code: Option<i32>, sentinel: i32) -> (r: bool)
    ensures
        r == requests_rerun(code, sentinel),
{
    match code {
        Some(c) => c == sentinel,
        None => false,
    }
}

/// The signal after one raise.
pub open spec fn raised_signal(s: RerunSignal) -> RerunSignal {
    RerunSignal { pending: true, raised: Ghost((s.raised@ + 1) as nat), consumed: s.consumed }
}

/// The signal after one read-and-lower.
pub open spec fn consumed_signal(s: RerunSignal) -> RerunSignal {
    RerunSignal {
        pending: false,
        raised: s.raised,
        consumed: Ghost((s.consumed@ + if s.pending { 1nat } else { 0nat }) as nat),
    }
}

impl RerunSignal {
    /// A lowered signal with nothing counted.
    pub fn new() -> (r: RerunSignal)
        ensures
            !r.pending,
            r.raised@ == 0,
            r.consumed@ == 0,
    {
        RerunSignal { pending: false, raised: Ghost(0), consumed: Ghost(0) }
    }

    /// Whether the signal is raised now.
    pub fn is_pending(&self) -> (r: bool)
        ensures
            r == self.pending,
    {
        self.pending
    }

    /// Raises the signal once.
    pub fn raise(&mut self)
        ensures
            *final(self) == raised_signal(*old(self)),
    {
        self.pending = true;
        self.raised = Ghost(self.raised@ + 1);
    }

    /// Reads and lowers the signal in one step; returns whether it was raised.
    pub fn consume(&mut self) -> (was_raised: bool)
        ensures
            was_raised == old(self).pending,
            *final(self) == consumed_signal(*old(self)),
    {
        let was_raised = self.pending;
        self.pending = false;
        if was_raised {
            self.consumed = Ghost(self.consumed@ + 1);
        }
        was_raised
    }
}

} // verus!
