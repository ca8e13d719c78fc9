use vstd::prelude::*;

verus! {

/// Bookkeeping for the one external process the supervisor may own.
///
/// A process is named by a token handed out by `claim`. `current` is the
/// process that runs now; `terminating` is one that was taken out of the
/// slot to be killed and has not yet been reaped. Both are live: a process
/// stops being live when it is reaped or observed to exit.
pub struct ManagedProcessSlot {
    pub current: Option<u64>,
    pub terminating: Option<u64>,
    pub next_token: u64,
}

/// The tokens held by one side of the slot.
pub open spec fn token_set(t: Option<u64>) -> Set<u64> {
    match t {
        Some(x) => set![x],
        None => Set::empty(),
    }
}

impl ManagedProcessSlot {
    /// Tokens of the processes that may still be running.
    pub open spec fn live(&self) -> Set<u64> {
        token_set(self.current).union(token_set(self.terminating))
    }

    /// Never a running process and a dying one at once, and every token
    /// handed out so far lies below `next_token`.
    pub open spec fn wf(&self) -> bool {
        &&& !(self.current.is_some() && self.terminating.is_some())
        &&& (self.current matches Some(t) ==> t < self.next_token)
        &&& (self.terminating matches Some(t) ==> t < self.next_token)
    }

    /// An empty slot.
    pub fn new() -> (r: ManagedProcessSlot)
        ensures
            r.wf(),
            r.current.is_none(),
            r.terminating.is_none(),
            r.next_token == 0,
            r.live() == Set::<u64>::empty(),
    {
        let r = ManagedProcessSlot { current: None, terminating: None, next_token: 0 };
        assert(r.live() =~= Set::<u64>::empty());
        r
    }

    /// Whether no process is live, so that a new one may be spawned.
    pub fn is_idle(&self) -> (r: bool)
        ensures
            r == (self.current.is_none() && self.terminating.is_none()),
    {
        self.current.is_none() && self.terminating.is_none()
    }

    /// First step of replacing the managed process: the running process, if
    /// any, is moved aside to be terminated. Returns the token of the process
    /// that must be killed and reaped before anything is spawned.
    pub fn begin_replace(&mut self) -> (victim: Option<u64>)
        requires
            old(self).wf(),
        ensures
            final(self).wf(),
            victim == (if old(self).current.is_some() {
                old(self).current
            } else {
                old(self).terminating
            }),
            final(self).current.is_none(),
            final(self).terminating == victim,
            final(self).next_token == old(self).next_token,
            final(self).live() == old(self).live(),
    {
        if self.current.is_some() {
            self.terminating = self.current;
            self.current = None;
        }
        let victim = self.terminating;
        proof {
            assert(self.live() =~= old(self).live());
        }
        victim
    }

    /// The process `token` was killed and reaped. A failed kill is reported
    /// the same way: the process is no longer tracked.
    pub fn finish_termination(&mut self, token: u64)
        requires
            old(self).wf(),
        ensures
            final(self).wf(),
            final(self).current == old(self).current,
            final(self).next_token == old(self).next_token,
            final(self).terminating == (if old(self).terminating == Some(token) {
                None
            } else {
                old(self).terminating
            }),
    {
        if self.terminating == Some(token) {
            self.terminating = None;
        }
    }

    /// Reserves a fresh token for a process about to be spawned. Succeeds
    /// exactly when nothing is live (termination comes before any spawn) and
    /// tokens are not exhausted; the new process is then the running one.
    pub fn claim(&mut self) -> (r: Option<u64>)
        requires
            old(self).wf(),
        ensures
            final(self).wf(),
            r.is_some() == (old(self).current.is_none() && old(self).terminating.is_none()
                && old(self).next_token < u64::MAX),
            r.is_some() ==> {
                &&& r == Some(old(self).next_token)
                &&& final(self).current == r
                &&& final(self).terminating.is_none()
                &&& final(self).next_token == old(self).next_token + 1
                &&& !old(self).live().contains(r.unwrap())
            },
            r.is_none() ==> *final(self) == *old(self),
    {
        if self.current.is_none() && self.terminating.is_none() && self.next_token < u64::MAX {
            let t = self.next_token;
            self.current = Some(t);
            self.next_token = t + 1;
            Some(t)
        } else {
            None
        }
    }

    /// The process of `token` exited (or could not be waited on). Clears the
    /// running process if it is that one and returns whether it did; a
    /// process that was already replaced leaves the slot alone.
    pub fn on_exit(&mut self, token: u64) -> (cleared: bool)
        requires
            old(self).wf(),
        ensures
            final(self).wf(),
            *final(self) == slot_after_exit(*old(self), token),
            cleared == (old(self).current == Some(token)),
            final(self).current == (if cleared { None } else { old(self).current }),
            final(self).terminating == old(self).terminating,
            final(self).next_token == old(self).next_token,
            !final(self).live().contains(token) || old(self).terminating == Some(token),
    {
        if self.current == Some(token) {
            self.current = None;
            true
        } else {
            false
        }
    }

    /// One look at the process of `token` by the task that waits for it.
    /// A process that is no longer the running one was replaced (and reaped
    /// by the replacement): the watch ends and the slot is left alone. A
    /// failed wait counts as an exit without a code. An exit clears the
    /// slot and hands the code on.
    pub fn poll_completion(&mut self, token: u64, poll: ChildPoll) -> (r: Completion)
        requires
            old(self).wf(),
        ensures
            final(self).wf(),
            r == completion_of(*old(self), token, poll),
            *final(self) == (if r is Finished { slot_after_exit(*old(self), token) } else { *old(self) }),
    {
        if self.current != Some(token) {
            return Completion::Replaced;
        }
        match poll {
            ChildPoll::Running => Completion::KeepWaiting,
            ChildPoll::Exited(code) => {
                self.on_exit(token);
                Completion::Finished(code)
            },
            ChildPoll::WaitFailed => {
                self.on_exit(token);
                Completion::Finished(None)
            },
        }
    }
}

/// What one look at a running process found.
#[derive(Debug, Clone, Copy, PartialEq, Eq, Structural)]
pub enum ChildPoll {
    Running,
    Exited(Option<i32>),
    WaitFailed,
}

/// What the task that waits for a process does next.
#[derive(Debug, Clone, Copy, PartialEq, Eq, Structural)]
pub enum Completion {
    Replaced,
    KeepWaiting,
    Finished(Option<i32>),
}

/// The slot after the process of `token` ended.
pub open spec fn slot_after_exit(s: ManagedProcessSlot, token: u64) -> ManagedProcessSlot {
    if s.current == Some(token) {
        ManagedProcessSlot { current: None, ..s }
    } else {
        s
    }
}

/// The decision of `poll_completion`.
pub open spec fn completion_of(s: ManagedProcessSlot, token: u64, poll: ChildPoll) -> Completion {
    if s.current != Some(token) {
        Completion::Replaced
    } else {
        match poll {
            ChildPoll::Running => Completion::KeepWaiting,
            ChildPoll::Exited(code) => Completion::Finished(code),
            ChildPoll::WaitFailed => Completion::Finished(None),
        }
    }
}

/// Whatever the slot went through, a well-formed slot never tracks two live
/// processes at once.
pub proof fn lemma_at_most_one_live(s: ManagedProcessSlot)
    requires
        s.wf(),
    ensures
        s.live().len() <= 1,
        s.live().finite(),
{
    match s.current {
        Some(t) => {
            assert(s.live() =~= set![t]);
        },
        None => match s.terminating {
            Some(t) => {
                assert(s.live() =~= set![t]);
            },
            None => {
                assert(s.live() =~= Set::<u64>::empty());
            },
        },
    }
}

} // verus!
