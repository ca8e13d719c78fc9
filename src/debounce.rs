use vstd::prelude::*;

verus! {

/// Milliseconds that must separate two accepted modification events.
pub const DEBOUNCE_WINDOW_MS: u64 = 1000;

/// Time elapsed from `since` to `now` on a monotonic clock; a reading
/// earlier than the baseline counts as no time at all.
pub open spec fn elapsed_ms(since: u64, now: u64) -> nat {
    if now >= since {
        (now - since) as nat
    } else {
        0
    }
}

/// Whether a modification seen at `now` is far enough from the baseline;
/// before any event was accepted there is no baseline and every event is.
pub open spec fn outside_window(baseline: Option<u64>, now: u64) -> bool {
    match baseline {
        None => true,
        Some(b) => elapsed_ms(b, now) >= DEBOUNCE_WINDOW_MS as nat,
    }
}

/// Collapses bursts of modification events: an event is accepted only when
/// no event was accepted yet, or at least one second has passed since the
/// last accepted one.
pub struct Debouncer {
    pub last_accepted_ms: Option<u64>,
}

impl Debouncer {
    /// A debouncer that has accepted nothing yet.
    pub fn new() -> (r: Debouncer)
        ensures
            r.last_accepted_ms.is_none(),
    {
        Debouncer { last_accepted_ms: None }
    }

    /// Offers a modification event seen at `now_ms`. Returns whether it is
    /// accepted; an accepted event becomes the new baseline, a rejected one
    /// leaves the baseline as it was.
    pub fn offer(&mut self, now_ms: u64) -> (accepted: bool)
        ensures
            accepted == outside_window(old(self).last_accepted_ms, now_ms),
            accepted ==> final(self).last_accepted_ms == Some(now_ms),
            !accepted ==> *final(self) == *old(self),
    {
        let accepted = match self.last_accepted_ms {
            None => true,
            Some(last) => now_ms.saturating_sub(last) >= DEBOUNCE_WINDOW_MS,
        };
        if accepted {
            self.last_accepted_ms = Some(now_ms);
        }
        accepted
    }
}

} // verus!
