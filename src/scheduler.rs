use vstd::prelude::*;

use crate::compile::CompileResult;
use crate::debounce::{outside_window, Debouncer, DEBOUNCE_WINDOW_MS};
use crate::error::SupervisorError;
use crate::signal::{consumed_signal, exit_requests_rerun, raised_signal, requests_rerun, RerunSignal};
use crate::slot::{slot_after_exit, ManagedProcessSlot};

verus! {

/// Default pause, in seconds, before a run that ended with the sentinel
/// code is repeated.
pub const DEFAULT_WAIT_SECONDS: u64 = 5;

/// Default settle delay, in seconds, between a modification and the compile.
pub const DEFAULT_DELAY_SECONDS: u64 = 0;

/// Default exit code by which a run asks to be repeated.
pub const DEFAULT_RERUN_CODE: i32 = 5;

/// Settings fixed at startup.
#[derive(Debug, Clone, Copy, PartialEq, Eq)]
pub struct Config {
    pub clear_screen: bool,
    pub wait_seconds: u64,
    pub delay_seconds: u64,
    pub rerun_code: i32,
}

/// A notification about the watched file.
#[derive(Debug, Clone, PartialEq, Eq)]
pub enum WatchEvent {
    Modify,
    Other,
    Error(String),
}

/// Why a compile-and-run cycle starts.
#[derive(Debug, Clone, Copy, PartialEq, Eq, Structural)]
pub enum CycleCause {
    FileChanged,
    Rerun,
}

/// A compile-and-run cycle to perform: wait `delay_seconds`, clear the
/// screen if asked, compile, and run on success.
#[derive(Debug, Clone, Copy, PartialEq, Eq, Structural)]
pub struct CyclePlan {
    pub cause: CycleCause,
    pub delay_seconds: u64,
    pub clear_screen: bool,
}

/// What the scheduler does with one watch event.
#[derive(Debug, Clone, PartialEq, Eq)]
pub enum Action {
    Cycle(CyclePlan),
    Debounced,
    Ignored,
    Report(SupervisorError),
    Stop(SupervisorError),
}

/// What follows a compile.
#[derive(Debug, Clone, PartialEq, Eq)]
pub enum CompileStep {
    Run,
    Idle,
    Report(SupervisorError),
    Stop(SupervisorError),
}

/// The control loop's own state: its settings and the debounce baseline.
pub struct RecompileScheduler {
    pub config: Config,
    pub debounce: Debouncer,
}

pub open spec fn change_plan(c: Config) -> CyclePlan {
    CyclePlan { cause: CycleCause::FileChanged, delay_seconds: c.delay_seconds, clear_screen: c.clear_screen }
}

pub open spec fn rerun_plan(c: Config) -> CyclePlan {
    CyclePlan { cause: CycleCause::Rerun, delay_seconds: 0, clear_screen: c.clear_screen }
}

/// The action taken on `event` received at `now`; `None` is a closed stream.
pub open spec fn event_action(s: RecompileScheduler, event: Option<WatchEvent>, now: u64) -> Action {
    match event {
        None => Action::Stop(SupervisorError::WatchChannelClosed),
        Some(WatchEvent::Modify) => if outside_window(s.debounce.last_accepted_ms, now) {
            Action::Cycle(change_plan(s.config))
        } else {
            Action::Debounced
        },
        Some(WatchEvent::Other) => Action::Ignored,
        Some(WatchEvent::Error(e)) => Action::Report(SupervisorError::WatchDelivery(e)),
    }
}

/// The state after `event` received at `now`: only an accepted
/// modification moves the debounce baseline.
pub open spec fn event_next(s: RecompileScheduler, event: Option<WatchEvent>, now: u64) -> RecompileScheduler {
    match event {
        Some(WatchEvent::Modify) => if outside_window(s.debounce.last_accepted_ms, now) {
            RecompileScheduler { config: s.config, debounce: Debouncer { last_accepted_ms: Some(now) } }
        } else {
            s
        },
        _ => s,
    }
}

/// What follows a compile with `outcome`, where `Err` means the compiler
/// could not be launched; `run_after` is false for the startup compile.
pub open spec fn compile_step_of(outcome: Result<CompileResult, String>, run_after: bool) -> CompileStep {
    match outcome {
        Err(e) => CompileStep::Stop(SupervisorError::CompileInvocation(e)),
        Ok(r) => if r.success {
            if run_after {
                CompileStep::Run
            } else {
                CompileStep::Idle
            }
        } else {
            CompileStep::Report(SupervisorError::CompileFailure(r.diagnostics))
        },
    }
}

/// The pause before a rerun is signalled for a run that ended with `code`,
/// or none when no rerun is asked for.
pub open spec fn rerun_delay_of(c: Config, code: Option<i32>) -> Option<u64> {
    if requests_rerun(code, c.rerun_code) {
        Some(c.wait_seconds)
    } else {
        None
    }
}

impl Config {
    pub fn new(clear_screen: bool, wait_seconds: u64, delay_seconds: u64, rerun_code: i32) -> (r: Config)
        ensures
            r.clear_screen == clear_screen,
            r.wait_seconds == wait_seconds,
            r.delay_seconds == delay_seconds,
            r.rerun_code == rerun_code,
    {
        Config { clear_screen, wait_seconds, delay_seconds, rerun_code }
    }

    /// For a run that ended with `code`: the seconds to wait before raising
    /// the rerun signal, or none when the code is not the sentinel.
    pub fn rerun_delay(&self, code: Option<i32>) -> (r: Option<u64>)
        ensures
            r == rerun_delay_of(*self, code),
    {
        if exit_requests_rerun(code, self.rerun_code) {
            Some(self.wait_seconds)
        } else {
            None
        }
    }
}

impl RecompileScheduler {
    /// A scheduler that has accepted no modification yet.
    pub fn new(config: Config) -> (r: RecompileScheduler)
        ensures
            r.config == config,
            r.debounce.last_accepted_ms.is_none(),
    {
        RecompileScheduler { config, debounce: Debouncer::new() }
    }

    /// The first step of every iteration: consumes the rerun signal and,
    /// when it was raised, asks for a cycle without waiting for an event.
    pub fn poll_rerun(&self, signal: &mut RerunSignal) -> (r: Option<CyclePlan>)
        ensures
            r == (if old(signal).pending { Some(rerun_plan(self.config)) } else { None::<CyclePlan> }),
            *final(signal) == consumed_signal(*old(signal)),
    {
        if signal.consume() {
            Some(CyclePlan { cause: CycleCause::Rerun, delay_seconds: 0, clear_screen: self.config.clear_screen })
        } else {
            None
        }
    }

    /// Handles one event received at `now_ms`; `None` means the event
    /// stream closed.
    pub fn on_event(&mut self, event: Option<WatchEvent>, now_ms: u64) -> (r: Action)
        ensures
            r == event_action(*old(self), event, now_ms),
            *final(self) == event_next(*old(self), event, now_ms),
    {
        match event {
            None => Action::Stop(SupervisorError::WatchChannelClosed),
            Some(WatchEvent::Modify) => {
                if self.debounce.offer(now_ms) {
                    Action::Cycle(CyclePlan {
                        cause: CycleCause::FileChanged,
                        delay_seconds: self.config.delay_seconds,
                        clear_screen: self.config.clear_screen,
                    })
                } else {
                    Action::Debounced
                }
            },
            Some(WatchEvent::Other) => Action::Ignored,
            Some(WatchEvent::Error(e)) => Action::Report(SupervisorError::WatchDelivery(e)),
        }
    }
}

/// Decides what follows a compile: run only after a successful one in a
/// cycle, report a failed one, stop when the compiler could not be launched.
pub fn compile_step(outcome: Result<CompileResult, String>, run_after: bool) -> (r: CompileStep)
    ensures
        r == compile_step_of(outcome, run_after),
{
    match outcome {
        Err(e) => CompileStep::Stop(SupervisorError::CompileInvocation(e)),
        Ok(r) => {
            if r.success {
                if run_after {
                    CompileStep::Run
                } else {
                    CompileStep::Idle
                }
            } else {
                CompileStep::Report(SupervisorError::CompileFailure(r.diagnostics))
            }
        },
    }
}

/// Settles a spawn attempt for the process claimed as `token`: a failed
/// spawn leaves the slot without it and is reported.
pub fn after_spawn(slot: &mut ManagedProcessSlot, token: u64, spawned: Result<(), String>) -> (r: Option<SupervisorError>)
    requires
        old(slot).wf(),
    ensures
        final(slot).wf(),
        match spawned {
            Ok(()) => r.is_none() && *final(slot) == *old(slot),
            Err(e) => {
                &&& r == Some(SupervisorError::ChildSpawn(e))
                &&& final(slot).current == (if old(slot).current == Some(token) { None } else { old(slot).current })
                &&& final(slot).terminating == old(slot).terminating
                &&& final(slot).next_token == old(slot).next_token
            },
        },
{
    match spawned {
        Ok(()) => None,
        Err(e) => {
            slot.on_exit(token);
            Some(SupervisorError::ChildSpawn(e))
        },
    }
}

/// A modification received less than a second after the last accepted one
/// is dropped: no cycle, and the baseline stays where it was.
pub proof fn lemma_close_modify_dropped(s: RecompileScheduler, now: u64)
    requires
        !outside_window(s.debounce.last_accepted_ms, now),
    ensures
        event_action(s, Some(WatchEvent::Modify), now) == Action::Debounced,
        event_next(s, Some(WatchEvent::Modify), now) == s,
{
}

/// The first modification after startup is always accepted and becomes the
/// baseline.
pub proof fn lemma_first_modify_accepted(c: Config, now: u64)
    ensures
        event_action(RecompileScheduler { config: c, debounce: Debouncer { last_accepted_ms: None } }, Some(WatchEvent::Modify), now)
            == Action::Cycle(change_plan(c)),
        event_next(RecompileScheduler { config: c, debounce: Debouncer { last_accepted_ms: None } }, Some(WatchEvent::Modify), now).debounce.last_accepted_ms
            == Some(now),
{
}

/// Two modifications less than a second apart start at most one cycle.
pub proof fn lemma_burst_gives_one_cycle(s: RecompileScheduler, t1: u64, t2: u64)
    requires
        t1 <= t2,
        t2 - t1 < DEBOUNCE_WINDOW_MS,
    ensures
        !(event_action(s, Some(WatchEvent::Modify), t1) is Cycle
            && event_action(event_next(s, Some(WatchEvent::Modify), t1), Some(WatchEvent::Modify), t2) is Cycle),
{
}

/// A compile that failed, or could not be launched, is never followed by a run.
pub proof fn lemma_failed_compile_never_runs(outcome: Result<CompileResult, String>, run_after: bool)
    requires
        !(outcome matches Ok(r) && r.success),
    ensures
        compile_step_of(outcome, run_after) != CompileStep::Run,
{
}

/// Number of exit codes in `codes` equal to the sentinel.
pub open spec fn sentinel_exits(codes: Seq<Option<i32>>, sentinel: i32) -> nat
    decreases codes.len(),
{
    if codes.len() == 0 {
        0
    } else {
        sentinel_exits(codes.drop_last(), sentinel) + if codes.last() == Some(sentinel) {
            1nat
        } else {
            0nat
        }
    }
}

/// The signal after runs ending with `codes`, each raising it when
/// `rerun_delay_of` asks for a rerun.
pub open spec fn signal_after_exits(c: Config, s: RerunSignal, codes: Seq<Option<i32>>) -> RerunSignal
    decreases codes.len(),
{
    if codes.len() == 0 {
        s
    } else {
        let prev = signal_after_exits(c, s, codes.drop_last());
        if rerun_delay_of(c, codes.last()) is Some {
            raised_signal(prev)
        } else {
            prev
        }
    }
}

/// The rerun signal is raised exactly once for each run that ends with the
/// sentinel code and never for another; it is pending afterwards exactly
/// when it was before or some run ended with the sentinel; and an iteration
/// of the scheduler that finds it raised lowers it exactly once.
pub proof fn lemma_rerun_signal_accounting(c: Config, s: RerunSignal, codes: Seq<Option<i32>>)
    ensures
        signal_after_exits(c, s, codes).raised@ == s.raised@ + sentinel_exits(codes, c.rerun_code),
        signal_after_exits(c, s, codes).consumed == s.consumed,
        signal_after_exits(c, s, codes).pending == (s.pending || sentinel_exits(codes, c.rerun_code) > 0),
        consumed_signal(s).consumed@ == s.consumed@ + (if s.pending { 1nat } else { 0nat }),
        !consumed_signal(s).pending,
    decreases codes.len(),
{
    if codes.len() > 0 {
        lemma_rerun_signal_accounting(c, s, codes.drop_last());
    }
}

/// A run that ends with a code other than the sentinel leaves a lowered
/// rerun signal lowered and the slot empty, so the next iteration finds no
/// rerun to do and waits for a new event.
pub proof fn lemma_clean_exit_waits_for_event(
    c: Config,
    signal: RerunSignal,
    slot: ManagedProcessSlot,
    token: u64,
    code: Option<i32>,
)
    requires
        code != Some(c.rerun_code),
        !signal.pending,
        slot.current == Some(token),
        slot.terminating.is_none(),
    ensures
        rerun_delay_of(c, code).is_none(),
        signal_after_exits(c, signal, seq![code]) == signal,
        !signal_after_exits(c, signal, seq![code]).pending,
        slot_after_exit(slot, token).current.is_none(),
        slot_after_exit(slot, token).terminating.is_none(),
{
    let codes = seq![code];
    assert(codes.drop_last() =~= Seq::<Option<i32>>::empty());
    assert(codes.last() == code);
    assert(signal_after_exits(c, signal, codes.drop_last()) == signal);
}

} // verus!
