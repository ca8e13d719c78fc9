use cwatch::compile::{artifact_program, compiler_args, compiler_program, CompileResult};
use cwatch::debounce::{Debouncer, DEBOUNCE_WINDOW_MS};
use cwatch::error::{check_watch_path, SupervisorError, FATAL_EXIT_CODE};
use cwatch::scheduler::{
    after_spawn, compile_step, Action, CompileStep, Config, CycleCause, CyclePlan,
    RecompileScheduler, WatchEvent, DEFAULT_DELAY_SECONDS, DEFAULT_RERUN_CODE,
    DEFAULT_WAIT_SECONDS,
};
use cwatch::signal::{exit_requests_rerun, RerunSignal};
use cwatch::slot::{ChildPoll, Completion, ManagedProcessSlot};

fn config(delay: u64) -> Config {
    Config::new(false, 5, delay, 5)
}

fn ok_compile() -> Result<CompileResult, String> {
    Ok(CompileResult::from_status(true, String::from("ignored")))
}

#[test]
fn debounce_rejects_inside_window_and_keeps_baseline() {
    let mut d = Debouncer::new();
    assert!(d.offer(10_000));
    assert!(!d.offer(10_999));
    assert_eq!(d.last_accepted_ms, Some(10_000));
    assert!(d.offer(11_000));
    assert_eq!(d.last_accepted_ms, Some(11_000));
    assert_eq!(DEBOUNCE_WINDOW_MS, 1000);
}

#[test]
fn debounce_treats_earlier_clock_reading_as_no_time() {
    let mut d = Debouncer::new();
    assert!(d.offer(5_000));
    assert!(!d.offer(1_000));
    assert_eq!(d.last_accepted_ms, Some(5_000));
}

#[test]
fn modify_within_a_second_of_last_accepted_is_dropped() {
    let mut s = RecompileScheduler::new(config(0));
    assert!(matches!(s.on_event(Some(WatchEvent::Modify), 1_500), Action::Cycle(_)));
    assert_eq!(s.on_event(Some(WatchEvent::Modify), 2_499), Action::Debounced);
    assert_eq!(s.debounce.last_accepted_ms, Some(1_500));
    assert!(matches!(s.on_event(Some(WatchEvent::Modify), 2_500), Action::Cycle(_)));
}

#[test]
fn two_modify_events_two_tenths_apart_give_one_cycle() {
    let mut s = RecompileScheduler::new(config(0));
    let first = s.on_event(Some(WatchEvent::Modify), 3_000);
    let second = s.on_event(Some(WatchEvent::Modify), 3_200);
    let cycles = [first, second]
        .iter()
        .filter(|a| matches!(a, Action::Cycle(_)))
        .count();
    assert_eq!(cycles, 1);
}

#[test]
fn delay_is_carried_into_the_cycle_and_later_event_processed_once() {
    let mut s = RecompileScheduler::new(config(2));
    let mut signal = RerunSignal::new();
    let a = s.on_event(Some(WatchEvent::Modify), 5_000);
    assert_eq!(
        a,
        Action::Cycle(CyclePlan {
            cause: CycleCause::FileChanged,
            delay_seconds: 2,
            clear_screen: false
        })
    );
    // An edit made during the two-second delay is read once the delay is over.
    assert_eq!(s.poll_rerun(&mut signal), None);
    let b = s.on_event(Some(WatchEvent::Modify), 7_100);
    assert!(matches!(b, Action::Cycle(_)));
    assert_eq!(s.poll_rerun(&mut signal), None);
}

#[test]
fn other_and_error_events_take_no_action() {
    let mut s = RecompileScheduler::new(config(0));
    assert_eq!(s.on_event(Some(WatchEvent::Other), 9_000), Action::Ignored);
    assert_eq!(
        s.on_event(Some(WatchEvent::Error(String::from("lost"))), 9_000),
        Action::Report(SupervisorError::WatchDelivery(String::from("lost")))
    );
    assert_eq!(s.debounce.last_accepted_ms, None);
}

#[test]
fn closed_event_stream_is_fatal() {
    let mut s = RecompileScheduler::new(config(0));
    let a = s.on_event(None, 100);
    assert_eq!(a, Action::Stop(SupervisorError::WatchChannelClosed));
    assert_eq!(SupervisorError::WatchChannelClosed.exit_code(), Some(1));
}

#[test]
fn failed_compile_is_reported_and_not_run() {
    let failed = Ok(CompileResult::from_status(false, String::from("prog.c:1: error")));
    assert_eq!(
        compile_step(failed, true),
        CompileStep::Report(SupervisorError::CompileFailure(String::from("prog.c:1: error")))
    );
}

#[test]
fn unlaunchable_compiler_stops() {
    let step = compile_step(Err(String::from("gcc not found")), true);
    assert_eq!(
        step,
        CompileStep::Stop(SupervisorError::CompileInvocation(String::from("gcc not found")))
    );
}

#[test]
fn startup_compile_never_runs() {
    assert_eq!(compile_step(ok_compile(), false), CompileStep::Idle);
    assert_eq!(compile_step(ok_compile(), true), CompileStep::Run);
    let failed = Ok(CompileResult::from_status(false, String::from("e")));
    assert!(matches!(compile_step(failed, false), CompileStep::Report(_)));
}

#[test]
fn compile_result_keeps_diagnostics_only_on_failure() {
    let ok = CompileResult::from_status(true, String::from("warning"));
    assert!(ok.success);
    assert_eq!(ok.diagnostics, "");
    let bad = CompileResult::from_status(false, String::from("undefined reference"));
    assert!(!bad.success);
    assert_eq!(bad.diagnostics, "undefined reference");
}

#[test]
fn compiler_invocation_shape() {
    assert_eq!(compiler_program(), "gcc");
    assert_eq!(compiler_args("prog.c"), vec!["prog.c", "-o", "output"]);
    assert_eq!(artifact_program(), "./output");
}

#[test]
fn missing_path_exits_with_one_before_watching() {
    let r = check_watch_path(String::from("missing.c"), false);
    assert_eq!(r, Err(SupervisorError::PathNotFound(String::from("missing.c"))));
    let code = r.unwrap_err().exit_code();
    assert_eq!(code, Some(1));
    assert_eq!(FATAL_EXIT_CODE, 1);
    assert_eq!(check_watch_path(String::from("prog.c"), true), Ok(String::from("prog.c")));
}

#[test]
fn recoverable_errors_have_no_exit_code() {
    for e in [
        SupervisorError::CompileFailure(String::new()),
        SupervisorError::ChildSpawn(String::new()),
        SupervisorError::Termination(String::new()),
        SupervisorError::WatchDelivery(String::new()),
    ] {
        assert!(!e.is_fatal());
        assert_eq!(e.exit_code(), None);
    }
    assert!(SupervisorError::WatchRegistration(String::new()).is_fatal());
    assert!(SupervisorError::CompileInvocation(String::new()).is_fatal());
}

#[test]
fn slot_never_holds_two_live_processes() {
    let mut slot = ManagedProcessSlot::new();
    assert!(slot.is_idle());
    assert_eq!(slot.claim(), Some(0));
    assert_eq!(slot.claim(), None);
    assert_eq!(slot.begin_replace(), Some(0));
    assert_eq!(slot.current, None);
    assert_eq!(slot.claim(), None);
    slot.finish_termination(0);
    assert!(slot.is_idle());
    assert_eq!(slot.claim(), Some(1));
    assert_eq!(slot.current, Some(1));
}

#[test]
fn exit_of_replaced_process_leaves_new_one() {
    let mut slot = ManagedProcessSlot::new();
    assert_eq!(slot.claim(), Some(0));
    assert_eq!(slot.begin_replace(), Some(0));
    slot.finish_termination(0);
    assert_eq!(slot.claim(), Some(1));
    assert!(!slot.on_exit(0));
    assert_eq!(slot.current, Some(1));
    assert!(slot.on_exit(1));
    assert!(slot.is_idle());
}

#[test]
fn failed_spawn_leaves_slot_empty() {
    let mut slot = ManagedProcessSlot::new();
    let token = slot.claim().unwrap();
    let r = after_spawn(&mut slot, token, Err(String::from("no such file")));
    assert_eq!(r, Some(SupervisorError::ChildSpawn(String::from("no such file"))));
    assert!(slot.is_idle());
    let token = slot.claim().unwrap();
    assert_eq!(after_spawn(&mut slot, token, Ok(())), None);
    assert_eq!(slot.current, Some(token));
}

#[test]
fn zero_exit_leaves_signal_lowered_and_clears_slot() {
    let cfg = config(0);
    let mut s = RecompileScheduler::new(cfg);
    let mut signal = RerunSignal::new();
    let mut slot = ManagedProcessSlot::new();
    assert_eq!(compile_step(ok_compile(), false), CompileStep::Idle);
    assert!(matches!(s.on_event(Some(WatchEvent::Modify), 2_000), Action::Cycle(_)));
    assert_eq!(compile_step(ok_compile(), true), CompileStep::Run);
    assert_eq!(slot.begin_replace(), None);
    let token = slot.claim().unwrap();
    assert_eq!(after_spawn(&mut slot, token, Ok(())), None);
    assert_eq!(cfg.rerun_delay(Some(0)), None);
    assert!(slot.on_exit(token));
    assert!(slot.is_idle());
    assert!(!signal.is_pending());
    assert_eq!(s.poll_rerun(&mut signal), None);
}

#[test]
fn sentinel_exit_triggers_rerun_after_wait() {
    let cfg = Config::new(true, 5, 0, 5);
    let s = RecompileScheduler::new(cfg);
    let mut signal = RerunSignal::new();
    assert_eq!(cfg.rerun_delay(Some(5)), Some(5));
    signal.raise();
    assert_eq!(
        s.poll_rerun(&mut signal),
        Some(CyclePlan { cause: CycleCause::Rerun, delay_seconds: 0, clear_screen: true })
    );
    assert!(!signal.is_pending());
    assert_eq!(s.poll_rerun(&mut signal), None);
}

#[test]
fn rerun_code_is_configurable() {
    let cfg = Config::new(false, 3, 0, 9);
    assert_eq!(cfg.rerun_delay(Some(9)), Some(3));
    assert_eq!(cfg.rerun_delay(Some(5)), None);
    assert_eq!(cfg.rerun_delay(None), None);
    assert!(exit_requests_rerun(Some(9), 9));
    assert!(!exit_requests_rerun(None, 9));
}

#[test]
fn signal_consumed_once_per_raise_observed() {
    let mut signal = RerunSignal::new();
    signal.raise();
    signal.raise();
    assert!(signal.consume());
    assert!(!signal.consume());
}

#[test]
fn defaults_match_command_line() {
    assert_eq!(DEFAULT_WAIT_SECONDS, 5);
    assert_eq!(DEFAULT_DELAY_SECONDS, 0);
    assert_eq!(DEFAULT_RERUN_CODE, 5);
}

#[test]
fn first_modify_right_after_startup_is_accepted() {
    let mut s = RecompileScheduler::new(config(0));
    assert!(matches!(s.on_event(Some(WatchEvent::Modify), 500), Action::Cycle(_)));
    assert_eq!(s.debounce.last_accepted_ms, Some(500));
    assert_eq!(s.on_event(Some(WatchEvent::Modify), 900), Action::Debounced);
}

#[test]
fn completion_watch_follows_its_process() {
    let mut slot = ManagedProcessSlot::new();
    let token = slot.claim().unwrap();
    assert_eq!(slot.poll_completion(token, ChildPoll::Running), Completion::KeepWaiting);
    assert_eq!(slot.current, Some(token));
    assert_eq!(
        slot.poll_completion(token, ChildPoll::Exited(Some(5))),
        Completion::Finished(Some(5))
    );
    assert!(slot.is_idle());
}

#[test]
fn failed_wait_counts_as_exit_without_code() {
    let mut slot = ManagedProcessSlot::new();
    let token = slot.claim().unwrap();
    assert_eq!(slot.poll_completion(token, ChildPoll::WaitFailed), Completion::Finished(None));
    assert!(slot.is_idle());
}

#[test]
fn completion_watch_of_replaced_process_ends_quietly() {
    let mut slot = ManagedProcessSlot::new();
    let old = slot.claim().unwrap();
    assert_eq!(slot.begin_replace(), Some(old));
    slot.finish_termination(old);
    let new = slot.claim().unwrap();
    assert_eq!(slot.poll_completion(old, ChildPoll::Exited(None)), Completion::Replaced);
    assert_eq!(slot.current, Some(new));
}
