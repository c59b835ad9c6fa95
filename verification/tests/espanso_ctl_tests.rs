use espanso_manager::espanso_ctl::{run_step, RunStep};
use espanso_manager::espanso_ctl::{
    pause_before_next_poll, poll_deadline, timed_out, CtlResult, EspansoCtl, StartAction, StartEvent, Startup,
    CTL_TIMEOUT_MS, START_WAIT_SECS,
};
use espanso_manager::i18n::Lang;
use espanso_manager::pause::{ctl_result_to_message, PauseCommand, PauseState, PAUSE_DURATION_MS};
use espanso_manager::espanso_ctl::{pipe_try_again, PIPE_ATTEMPTS};

fn answer(success: bool, stdout: &str, stderr: &str) -> CtlResult {
    CtlResult { success, stdout: stdout.to_string(), stderr: stderr.to_string() }
}

fn ctl() -> EspansoCtl {
    EspansoCtl::new("C:\\Espanso\\espansod.exe".to_string())
}

fn args(inv: &espanso_manager::espanso_ctl::Invocation) -> Vec<&str> {
    inv.args.iter().map(|s| s.as_str()).collect()
}

#[test]
fn the_detail_prefers_the_error_output() {
    assert_eq!(answer(false, " out ", "  err\n").detail(), "err");
    assert_eq!(answer(false, " out \n", " \t ").detail(), "out");
    assert_eq!(answer(false, "", "").detail(), "");
}

#[test]
fn a_killed_command_names_the_budget_it_really_had() {
    let t = Lang::En.strings();
    let r = timed_out(4000, t);
    assert!(!r.success);
    assert!(r.stdout.is_empty());
    assert_eq!(r.stderr, "espansod.exe did not respond within 4 seconds and had to be closed.");
    assert_eq!(timed_out(300, t).stderr, "espansod.exe did not respond within 1 seconds and had to be closed.");
    assert_eq!(timed_out(6999, t).stderr, "espansod.exe did not respond within 6 seconds and had to be closed.");
}

#[test]
fn a_poll_never_outlives_its_wait() {
    assert_eq!(poll_deadline(1_000, 10_000), 1_000 + CTL_TIMEOUT_MS);
    assert_eq!(poll_deadline(8_000, 10_000), 10_000);
    assert_eq!(poll_deadline(12_000, 10_000), 10_000);
    assert_eq!(pause_before_next_poll(1_000, 10_000), Some(300));
    assert_eq!(pause_before_next_poll(9_900, 10_000), Some(100));
    assert_eq!(pause_before_next_poll(10_000, 10_000), None);
}

#[test]
fn the_commands_are_the_ones_espansod_expects() {
    let c = ctl();
    assert_eq!(args(&c.service_status()), vec!["service", "status"]);
    assert!(!c.service_status().detached);
    assert_eq!(args(&c.cmd_enable()), vec!["cmd", "enable"]);
    assert_eq!(args(&c.cmd_disable()), vec!["cmd", "disable"]);
    assert_eq!(args(&c.service_stop_detached()), vec!["service", "stop"]);
    assert!(c.service_stop_detached().detached);
    assert_eq!(args(&c.service_restart()), vec!["service", "restart"]);
    assert_eq!(args(&c.version_query()), vec!["--version"]);
    assert_eq!(args(&c.runtime_query()), vec!["path", "runtime"]);
}

#[test]
fn running_means_the_status_command_succeeded() {
    let c = ctl();
    assert!(c.is_running(Some(&answer(true, "espanso is running", ""))));
    assert!(!c.is_running(Some(&answer(false, "", "not running"))));
    assert!(!c.is_running(None));
}

#[test]
fn the_version_is_the_last_word_printed() {
    let c = ctl();
    assert_eq!(c.version(Some(&answer(true, "espanso 2.2.1\n", ""))), Some("2.2.1".to_string()));
    assert_eq!(c.version(Some(&answer(true, "   \n", ""))), None);
    assert_eq!(c.version(Some(&answer(false, "espanso 2.2.1", ""))), None);
    assert_eq!(c.version(None), None);
}

#[test]
fn the_runtime_folder_is_what_espanso_says_trimmed() {
    let c = ctl();
    assert_eq!(
        c.runtime_dir(Some(&answer(true, " C:\\E\\.espanso-runtime\r\n", ""))),
        Some("C:\\E\\.espanso-runtime".to_string())
    );
    assert_eq!(c.runtime_dir(Some(&answer(true, "\n", ""))), None);
    assert_eq!(c.runtime_dir(Some(&answer(false, "C:\\x", ""))), None);
}

#[test]
fn an_expansion_request_is_one_json_line_with_the_trigger_escaped() {
    let c = ctl();
    let e = c.match_exec(":say \"hi\"\\now");
    assert_eq!(
        e.pipe_line,
        "{\"RequestMatchExpansion\":{\"args\":{},\"trigger\":\":say \\\"hi\\\"\\\\now\"}}\n"
    );
    assert_eq!(args(&e.fallback), vec!["match", "exec", "--trigger", ":say \"hi\"\\now"]);
    assert!(e.fallback.detached);
    assert_eq!(
        c.match_exec(":tab\there").pipe_line,
        "{\"RequestMatchExpansion\":{\"args\":{},\"trigger\":\":tab\\there\"}}\n"
    );
}

fn step(c: &EspansoCtl, s: Startup, e: StartEvent) -> (Startup, StartAction) {
    c.ensure_running(s, e, Lang::En.strings())
}

#[test]
fn start_up_checks_then_tries_each_way_in_turn() {
    let c = ctl();
    let (s, a) = step(&c, Startup::Begin, StartEvent::Go);
    assert_eq!(s, Startup::CheckingExe);
    assert!(matches!(a, StartAction::CheckExe));
    let (s, a) = step(&c, s, StartEvent::ExeExists(true));
    assert!(matches!(a, StartAction::CheckStatus));
    let (s, a) = step(&c, s, StartEvent::Running(false));
    assert!(matches!(&a, StartAction::Launch(inv) if args(inv) == vec!["service", "start"]));
    let (s, a) = step(&c, s, StartEvent::Launched(None));
    assert!(matches!(a, StartAction::WaitRunning(n) if n == START_WAIT_SECS));
    let (s, a) = step(&c, s, StartEvent::Answered(false));
    assert!(matches!(&a, StartAction::Launch(inv) if args(inv) == vec!["service", "start", "--unmanaged"]));
    let (s, _) = step(&c, s, StartEvent::Launched(Some("ignored".to_string())));
    let (s, a) = step(&c, s, StartEvent::Answered(false));
    assert!(matches!(&a, StartAction::Launch(inv) if args(inv) == vec!["daemon"]));
    let (s2, a) = step(&c, s, StartEvent::Launched(Some("access denied".to_string())));
    assert_eq!(s2, Startup::Finished);
    assert!(matches!(a, StartAction::Finish(Err(m)) if m == "Could not start Espanso: access denied"));
    let (_, a) = step(&c, s, StartEvent::Launched(None));
    let (s3, a2) = step(&c, Startup::Waiting(2), StartEvent::Answered(false));
    assert!(matches!(a, StartAction::WaitRunning(_)));
    assert_eq!(s3, Startup::Finished);
    assert!(matches!(a2, StartAction::Finish(Err(m)) if m == "Espanso did not respond after trying to start it."));
}

#[test]
fn start_up_ends_at_once_when_it_can() {
    let c = ctl();
    let (_, a) = step(&c, Startup::CheckingExe, StartEvent::ExeExists(false));
    assert!(matches!(a, StartAction::Finish(Err(m))
        if m == "espansod.exe was not found next to EspansoManager.exe (expected at C:\\Espanso\\espansod.exe)."));
    let (_, a) = step(&c, Startup::CheckingStatus, StartEvent::Running(true));
    assert!(matches!(a, StartAction::Finish(Ok(()))));
    let (_, a) = step(&c, Startup::Waiting(1), StartEvent::Answered(true));
    assert!(matches!(a, StartAction::Finish(Ok(()))));
    let (s, a) = step(&c, Startup::CheckingStatus, StartEvent::Go);
    assert_eq!(s, Startup::Finished);
    assert!(matches!(a, StartAction::Finish(Err(_))));
}

#[test]
fn a_restart_that_never_answers_is_reported() {
    let t = Lang::En.strings();
    assert_eq!(ctl().restart_and_confirm(true, t), Ok(()));
    assert_eq!(ctl().restart_and_confirm(false, t), Err(t.err_restart_unconfirmed.to_string()));
}

#[test]
fn a_tray_command_outcome_becomes_a_sentence() {
    let t = Lang::En.strings();
    assert_eq!(ctl_result_to_message(Ok(&answer(true, "", "")), "pause", t), Ok(()));
    assert_eq!(
        ctl_result_to_message(Ok(&answer(false, "", " busy ")), "pause", t),
        Err("Espanso could not pause.\n\nbusy".to_string())
    );
    assert_eq!(
        ctl_result_to_message(Err("pipe closed"), "resume", t),
        Err("Could not communicate with Espanso to resume: pipe closed".to_string())
    );
}

#[test]
fn pausing_and_resuming_undo_each_other() {
    let t = Lang::En.strings();
    let ok: Result<(), String> = Ok(());
    let failed: Result<(), String> = Err("no".to_string());
    let s = PauseState::Active;
    assert_eq!(s.toggle_command(), PauseCommand::Disable);
    assert_eq!(s.toggle_verb(t), t.verb_pause);
    assert_eq!(s.toggle_label(t), t.tray_pause);
    let paused = s.toggle(&ok);
    assert_eq!(paused, PauseState::PausedIndefinite);
    assert_eq!(paused.toggle_command(), PauseCommand::Enable);
    assert_eq!(paused.toggle_label(t), t.tray_resume);
    assert_eq!(paused.toggle(&ok), PauseState::Active);
    assert_eq!(s.toggle(&failed), PauseState::Active);
}

#[test]
fn a_timed_pause_runs_out_once_and_only_once() {
    let ok: Result<(), String> = Ok(());
    let failed: Result<(), String> = Err("no".to_string());
    let s = PauseState::Active.pause_timed(1_000, &ok);
    assert_eq!(s, PauseState::PausedTimed(1_000 + PAUSE_DURATION_MS));
    assert_eq!(s.timed_pause_deadline(), Some(1_000 + PAUSE_DURATION_MS));
    assert!(!s.tick_due(1_000 + PAUSE_DURATION_MS - 1));
    assert!(s.tick_due(1_000 + PAUSE_DURATION_MS));
    assert_eq!(s.tick(&ok), PauseState::Active);
    let after_failure = s.tick(&failed);
    assert_eq!(after_failure, PauseState::PausedIndefinite);
    assert!(!after_failure.tick_due(u64::MAX));
    assert_eq!(after_failure.timed_pause_deadline(), None);
    assert_eq!(PauseState::Active.pause_timed(u64::MAX - 5, &ok), PauseState::PausedTimed(u64::MAX));
    assert_eq!(PauseState::Active.pause_timed(5, &failed), PauseState::Active);
}

#[test]
fn the_pipe_is_tried_three_times_before_the_command_takes_over() {
    assert_eq!(PIPE_ATTEMPTS, 3);
    assert!(pipe_try_again(1));
    assert!(pipe_try_again(2));
    assert!(!pipe_try_again(3));
}

#[test]
fn a_running_command_is_collected_killed_or_looked_at_again() {
    assert_eq!(run_step(true, 1_000, 4_000), RunStep::Collect { read_for_ms: 3_000 });
    assert_eq!(run_step(true, 5_000, 4_000), RunStep::Collect { read_for_ms: 0 });
    assert_eq!(run_step(false, 4_000, 4_000), RunStep::Kill);
    assert_eq!(run_step(false, 3_999, 4_000), RunStep::Poll { after_ms: 30 });
}
