use ame::commands::CommandStatus;
use ame::error::{AppError, AppResult};
use ame::sudoloop::{prompt_sudo, SudoLoop};

#[test]
fn a_fresh_keepalive_prompts() {
    let s = SudoLoop::new();
    assert!(s.should_prompt());
}

#[test]
fn successful_validation_keeps_the_loop_running() {
    let mut s = SudoLoop::new();
    s.record_validation(false);
    assert!(s.should_prompt());
}

#[test]
fn failed_validation_stops_the_loop_permanently() {
    let mut s = SudoLoop::new();
    s.record_validation(false);
    s.record_validation(true);
    assert!(!s.should_prompt());
    s.record_validation(false);
    assert!(!s.should_prompt());
    s.record_validation(true);
    assert!(!s.should_prompt());
}

#[test]
fn no_validation_call_is_issued_after_a_failure() {
    let mut s = SudoLoop::new();
    let outcomes = [false, true, false, false];
    let mut calls = 0usize;
    for failed in outcomes {
        if !s.should_prompt() {
            break;
        }
        calls += 1;
        s.record_validation(failed);
    }
    assert_eq!(calls, 2);
}

#[test]
fn prompt_sudo_fails_on_spawn_error_or_nonzero_exit() {
    let ok: AppResult<CommandStatus> = Ok(CommandStatus { success: true });
    assert!(!prompt_sudo(&ok));
    let nonzero: AppResult<CommandStatus> = Ok(CommandStatus { success: false });
    assert!(prompt_sudo(&nonzero));
    let spawn: AppResult<CommandStatus> = Err(AppError::Spawn("missing".to_string()));
    assert!(prompt_sudo(&spawn));
}
