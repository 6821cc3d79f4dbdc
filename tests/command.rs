use guswitch::command::{
    format_outcome, read_args, write_args, GatewayError, SwitchAction, SwitchEnd, SwitchError,
    SwitchEvent, SwitchMode, SwitchSession,
};
use guswitch::config::{GitUser, GitUserName, LoadedConfiguration};

#[test]
fn test_switch_mode_creation() {
    assert_eq!(SwitchMode::new(false, false), SwitchMode::Local);
    assert_eq!(SwitchMode::new(true, false), SwitchMode::Local);
    assert_eq!(SwitchMode::new(false, true), SwitchMode::Global);
    assert_eq!(SwitchMode::new(true, true), SwitchMode::Global);
}

#[test]
fn scope_flags_and_tokens() {
    assert_eq!(SwitchMode::Local.to_arg(), "--local");
    assert_eq!(SwitchMode::Global.to_arg(), "--global");
    assert_eq!(SwitchMode::Local.to_token(), "local");
    assert_eq!(SwitchMode::Global.to_token(), "global");
}

#[test]
fn git_arguments() {
    assert_eq!(
        read_args(SwitchMode::Global, "user.name"),
        vec!["config", "--global", "user.name"]
    );
    assert_eq!(
        write_args(SwitchMode::Local, "user.email", "alice@x.com"),
        vec!["config", "--local", "user.email", "alice@x.com"]
    );
}

#[test]
fn outcome_is_trimmed() {
    assert_eq!(
        format_outcome("Alice\n", "  alice@x.com\n", SwitchMode::Local),
        "user: Alice, email: alice@x.com [local]"
    );
    assert_eq!(format_outcome("", "", SwitchMode::Global), "user: , email:  [global]");
}

fn user(name: &str, email: &str) -> GitUser {
    GitUser { name: name.to_string(), email: email.to_string(), description: None }
}

fn session(mode: SwitchMode) -> SwitchSession {
    let cfg = LoadedConfiguration { users: vec![user("Bob", "bob@y.com"), user("Alice", "alice@x.com")] };
    SwitchSession::start(cfg, mode).unwrap()
}

fn run_git(a: SwitchAction) -> Vec<String> {
    match a {
        SwitchAction::RunGit(args) => args,
        other => panic!("expected a git run, got {:?}", other),
    }
}

#[test]
fn choices_are_sorted_names() {
    let s = session(SwitchMode::Local);
    let names: Vec<String> = s.choices().into_iter().map(|n| n.0).collect();
    assert_eq!(names, vec!["Alice", "Bob"]);
}

#[test]
fn switch_writes_both_fields_then_reads_back() {
    let mut s = session(SwitchMode::Local);
    let a = s.step(SwitchEvent::Picked(GitUserName("Alice".to_string())));
    assert_eq!(run_git(a), vec!["config", "--local", "user.name", "Alice"]);
    let a = s.step(SwitchEvent::GitDone(Ok(String::new())));
    assert_eq!(run_git(a), vec!["config", "--local", "user.email", "alice@x.com"]);
    let a = s.step(SwitchEvent::GitDone(Ok(String::new())));
    assert_eq!(run_git(a), vec!["config", "--local", "user.name"]);
    let a = s.step(SwitchEvent::GitDone(Ok("Alice\n".to_string())));
    assert_eq!(run_git(a), vec!["config", "--local", "user.email"]);
    let a = s.step(SwitchEvent::GitDone(Ok("alice@x.com\n".to_string())));
    let end = SwitchEnd::Switched("user: Alice, email: alice@x.com [local]".to_string());
    assert_eq!(a, SwitchAction::Finish(end));
}

#[test]
fn failed_email_write_stops_without_reading_back() {
    let mut s = session(SwitchMode::Global);
    let a = s.step(SwitchEvent::Picked(GitUserName("Bob".to_string())));
    assert_eq!(run_git(a), vec!["config", "--global", "user.name", "Bob"]);
    let a = s.step(SwitchEvent::GitDone(Ok(String::new())));
    assert_eq!(run_git(a), vec!["config", "--global", "user.email", "bob@y.com"]);
    let err = GatewayError::ProcessFailed("git exited with 255".to_string());
    let a = s.step(SwitchEvent::GitDone(Err(err)));
    let failed = SwitchEnd::Failed(SwitchError::Gateway(GatewayError::ProcessFailed(
        "git exited with 255".to_string(),
    )));
    assert_eq!(failed.exit_code(), 1);
    assert_eq!(a, SwitchAction::Finish(failed));
}

#[test]
fn cancelled_picker_exits_zero_without_writing() {
    let mut s = session(SwitchMode::Local);
    let a = s.step(SwitchEvent::PickerClosed("Operation was canceled by the user".to_string()));
    match a {
        SwitchAction::Finish(end) => {
            assert_eq!(end, SwitchEnd::Cancelled("Operation was canceled by the user".to_string()));
            assert_eq!(end.exit_code(), 0);
        }
        other => panic!("expected the switch to end, got {:?}", other),
    }
}

#[test]
fn unknown_choice_is_an_error() {
    let mut s = session(SwitchMode::Local);
    let a = s.step(SwitchEvent::Picked(GitUserName("Carol".to_string())));
    assert_eq!(
        a,
        SwitchAction::Finish(SwitchEnd::Failed(SwitchError::UnknownIdentity("Carol".to_string())))
    );
}

#[test]
fn out_of_order_event_is_an_error() {
    let mut s = session(SwitchMode::Local);
    let a = s.step(SwitchEvent::GitDone(Ok(String::new())));
    assert_eq!(a, SwitchAction::Finish(SwitchEnd::Failed(SwitchError::UnexpectedEvent)));
}

#[test]
fn read_back_encoding_error_is_reported() {
    let mut s = session(SwitchMode::Local);
    s.step(SwitchEvent::Picked(GitUserName("Alice".to_string())));
    s.step(SwitchEvent::GitDone(Ok(String::new())));
    s.step(SwitchEvent::GitDone(Ok(String::new())));
    let a = s.step(SwitchEvent::GitDone(Err(GatewayError::Encoding)));
    assert_eq!(a, SwitchAction::Finish(SwitchEnd::Failed(SwitchError::Gateway(GatewayError::Encoding))));
}

#[test]
fn invalid_config_does_not_start() {
    let cfg = LoadedConfiguration { users: vec![user("Alice", "alice@x.com"), user("Bob", "")] };
    assert!(SwitchSession::start(cfg, SwitchMode::Local).is_err());
}
