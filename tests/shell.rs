use crabshell::child::{next_wait_step, ChildState, WaitStep};
use crabshell::command::{classify, help_banner, missing_dir_message, setup, Command, Identity};
use crabshell::session::{Action, Event, Phase, Shell};
use crabshell::system::{change_directory, poll_child};
use crabshell::tokens::parse_line;

fn strings(v: &[&str]) -> Vec<String> {
    v.iter().map(|s| s.to_string()).collect()
}

fn idle_shell() -> Shell {
    Shell::new(setup())
}

#[test]
fn parse_splits_on_single_spaces() {
    assert_eq!(parse_line("ls -la /tmp\n"), strings(&["ls", "-la", "/tmp"]));
}

#[test]
fn parse_keeps_empty_pieces() {
    assert_eq!(parse_line("a  b"), strings(&["a", "", "b"]));
    assert_eq!(parse_line(" x"), strings(&["", "x"]));
}

#[test]
fn parse_drops_trailing_white_space() {
    assert_eq!(parse_line("echo hi \t\r\n"), strings(&["echo", "hi"]));
}

#[test]
fn parse_blank_line_gives_no_token() {
    assert!(parse_line("").is_empty());
    assert!(parse_line("\n").is_empty());
    assert!(parse_line("   \n").is_empty());
}

#[test]
fn setup_identity() {
    let id = setup();
    assert_eq!(id.name, "CrabShell🦀");
    assert_eq!(id.version, "0.1.0");
}

#[test]
fn banner_holds_name_and_version() {
    let id = Identity { name: "tsh".to_string(), version: "2.5".to_string() };
    let b = help_banner(&id);
    assert_eq!(b, "Welcome to tsh,\n version: 2.5,\n A crappy little shell");
    assert!(b.contains("tsh"));
    assert!(b.contains("2.5"));
}

#[test]
fn classify_builtins() {
    assert_eq!(classify(vec![]), Command::Empty);
    assert_eq!(classify(strings(&["exit"])), Command::Exit);
    assert_eq!(classify(strings(&["exit", "3"])), Command::Exit);
    assert_eq!(classify(strings(&["help", "me"])), Command::Help);
    assert_eq!(classify(strings(&["cd"])), Command::MissingDir);
    assert_eq!(classify(strings(&["cd", "/tmp", "x"])), Command::ChangeDir("/tmp".to_string()));
}

#[test]
fn classify_external_keeps_all_tokens() {
    assert_eq!(classify(strings(&["echo", "hi"])), Command::External(strings(&["echo", "hi"])));
    assert_eq!(classify(strings(&["Exit"])), Command::External(strings(&["Exit"])));
}

#[test]
fn classify_sends_nul_argument_to_launcher() {
    assert_eq!(
        classify(strings(&["echo", "a\0b"])),
        Command::External(strings(&["echo", "a\0b"]))
    );
}

#[test]
fn exit_terminates_with_zero() {
    let mut sh = idle_shell();
    assert_eq!(sh.step(Event::Line("exit\n".to_string())), Action::Terminate(0));
    assert_eq!(sh.phase, Phase::Finished(0));
    assert_eq!(sh.step(Event::Line("help".to_string())), Action::Terminate(0));
}

#[test]
fn exit_with_arguments_terminates() {
    let mut sh = idle_shell();
    assert_eq!(sh.step(Event::Line("exit now".to_string())), Action::Terminate(0));
}

#[test]
fn closed_input_terminates() {
    let mut sh = idle_shell();
    assert_eq!(sh.step(Event::InputClosed), Action::Terminate(0));
}

#[test]
fn help_prints_banner_and_spawns_nothing() {
    let mut sh = idle_shell();
    let expected = "Welcome to CrabShell🦀,\n version: 0.1.0,\n A crappy little shell".to_string();
    assert_eq!(sh.step(Event::Line("help".to_string())), Action::Print(expected));
    assert_eq!(sh.phase, Phase::Idle);
}

#[test]
fn help_repeats_alike() {
    let mut sh = idle_shell();
    let first = sh.step(Event::Line("help".to_string()));
    for _ in 0..5 {
        assert_eq!(sh.step(Event::Line("help".to_string())), first);
        assert_eq!(sh.phase, Phase::Idle);
        assert_eq!(sh.step(Event::Done), Action::Prompt);
    }
}

#[test]
fn cd_without_directory_reports() {
    let mut sh = idle_shell();
    assert_eq!(
        sh.step(Event::Line("cd".to_string())),
        Action::Report("Please specify a directory".to_string())
    );
    assert_eq!(sh.phase, Phase::Idle);
    assert_eq!(missing_dir_message(), "Please specify a directory");
}

#[test]
fn cd_nonexistent_path_fails_and_prompts_again() {
    let mut sh = idle_shell();
    let first = sh.step(Event::Line("cd /nonexistent-path".to_string()));
    assert_eq!(first, Action::ChangeDir("/nonexistent-path".to_string()));
    assert_eq!(change_directory(&"/nonexistent-path".to_string()), Err(nix::errno::Errno::ENOENT));
    assert_eq!(sh.step(Event::Done), Action::Prompt);
    assert_eq!(sh.step(Event::Line("cd /nonexistent-path".to_string())), first);
    assert_eq!(sh.phase, Phase::Idle);
}

#[test]
fn cd_to_existing_directory_succeeds() {
    assert_eq!(change_directory(&"/".to_string()), Ok(()));
}

#[test]
fn cd_path_with_nul_fails() {
    assert!(change_directory(&"/tm\0p".to_string()).is_err());
}

#[test]
fn echo_spawns_and_waits_before_prompt() {
    let mut sh = idle_shell();
    assert_eq!(
        sh.step(Event::Line("echo hi".to_string())),
        Action::Spawn(strings(&["echo", "hi"]))
    );
    assert_eq!(sh.step(Event::ChildStarted(42)), Action::Wait(42));
    assert_eq!(sh.step(Event::Waited(WaitStep::Pending)), Action::Wait(42));
    assert_eq!(sh.step(Event::Line("help".to_string())), Action::Wait(42));
    assert_eq!(sh.step(Event::Waited(WaitStep::Ended)), Action::Prompt);
    assert_eq!(sh.phase, Phase::Idle);
}

#[test]
fn failed_spawn_is_reported() {
    let mut sh = idle_shell();
    sh.step(Event::Line("nosuchprogram".to_string()));
    assert_eq!(
        sh.step(Event::SpawnFailed),
        Action::Report("Failure forking process".to_string())
    );
    assert_eq!(sh.phase, Phase::Idle);
}

#[test]
fn failed_wait_is_reported() {
    let mut sh = idle_shell();
    sh.step(Event::Line("sleep 1".to_string()));
    sh.step(Event::ChildStarted(7));
    assert_eq!(sh.step(Event::Waited(WaitStep::Failed)), Action::ReportWaitFailure(7));
    assert_eq!(sh.current_action(), Action::Prompt);
}

#[test]
fn nul_argument_still_spawns() {
    let mut sh = idle_shell();
    assert_eq!(
        sh.step(Event::Line("echo a\0b".to_string())),
        Action::Spawn(strings(&["echo", "a\0b"]))
    );
}

#[test]
fn near_builtin_names_spawn() {
    for name in ["Exit", "exit2", "helpme", "CD"] {
        let mut sh = idle_shell();
        assert_eq!(sh.step(Event::Line(name.to_string())), Action::Spawn(strings(&[name])));
    }
}

#[test]
fn blank_line_prompts_again() {
    let mut sh = idle_shell();
    assert_eq!(sh.step(Event::Line("\n".to_string())), Action::Prompt);
    assert_eq!(sh.phase, Phase::Idle);
}

#[test]
fn wait_steps() {
    assert_eq!(next_wait_step(Some(ChildState::Exited(0))), WaitStep::Ended);
    assert_eq!(next_wait_step(Some(ChildState::Exited(127))), WaitStep::Ended);
    assert_eq!(next_wait_step(Some(ChildState::Signaled(9))), WaitStep::Ended);
    assert_eq!(next_wait_step(Some(ChildState::Signaled(15))), WaitStep::Ended);
    assert_eq!(next_wait_step(Some(ChildState::Stopped(19))), WaitStep::Pending);
    assert_eq!(next_wait_step(Some(ChildState::Continued)), WaitStep::Pending);
    assert_eq!(next_wait_step(Some(ChildState::StillAlive)), WaitStep::Pending);
    assert_eq!(next_wait_step(None), WaitStep::Failed);
}

#[test]
fn poll_of_a_stranger_fails() {
    assert_eq!(poll_child(999_999), WaitStep::Failed);
}
