use trench::hooks::copy::{entry_action, CopyRules, EntryAction, EntryKind};
use trench::hooks::run::{finish_run, next_command, CommandOutput};

fn output(command: &str, exit_code: i32) -> CommandOutput {
    CommandOutput { command: command.to_string(), stdout: String::new(), stderr: String::new(), exit_code }
}

#[test]
fn copy_rules_include_and_exclude() {
    let rules = CopyRules::compile(&vec![".env*".to_string(), "!.env.example".to_string()]).unwrap();
    let files = vec![".env".to_string(), ".env.local".to_string(), ".env.example".to_string(), "README.md".to_string()];
    assert_eq!(rules.select(&files), vec![".env".to_string(), ".env.local".to_string()]);
    assert!(rules.wants(".env"));
    assert!(!rules.wants(".env.example"));
}

#[test]
fn copy_rules_without_includes_copy_nothing() {
    let rules = CopyRules::compile(&vec!["!*.log".to_string()]).unwrap();
    assert!(rules.select(&vec!["a.txt".to_string(), "b.log".to_string()]).is_empty());
}

#[test]
fn copy_rules_reject_invalid_glob() {
    let err = CopyRules::compile(&vec!["ok*".to_string(), "[unclosed".to_string()]).err().expect("should fail");
    assert!(err.message().contains("[unclosed"));
}

#[test]
fn symlinks_are_never_followed() {
    assert_eq!(entry_action(EntryKind::Symlink, true), EntryAction::Skip);
    assert_eq!(entry_action(EntryKind::Directory, false), EntryAction::Descend);
    assert_eq!(entry_action(EntryKind::File, true), EntryAction::Copy);
    assert_eq!(entry_action(EntryKind::File, false), EntryAction::Skip);
    assert_eq!(entry_action(EntryKind::Other, true), EntryAction::Skip);
}

#[test]
fn run_stops_at_first_failure() {
    let commands = vec!["echo a".to_string(), "exit 1".to_string(), "echo b".to_string()];
    let mut executed: Vec<CommandOutput> = Vec::new();
    let mut ran: Vec<String> = Vec::new();
    while let Some(i) = next_command(&commands, &executed) {
        ran.push(commands[i].clone());
        let code = if commands[i] == "exit 1" { 1 } else { 0 };
        executed.push(output(&commands[i], code));
    }
    assert_eq!(ran, vec!["echo a".to_string(), "exit 1".to_string()], "the third command never runs");
    let err = finish_run(executed).unwrap_err();
    assert_eq!(err.command, "exit 1");
    assert_eq!(err.exit_code, 1);
    assert_eq!(err.results.executed.len(), 2);
    assert_eq!(err.message(), "command exit 1 exited with code 1");
}

#[test]
fn run_all_succeed() {
    let commands = vec!["true".to_string(), "true".to_string()];
    let mut executed: Vec<CommandOutput> = Vec::new();
    while let Some(i) = next_command(&commands, &executed) {
        executed.push(output(&commands[i], 0));
    }
    let res = finish_run(executed).unwrap();
    assert_eq!(res.executed.len(), 2);
}

#[test]
fn run_failure_message_with_negative_code() {
    let err = finish_run(vec![output("kill", -1)]).unwrap_err();
    assert_eq!(err.message(), "command kill exited with code -1");
}
