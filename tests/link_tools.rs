use dotfiles::error::DotfilesError;
use dotfiles::link::{
    backup_path, reconcile_one, reconcile_tree, LinkOutcome, LinkStep, ReconciliationTarget,
    TargetState,
};
use dotfiles::text::{join_path, push_decimal, str_contains, str_equal};
use dotfiles::tools::{
    all_tools, check_and_install_tools, install_args, install_event, start_tool_run, status_line,
    Eza, Fd, Neovim, PackageManager, Ripgrep, Tool, ToolEvent, ToolInstaller, ToolRun,
};

fn link(dest: &str, to_dir: bool) -> TargetState {
    TargetState::Link { dest: dest.to_string(), to_dir }
}

#[test]
fn substring_search() {
    assert!(str_contains("/usr/bin/zsh", "zsh"));
    assert!(str_contains("abc", ""));
    assert!(str_contains("", ""));
    assert!(!str_contains("zs", "zsh"));
    assert!(!str_contains("/bin/sh", "bash"));
    assert!(str_equal("bash", "bash"));
    assert!(!str_equal("bash", "bas"));
}

#[test]
fn path_joining() {
    assert_eq!(join_path("/home/u", ".zshrc"), "/home/u/.zshrc");
    assert_eq!(join_path("/home/u/", ".zshrc"), "/home/u/.zshrc");
    assert_eq!(join_path("", "a"), "a");
    assert_eq!(join_path("/home/u", "/etc/x"), "/etc/x");
}

#[test]
fn decimal_notation() {
    let mut s = String::from("t=");
    push_decimal(&mut s, 0);
    assert_eq!(s, "t=0");
    let mut s = String::new();
    push_decimal(&mut s, 18446744073709551615);
    assert_eq!(s, "18446744073709551615");
}

#[test]
fn backup_names() {
    assert_eq!(backup_path("/home/u/.config/nvim", 1700000000), "/home/u/.config/nvim.backup.1700000000");
    assert_eq!(backup_path("x", 7), "x.backup.7");
}

#[test]
fn missing_target_is_created() {
    let step = reconcile_one("/d/home/.config/nvim", "/home/u/.config/nvim", &TargetState::Missing, 5);
    assert_eq!(step, LinkStep::Create);
    assert_eq!(step.outcome(), LinkOutcome::Created);
}

#[test]
fn correct_link_is_kept() {
    let step = reconcile_one("/d/a", "/t/a", &link("/d/a", true), 5);
    assert_eq!(step, LinkStep::Keep);
    assert_eq!(step.outcome(), LinkOutcome::AlreadyLinked);
}

#[test]
fn link_is_compared_without_canonicalising() {
    let step = reconcile_one("/d/a", "/t/a", &link("/d/./a", false), 5);
    assert_eq!(step, LinkStep::Replace { dir: false });
}

#[test]
fn stale_link_is_replaced_without_backup() {
    let step = reconcile_one("/d/a", "/t/a", &link("/elsewhere/a", true), 5);
    assert_eq!(step, LinkStep::Replace { dir: true });
    assert_eq!(step.outcome(), LinkOutcome::Relinked);
    let step = reconcile_one("/d/a", "/t/a", &link("/elsewhere/a", false), 5);
    assert_eq!(step, LinkStep::Replace { dir: false });
}

#[test]
fn real_file_is_backed_up_then_linked() {
    let step = reconcile_one("/d/a", "/t/a", &TargetState::Entry, 1712345678);
    assert_eq!(step, LinkStep::BackUp { backup: "/t/a.backup.1712345678".to_string() });
    assert_eq!(step.outcome(), LinkOutcome::BackedUpAndLinked);
}

#[test]
fn second_pass_finds_everything_linked() {
    let entries = reconcile_tree("/d", "/t", &vec!["a".to_string(), "b".to_string(), "c".to_string()], &vec![]);
    let observed = vec![TargetState::Missing, TargetState::Entry, link("/x", false)];
    let mut backups = 0;
    for (e, o) in entries.iter().zip(observed.iter()) {
        if let LinkStep::BackUp { .. } = reconcile_one(&e.source, &e.target, o, 100) {
            backups += 1;
        }
    }
    assert_eq!(backups, 1);
    let again = reconcile_tree("/d", "/t", &vec!["a".to_string(), "b".to_string(), "c".to_string()], &vec![]);
    assert_eq!(again, entries);
    for e in again.iter() {
        let step = reconcile_one(&e.source, &e.target, &link(&e.source, false), 101);
        assert_eq!(step.outcome(), LinkOutcome::AlreadyLinked);
    }
}

#[test]
fn tree_skips_excluded_names() {
    let names = vec!["nvim".to_string(), ".config".to_string(), "git".to_string()];
    let r = reconcile_tree("/d/home", "/home/u/", &names, &vec![".config".to_string()]);
    assert_eq!(
        r,
        vec![
            ReconciliationTarget { source: "/d/home/nvim".to_string(), target: "/home/u/nvim".to_string() },
            ReconciliationTarget { source: "/d/home/git".to_string(), target: "/home/u/git".to_string() },
        ]
    );
    assert_eq!(reconcile_tree("/d", "/t", &vec![], &vec![]), vec![]);
}

#[test]
fn registry_order_and_names() {
    let tools = all_tools();
    let names: Vec<&str> = tools.iter().map(|t| t.name()).collect();
    assert_eq!(names, vec!["eza", "rg", "fd", "nvim"]);
    let packages: Vec<&str> = tools.iter().map(|t| t.package()).collect();
    assert_eq!(packages, vec!["eza", "ripgrep", "fd-find", "nvim"]);
    assert_eq!(tools[3].manager(), PackageManager::Brew);
    assert_eq!(tools[0].manager(), PackageManager::Cargo);
    assert_eq!(Eza.name(), "eza");
    assert_eq!(Ripgrep.package(), "ripgrep");
    assert_eq!(Fd.package(), "fd-find");
    assert_eq!(Neovim.manager().program(), "brew");
}

#[test]
fn status_lines() {
    assert_eq!(status_line(&Tool::Ripgrep(Ripgrep), true), "rg: Installed");
    assert_eq!(status_line(&Tool::Neovim(Neovim), false), "nvim: Not Installed");
}

#[test]
fn install_command_arguments() {
    assert_eq!(install_args(&Tool::Fd(Fd)), vec!["install".to_string(), "fd-find".to_string()]);
}

#[test]
fn install_attempt_events() {
    assert_eq!(
        install_event(&Tool::Eza(Eza), false, false, ""),
        ToolEvent::InstallFailed(DotfilesError::ToolUnavailable("cargo".to_string()))
    );
    assert_eq!(
        install_event(&Tool::Neovim(Neovim), false, false, ""),
        ToolEvent::InstallFailed(DotfilesError::ToolUnavailable("brew".to_string()))
    );
    assert_eq!(
        install_event(&Tool::Ripgrep(Ripgrep), true, false, "boom"),
        ToolEvent::InstallFailed(DotfilesError::SubprocessFailure("ripgrep".to_string(), "boom".to_string()))
    );
    assert_eq!(install_event(&Tool::Fd(Fd), true, true, ""), ToolEvent::InstallSucceeded);
}

#[test]
fn workflow_skips_installed_and_installs_missing() {
    let mut run = start_tool_run(2);
    assert_eq!(run, ToolRun::Checking(0));
    run = check_and_install_tools(run, ToolEvent::Present, 2);
    assert_eq!(run, ToolRun::Checking(1));
    run = check_and_install_tools(run, ToolEvent::Absent, 2);
    assert_eq!(run, ToolRun::Installing(1));
    run = check_and_install_tools(run, ToolEvent::InstallSucceeded, 2);
    assert_eq!(run, ToolRun::Done);
    assert_eq!(start_tool_run(0), ToolRun::Done);
}

#[test]
fn workflow_stops_at_first_failure() {
    let err = DotfilesError::SubprocessFailure("eza".to_string(), "e".to_string());
    let run = check_and_install_tools(ToolRun::Checking(0), ToolEvent::Absent, 4);
    let run = check_and_install_tools(run, ToolEvent::InstallFailed(err.clone()), 4);
    assert_eq!(run, ToolRun::Failed(err));
    let same = check_and_install_tools(ToolRun::Checking(2), ToolEvent::InstallSucceeded, 4);
    assert_eq!(same, ToolRun::Checking(2));
}
