use npack::ledger::SyncLedger;
use npack::task::{line_marks, message_column, status_label, task_passed, worker_count, Mark, TaskError, TaskManager, TaskType};
use npack::package::Package;
use npack::update::{do_update, update_plugin};
use npack::error::Error;
use npack::git::{has_nul, submodule_step, GitError, SubStep, SyncLog};

fn log_of_local_is_empty(p: &Package) -> bool {
    let mut log = SyncLog::new();
    let _ = do_update(p, "/nonexistent", true, &mut log);
    log.stages.is_empty() && log.walk.is_empty()
}

fn names(v: &[&str]) -> Vec<String> {
    v.iter().map(|s| s.to_string()).collect()
}

#[test]
fn check_accepts_nonempty_batch_on_three_lines() {
    let mut m = TaskManager::new(TaskType::Install, 2);
    m.add(Package::new("a/b", "default", false));
    assert!(m.check(3).is_ok());
    assert!(m.check(40).is_ok());
}

#[test]
fn check_refuses_empty_batch() {
    let m = TaskManager::new(TaskType::Update, 1);
    assert!(matches!(m.check(40), Err(TaskError::NoPlugins)));
}

#[test]
fn check_refuses_small_terminal() {
    let mut m = TaskManager::new(TaskType::Update, 1);
    m.add(Package::new("a/b", "default", false));
    assert!(matches!(m.check(2), Err(TaskError::TerminalToSmall)));
    assert!(matches!(m.check(0), Err(TaskError::TerminalToSmall)));
}

#[test]
fn manager_keeps_tasks_in_order() {
    let mut m = TaskManager::new(TaskType::Install, 4);
    m.add(Package::new("a/one", "default", false));
    m.add(Package::new("a/two", "default", true));
    assert_eq!(m.thread_num(), 4);
    assert_eq!(m.task_type(), TaskType::Install);
    let names: Vec<&str> = m.packs().iter().map(|p| p.name.as_str()).collect();
    assert_eq!(names, vec!["a/one", "a/two"]);
}

#[test]
fn synced_plugin_is_not_a_failure() {
    let mut l = SyncLedger::new();
    let n = "owner/ok".to_string();
    l.start(&n);
    l.finish(&n, true, false);
    assert!(l.failures().is_empty());
    assert!(l.pending().is_empty());
}

#[test]
fn retained_failure_is_not_listed() {
    let mut l = SyncLedger::new();
    let n = "owner/kept".to_string();
    l.start(&n);
    l.finish(&n, false, true);
    let r = l.into_report(TaskType::Update);
    assert!(r.failures.is_empty());
}

#[test]
fn unretained_failure_is_listed() {
    let mut l = SyncLedger::new();
    let a = "owner/gone".to_string();
    let b = "owner/fine".to_string();
    l.start(&a);
    l.start(&b);
    l.finish(&b, true, false);
    l.finish(&a, false, false);
    let r = l.into_report(TaskType::Install);
    assert_eq!(r.failures, names(&["owner/gone"]));
    assert!(r.removals.is_empty());
}

#[test]
fn interrupted_install_is_removed() {
    let mut l = SyncLedger::new();
    let a = "owner/slow".to_string();
    let b = "owner/fast".to_string();
    l.start(&a);
    l.start(&b);
    l.finish(&b, true, false);
    assert_eq!(l.pending(), &names(&["owner/slow"]));
    let r = l.into_report(TaskType::Install);
    assert_eq!(r.removals, names(&["owner/slow"]));
    assert!(r.failures.is_empty());
}

#[test]
fn interrupted_update_removes_nothing() {
    let mut l = SyncLedger::new();
    let a = "owner/slow".to_string();
    l.start(&a);
    let r = l.into_report(TaskType::Update);
    assert!(r.removals.is_empty());
    assert!(r.failures.is_empty());
}

#[test]
fn three_installs_with_failed_build() {
    let mut m = TaskManager::new(TaskType::Install, 2);
    let mut with_build = Package::new("o/c", "default", false);
    with_build.set_build_command("make");
    m.add(Package::new("o/a", "default", false));
    m.add(Package::new("o/b", "default", false));
    m.add(with_build);
    assert!(m.check(24).is_ok());
    let mut l = SyncLedger::new();
    let mut done = 0;
    let mut build_errors = 0;
    for p in m.packs() {
        l.start(&p.name);
        let has_build = p.build_command.is_some();
        let marks = line_marks(true, has_build, !has_build);
        done += marks.iter().filter(|m| **m == Mark::Done).count();
        build_errors += marks.iter().filter(|m| **m == Mark::BuildError).count();
        assert!(task_passed(true, true));
        l.finish(&p.name, true, true);
    }
    assert_eq!(done, 3);
    assert_eq!(build_errors, 1);
    let r = l.into_report(m.task_type());
    assert!(r.failures.is_empty());
    assert!(r.removals.is_empty());
}

#[test]
fn update_skips_local_plugin() {
    let mut local = Package::new("o/local", "default", false);
    local.local = true;
    let res = do_update(&local, "/nonexistent/o/local", true, &mut SyncLog::new());
    assert!(matches!(res, Err(Error::SkipLocal)));
    let (res, retain) = update_plugin(res);
    assert!(retain);
    let mut l = SyncLedger::new();
    l.start(&local.name);
    l.start(&"o/other".to_string());
    l.finish(&local.name, res.is_ok(), retain);
    l.finish(&"o/other".to_string(), true, true);
    assert!(log_of_local_is_empty(&local));
    let r = l.into_report(TaskType::Update);
    assert!(r.failures.is_empty());
}

#[test]
fn update_refuses_missing_checkout() {
    let p = Package::new("o/p", "default", false);
    let res = do_update(&p, "/nonexistent/o/p", false, &mut SyncLog::new());
    assert!(matches!(res, Err(Error::PluginNotInstalled)));
    let (_, retain) = update_plugin(res);
    assert!(!retain);
}

#[test]
fn marks_for_each_outcome() {
    assert_eq!(line_marks(false, true, true), vec![Mark::Error]);
    assert_eq!(line_marks(true, false, false), vec![Mark::Done]);
    assert_eq!(line_marks(true, true, true), vec![Mark::Building, Mark::Done]);
    assert_eq!(line_marks(true, true, false), vec![Mark::Building, Mark::BuildError, Mark::Done]);
}

#[test]
fn task_passed_rules() {
    assert!(task_passed(true, false));
    assert!(task_passed(false, true));
    assert!(!task_passed(false, false));
}

#[test]
fn label_and_column() {
    let l = status_label(&"a/b".to_string());
    assert_eq!(l, " [a/b]");
    assert_eq!(message_column(&l), Some(11));
    let long = "x".repeat(70000);
    assert_eq!(message_column(&long), None);
}

#[test]
fn worker_count_rules() {
    assert_eq!(worker_count(Some(3)), 3);
    assert_eq!(worker_count(Some(0)), 1);
    assert!(worker_count(None) >= 1);
}

#[test]
fn update_of_unreadable_repository_is_retained() {
    let p = Package::new("o/p", "default", false);
    let mut log = SyncLog::new();
    let res = do_update(&p, "/nonexistent/npack/o/p", true, &mut log);
    assert!(matches!(res, Err(Error::Git(_))));
    assert!(log.stages.is_empty());
    let (_, retain) = update_plugin(res);
    assert!(retain);
}

#[test]
fn clone_into_unwritable_target_fails() {
    let mut log = SyncLog::new();
    let res = npack::git::clone("o/p", "/nonexistent/npack/clone/p", &None, &mut log);
    assert!(matches!(res, Err(GitError::Git(_))));
    assert!(log.stages.is_empty());
    assert!(log.walk.is_empty());
    assert_eq!(log.url.as_deref(), Some("https://github.com/o/p"));
    assert_eq!(log.branch, None);
    assert!(npack::git::clone_cleanup(&res));
}

#[test]
fn clone_hands_branch_to_libgit2() {
    let mut log = SyncLog::new();
    let res = npack::git::clone("o/p", "/nonexistent/npack/clone/b", &Some("dev".to_string()), &mut log);
    assert!(res.is_err());
    assert_eq!(log.branch.as_deref(), Some("dev"));
    assert_eq!(log.url.as_deref(), Some("https://github.com/o/p"));
}

#[test]
fn cleanup_after_clone() {
    assert!(!npack::git::clone_cleanup(&Ok(())));
    assert!(!npack::git::clone_cleanup(&Err(GitError::InvalidBranch)));
    assert!(npack::git::clone_cleanup(&Err(GitError::SubmoduleLimit)));
}

#[test]
fn clone_refuses_branch_with_nul() {
    let mut log = SyncLog::new();
    let res = npack::git::clone("o/p", "/nonexistent/npack/clone/q", &Some("ma\0in".to_string()), &mut log);
    assert!(matches!(res, Err(GitError::InvalidBranch)));
    assert!(log.stages.is_empty());
    assert!(log.url.is_none());
    assert!(!npack::git::clone_cleanup(&res));
}

#[test]
fn submodule_steps() {
    let docs = Some("docs".to_string());
    let lib = Some("lib".to_string());
    assert_eq!(submodule_step(&docs, false, false, true), SubStep::Skip);
    assert_eq!(submodule_step(&docs, true, true, false), SubStep::Descend);
    assert_eq!(submodule_step(&lib, true, true, true), SubStep::Descend);
    assert_eq!(submodule_step(&lib, false, false, true), SubStep::Fail);
    assert_eq!(submodule_step(&lib, true, false, false), SubStep::Fail);
    assert_eq!(submodule_step(&None, true, true, true), SubStep::Descend);
    assert!(has_nul("a\0b"));
    assert!(!has_nul("main"));
}
