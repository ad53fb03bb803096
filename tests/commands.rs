use npack::cli::{none_zeor_parser, parse_usize, CliError, Install, List, Move, Uninstall};
use npack::config::{choose_editor, config_finish, config_start, ConfigFinish, ConfigStart};
use npack::error::Error;
use npack::generate::update_packfile;
use npack::git::{github_url, syncs_submodule};
use npack::install::{split_commas, do_install, install_plugin, install_targets, merge_targets, InstallStep};
use npack::list::{list_packages, PackEntry};
use npack::move_cmd::move_plugin;
use npack::package::{names_in_order, sort_by_name, Package};
use npack::uninstall::exec;
use npack::update::{keep_unfailed, select_updates, skipped, str_contains};

fn strings(v: &[&str]) -> Vec<String> {
    v.iter().map(|s| s.to_string()).collect()
}

fn pack(name: &str, category: &str, opt: bool) -> Package {
    Package::new(name, category, opt)
}

fn names_of(v: &[Package]) -> Vec<&str> {
    v.iter().map(|p| p.name.as_str()).collect()
}

fn install_args(package: &[&str]) -> Install {
    Install {
        opt: false,
        category: "default".to_string(),
        local: false,
        on: None,
        for_: None,
        build: None,
        branch: None,
        threads: None,
        package: strings(package),
    }
}

#[test]
fn thread_argument_parsing() {
    assert_eq!(none_zeor_parser("4"), Ok(4));
    assert_eq!(none_zeor_parser("0"), Err(CliError::BelowOne));
    assert_eq!(none_zeor_parser("x"), Err(CliError::Io));
    assert_eq!(none_zeor_parser("-1"), Err(CliError::Io));
}

#[test]
fn url_of_plugin() {
    assert_eq!(github_url("tpope/vim-sensible"), "https://github.com/tpope/vim-sensible");
}

#[test]
fn docs_submodule_is_skipped() {
    assert!(!syncs_submodule(&Some("docs".to_string())));
    assert!(syncs_submodule(&Some("doc".to_string())));
    assert!(syncs_submodule(&None));
}

#[test]
fn relative_paths() {
    assert_eq!(pack("owner/repo", "default", false).relative_path(), "default/start/repo");
    assert_eq!(pack("owner/repo", "lang", true).relative_path(), "lang/opt/repo");
    assert_eq!(pack("plain", "x", false).repo_name(), "plain");
}

#[test]
fn name_order() {
    assert!(names_in_order("a/b", "a/c"));
    assert!(names_in_order("a", "ab"));
    assert!(!names_in_order("b", "a"));
    assert!(names_in_order("same", "same"));
}

#[test]
fn sorting_by_name() {
    let v = vec![pack("c/z", "d", false), pack("a/y", "d", false), pack("b/x", "d", false)];
    assert_eq!(names_of(&sort_by_name(&v)), vec!["a/y", "b/x", "c/z"]);
    assert_eq!(names_of(&update_packfile(&v)), vec!["a/y", "b/x", "c/z"]);
    assert!(sort_by_name(&Vec::new()).is_empty());
}

#[test]
fn uninstall_plan() {
    let v = vec![pack("c/z", "d", false), pack("a/y", "d", false), pack("b/x", "d", false)];
    let args = Uninstall { all: false, package: strings(&["c/z", "not/there"]) };
    let plan = exec(&args, &v);
    assert_eq!(names_of(&plan.removed), vec!["c/z"]);
    assert_eq!(names_of(&plan.kept), vec!["a/y", "b/x"]);
}

#[test]
fn failures_leave_manifest() {
    let v = vec![pack("c/z", "d", false), pack("a/y", "d", false)];
    assert_eq!(names_of(&keep_unfailed(&v, &strings(&["a/y"]))), vec!["c/z"]);
}

#[test]
fn update_selection_with_skip() {
    let v = vec![pack("o/vim-go", "d", false), pack("o/fzf", "d", false), pack("o/go-tools", "d", false)];
    let sel = select_updates(&v, &Vec::new(), &strings(&["go"]));
    assert_eq!(names_of(&sel.tasks), vec!["o/fzf"]);
    assert_eq!(sel.skipped, strings(&["o/vim-go", "o/go-tools"]));
    let sel = select_updates(&v, &strings(&["o/go-tools"]), &strings(&["go"]));
    assert_eq!(names_of(&sel.tasks), vec!["o/go-tools"]);
    assert!(sel.skipped.is_empty());
    assert!(skipped("abc", &strings(&["b"])));
    assert!(!skipped("abc", &strings(&["d"])));
}

#[test]
fn install_targets_from_arguments() {
    let mut args = install_args(&["o/a", "/local/dir"]);
    args.for_ = Some("vim,lua".to_string());
    args.build = Some("make".to_string());
    let t = install_targets(&args, &vec![false, true]);
    assert_eq!(t.len(), 2);
    assert!(t[0].opt);
    assert!(!t[0].local);
    assert!(t[1].local);
    assert_eq!(t[0].for_types, strings(&["vim", "lua"]));
    assert_eq!(t[0].build_command.as_deref(), Some("make"));
    assert_eq!(t[0].category, "default");
    let plain = install_targets(&install_args(&["o/b"]), &vec![false]);
    assert!(!plain[0].opt);
    assert!(plain[0].for_types.is_empty());
}

#[test]
fn merging_install_requests() {
    let mut packs = vec![pack("o/installed", "old", true), pack("o/missing", "old", true)];
    let installed = vec![true, false];
    let targets = vec![pack("o/installed", "new", false), pack("o/missing", "new", false), pack("o/fresh", "new", false)];
    let tasks = merge_targets(&mut packs, &installed, &targets, &vec![false, false, false]);
    assert_eq!(names_of(&packs), vec!["o/installed", "o/missing", "o/fresh"]);
    assert_eq!(packs[0].category, "old");
    assert_eq!(packs[1].category, "new");
    assert!(!packs[1].opt);
    assert_eq!(tasks[0].category, "old");
    assert!(tasks[0].opt);
    assert_eq!(tasks[1].category, "new");
    assert_eq!(names_of(&tasks), vec!["o/installed", "o/missing", "o/fresh"]);
}

#[test]
fn install_decisions() {
    let p = pack("o/p", "d", false);
    match do_install(&p, "/root/pack/d/start/p", true, false) {
        Err(Error::PluginInstalled(m)) => assert_eq!(m, "Plugin already installed under \"/root/pack/d/start/p\""),
        _ => panic!("expected PluginInstalled"),
    }
    assert_eq!(do_install(&p, "x", false, false).unwrap(), InstallStep::Clone);
    let mut l = pack("/src/p", "d", false);
    l.local = true;
    assert!(matches!(do_install(&l, "x", false, false), Err(Error::NoPlugin)));
    assert_eq!(do_install(&l, "x", false, true).unwrap(), InstallStep::Link);
}

#[test]
fn install_classification() {
    assert!(install_plugin(Ok(())).1);
    assert!(install_plugin(Err(Error::plugin_installed("p"))).1);
    assert!(!install_plugin(Err(Error::NoPlugin)).1);
    match Error::plugin_installed("a \"b\"") {
        Error::PluginInstalled(m) => assert_eq!(m, "Plugin already installed under \"a \\\"b\\\"\""),
        _ => panic!("expected PluginInstalled"),
    }
    match Error::build("boom") {
        Error::Build(m) => assert_eq!(m, "boom"),
        _ => panic!("expected Build"),
    }
}

#[test]
fn listing() {
    let v = vec![pack("o/a", "lang", true), pack("o/b", "default", false)];
    let entries = vec![
        PackEntry { category: "lang".to_string(), option: "opt".to_string(), name: "a".to_string() },
        PackEntry { category: "lang".to_string(), option: "opt".to_string(), name: "stray".to_string() },
        PackEntry { category: "default".to_string(), option: "start".to_string(), name: "other".to_string() },
    ];
    let args = List { start: false, opt: false, detached: false, category: None };
    assert_eq!(list_packages(&args, &v, &entries), strings(&["o/a", "o/b"]));
    let args = List { start: true, opt: false, detached: false, category: None };
    assert_eq!(list_packages(&args, &v, &entries), strings(&["o/b"]));
    let args = List { start: false, opt: false, detached: false, category: Some("lang".to_string()) };
    assert_eq!(list_packages(&args, &v, &entries), strings(&["o/a"]));
    let args = List { start: false, opt: false, detached: true, category: None };
    assert_eq!(list_packages(&args, &v, &entries), strings(&["lang/opt/stray", "default/start/other"]));
    let args = List { start: false, opt: true, detached: true, category: None };
    assert_eq!(list_packages(&args, &v, &entries), strings(&["lang/opt/stray"]));
}

#[test]
fn config_steps() {
    assert_eq!(config_start(true, true), ConfigStart::Delete);
    assert_eq!(config_start(false, true), ConfigStart::Edit);
    assert_eq!(config_start(true, false), ConfigStart::Edit);
    assert_eq!(config_finish(true, false, false, false), ConfigFinish::Nothing);
    assert_eq!(config_finish(true, true, true, false), ConfigFinish::RemoveAndRegenerate);
    assert_eq!(config_finish(false, true, true, false), ConfigFinish::Remove);
    assert_eq!(config_finish(false, true, false, false), ConfigFinish::Regenerate);
    assert_eq!(config_finish(true, true, false, true), ConfigFinish::Regenerate);
    assert_eq!(config_finish(true, true, false, false), ConfigFinish::Nothing);
}

#[test]
fn editor_choice() {
    let s = |x: &str| Some(x.to_string());
    assert_eq!(choose_editor(None, s("nvim"), None), None);
    assert_eq!(choose_editor(s("dumb"), s("nvim"), None), None);
    assert_eq!(choose_editor(s("xterm"), s("nvim"), s("nano")), s("nvim"));
    assert_eq!(choose_editor(s("xterm"), None, s("nano")), s("nano"));
    assert_eq!(choose_editor(s("xterm"), None, None), s("vi"));
}

#[test]
fn move_plans() {
    let v = vec![pack("o/a", "default", false), pack("o/b", "default", false)];
    let args = Move { opt: true, package: "o/b".to_string(), category: "default".to_string() };
    match move_plugin(&v, &args) {
        Ok((1, Some(p))) => {
            assert!(p.opt);
            assert_eq!(p.relative_path(), "default/opt/b");
        }
        _ => panic!("expected a move"),
    }
    let args = Move { opt: false, package: "o/a".to_string(), category: "default".to_string() };
    assert!(matches!(move_plugin(&v, &args), Ok((0, None))));
    let args = Move { opt: false, package: "o/zz".to_string(), category: "default".to_string() };
    assert!(matches!(move_plugin(&v, &args), Err(Error::PluginNotInstalled)));
}

#[test]
fn decimal_reading() {
    assert_eq!(parse_usize("+7"), Some(7));
    assert_eq!(parse_usize(""), None);
    assert_eq!(parse_usize("+"), None);
    assert_eq!(parse_usize("12a"), None);
    assert_eq!(parse_usize("18446744073709551615"), Some(usize::MAX));
    assert_eq!(parse_usize("18446744073709551616"), None);
    assert_eq!(parse_usize("007"), Some(7));
    assert_eq!(none_zeor_parser(""), Err(CliError::Io));
}

#[test]
fn comma_splitting() {
    assert_eq!(split_commas("vim,lua"), strings(&["vim", "lua"]));
    assert_eq!(split_commas(""), strings(&[""]));
    assert_eq!(split_commas(",a,"), strings(&["", "a", ""]));
    assert_eq!(split_commas("rust"), strings(&["rust"]));
}

#[test]
fn substring_search() {
    assert!(str_contains("vim-go", "go"));
    assert!(str_contains("abc", ""));
    assert!(!str_contains("ab", "abc"));
    assert!(!str_contains("vim-go", "og"));
    assert!(str_contains("go", "go"));
}
