//! Listing plugins.
use vstd::prelude::*;
use crate::cli::List;
use crate::package::{Package, PackageView, last_component, opt_str, package_views, strs};

verus! {

/// Whether the listing filters keep a plugin of `category` that loads
/// lazily when `lazy`: its category when one is asked for, only plugins that
/// always load with `start`, only lazy ones with `opt`.
pub open spec fn passes(category: Seq<char>, lazy: bool, want: Option<Seq<char>>, start: bool, opt: bool) -> bool {
    (want matches Some(c) ==> category == c) && (start ==> !lazy) && (opt ==> lazy)
}

/// A plugin directory found below the package root.
#[derive(Debug, Clone)]
pub struct PackEntry {
    pub category: String,
    /// `start` or `opt`.
    pub option: String,
    pub name: String,
}

/// The names of the recorded plugins that the filters keep, in order.
pub open spec fn installed_lines(s: Seq<PackageView>, want: Option<Seq<char>>, start: bool, opt: bool) -> Seq<Seq<char>>
    decreases s.len(),
{
    if s.len() == 0 {
        Seq::empty()
    } else if passes(s.last().category, s.last().opt, want, start, opt) {
        installed_lines(s.drop_last(), want, start, opt).push(s.last().name)
    } else {
        installed_lines(s.drop_last(), want, start, opt)
    }
}

/// The line listing a directory: `category/option/name`.
pub open spec fn entry_line(e: PackEntry) -> Seq<char> {
    e.category@ + "/"@ + e.option@ + "/"@ + e.name@
}

/// Whether a directory is detached: no recorded plugin's repository has its
/// name.
pub open spec fn detached(e: PackEntry, repos: Seq<Seq<char>>) -> bool {
    !repos.contains(e.name@)
}

/// The lines of the detached directories that the filters keep, in order.
pub open spec fn detached_lines(s: Seq<PackEntry>, repos: Seq<Seq<char>>, want: Option<Seq<char>>, start: bool, opt: bool) -> Seq<Seq<char>>
    decreases s.len(),
{
    if s.len() == 0 {
        Seq::empty()
    } else if detached(s.last(), repos) && passes(s.last().category@, s.last().option@ == "opt"@, want, start, opt) {
        detached_lines(s.drop_last(), repos, want, start, opt).push(entry_line(s.last()))
    } else {
        detached_lines(s.drop_last(), repos, want, start, opt)
    }
}

fn passes_exec(category: &String, lazy: bool, want: &Option<String>, start: bool, opt: bool) -> (r: bool)
    ensures
        r == passes(category@, lazy, opt_str(*want), start, opt),
{
    let by_category = match want {
        Some(c) => *category == *c,
        None => true,
    };
    by_category && (!start || !lazy) && (!opt || lazy)
}

/// The names of the recorded plugins that the filters keep.
pub fn list_installed(packs: &Vec<Package>, want: &Option<String>, start: bool, opt: bool) -> (r: Vec<String>)
    ensures
        strs(r@) == installed_lines(package_views(packs@), opt_str(*want), start, opt),
{
    let mut r: Vec<String> = Vec::new();
    let mut i: usize = 0;
    assert(package_views(packs@).subrange(0, 0) =~= Seq::<PackageView>::empty());
    assert(strs(r@) =~= Seq::<Seq<char>>::empty());
    while i < packs.len()
        invariant
            i <= packs.len(),
            strs(r@) == installed_lines(package_views(packs@).subrange(0, i as int), opt_str(*want), start, opt),
        decreases packs.len() - i,
    {
        let ghost pre = package_views(packs@).subrange(0, i as int);
        assert(package_views(packs@).subrange(0, i + 1).drop_last() =~= pre);
        assert(package_views(packs@).subrange(0, i + 1).last() == packs@[i as int]@);
        if passes_exec(&packs[i].category, packs[i].opt, want, start, opt) {
            let ghost before = r@;
            r.push(packs[i].name.clone());
            assert(strs(r@) =~= strs(before).push(packs@[i as int]@.name));
        }
        i = i + 1;
    }
    assert(package_views(packs@).subrange(0, packs.len() as int) =~= package_views(packs@));
    r
}

/// The repository names of the recorded plugins.
pub open spec fn repo_names(s: Seq<PackageView>) -> Seq<Seq<char>> {
    s.map_values(|p: PackageView| last_component(p.name))
}

/// The lines of the directories below the package root that no recorded
/// plugin accounts for and that the filters keep.
pub fn list_detached(packs: &Vec<Package>, entries: &Vec<PackEntry>, want: &Option<String>, start: bool, opt: bool) -> (r: Vec<String>)
    ensures
        strs(r@) == detached_lines(entries@, repo_names(package_views(packs@)), opt_str(*want), start, opt),
{
    let mut repos: Vec<String> = Vec::new();
    let mut j: usize = 0;
    while j < packs.len()
        invariant
            j <= packs.len(),
            repos.len() == j,
            forall|k: int| 0 <= k < j ==> (#[trigger] repos@[k])@ == last_component(packs@[k]@.name),
        decreases packs.len() - j,
    {
        repos.push(packs[j].repo_name());
        j = j + 1;
    }
    assert(strs(repos@) =~= repo_names(package_views(packs@)));
    let opt_name = String::from_str("opt");
    let mut r: Vec<String> = Vec::new();
    let mut i: usize = 0;
    assert(entries@.subrange(0, 0) =~= Seq::<PackEntry>::empty());
    assert(strs(r@) =~= Seq::<Seq<char>>::empty());
    while i < entries.len()
        invariant
            i <= entries.len(),
            opt_name@ == "opt"@,
            strs(repos@) == repo_names(package_views(packs@)),
            strs(r@) == detached_lines(entries@.subrange(0, i as int), strs(repos@), opt_str(*want), start, opt),
        decreases entries.len() - i,
    {
        let e = &entries[i];
        assert(entries@.subrange(0, i + 1).drop_last() =~= entries@.subrange(0, i as int));
        assert(entries@.subrange(0, i + 1).last() == *e);
        let lazy = e.option == opt_name;
        if !crate::package::contains_name(&repos, &e.name) && passes_exec(&e.category, lazy, want, start, opt) {
            let mut line = e.category.clone();
            line.append("/");
            line.append(e.option.as_str());
            line.append("/");
            line.append(e.name.as_str());
            let ghost before = r@;
            r.push(line);
            assert(strs(r@) =~= strs(before).push(entry_line(*e)));
        }
        i = i + 1;
    }
    assert(entries@.subrange(0, entries.len() as int) =~= entries@);
    r
}

/// The lines that `list` prints: the detached directories when asked for,
/// else the recorded plugins, either way through the filters.
pub fn list_packages(args: &List, packs: &Vec<Package>, entries: &Vec<PackEntry>) -> (r: Vec<String>)
    ensures
        args.detached ==> strs(r@) == detached_lines(
            entries@,
            repo_names(package_views(packs@)),
            opt_str(args.category),
            args.start,
            args.opt,
        ),
        !args.detached ==> strs(r@) == installed_lines(package_views(packs@), opt_str(args.category), args.start, args.opt),
{
    if args.detached {
        list_detached(packs, entries, &args.category, args.start, args.opt)
    } else {
        list_installed(packs, &args.category, args.start, args.opt)
    }
}

} // verus!
