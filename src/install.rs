//! Installing plugins.
use vstd::prelude::*;
use crate::cli::Install;
use crate::error::{Error, debug_path};
use crate::package::{Package, PackageView, copy_opt, opt_str, package_views, strs};

verus! {

/// The fields of `s` between commas, as `str::split(',')` yields them.
pub open spec fn comma_fields(s: Seq<char>) -> Seq<Seq<char>>
    decreases s.len(),
{
    if s.len() == 0 {
        seq![Seq::empty()]
    } else {
        let f = comma_fields(s.drop_last());
        if s.last() == ',' {
            f.push(Seq::empty())
        } else {
            f.update(f.len() - 1, f.last().push(s.last()))
        }
    }
}

proof fn lemma_comma_fields_len(s: Seq<char>)
    ensures
        comma_fields(s).len() >= 1,
    decreases s.len(),
{
    if s.len() > 0 {
        lemma_comma_fields_len(s.drop_last());
    }
}

/// The substrings of `s` separated by commas, empty ones included.
pub fn split_commas(s: &str) -> (r: Vec<String>)
    ensures
        strs(r@) == comma_fields(s@),
{
    let n = s.unicode_len();
    let mut done: Vec<String> = Vec::new();
    let mut start: usize = 0;
    let mut i: usize = 0;
    assert(s@.subrange(0, 0) =~= Seq::<char>::empty());
    assert(strs(done@) + seq![s@.subrange(0, 0)] =~= comma_fields(s@.subrange(0, 0)));
    while i < n
        invariant
            n == s@.len(),
            start <= i <= n,
            comma_fields(s@.subrange(0, i as int)) == strs(done@) + seq![s@.subrange(start as int, i as int)],
        decreases n - i,
    {
        proof {
            lemma_comma_fields_len(s@.subrange(0, start as int));
            let f = comma_fields(s@.subrange(0, i as int));
            assert(f.drop_last() =~= strs(done@));
        }
        let ghost fs = comma_fields(s@.subrange(0, i as int));
        let c = s.get_char(i);
        if c == ',' {
            let ghost before = done@;
            done.push(String::from_str(s.substring_char(start, i)));
            assert(strs(done@) =~= strs(before).push(s@.subrange(start as int, i as int)));
            proof {
                let pre = s@.subrange(0, i + 1);
                assert(pre.drop_last() =~= s@.subrange(0, i as int));
                assert(pre.last() == ',');
                assert(s@.subrange(i + 1, i + 1) =~= Seq::<char>::empty());
                assert(comma_fields(pre) =~= strs(done@) + seq![s@.subrange(i + 1, i + 1)]);
            }
            start = i + 1;
        } else {
            proof {
                let pre = s@.subrange(0, i + 1);
                assert(pre.drop_last() =~= s@.subrange(0, i as int));
                assert(pre.last() == c);
                assert(s@.subrange(start as int, i as int).push(c) =~= s@.subrange(start as int, i + 1));
                assert(fs.update(fs.len() - 1, fs.last().push(c)) =~= strs(done@) + seq![s@.subrange(start as int, i + 1)]);
            }
        }
        i = i + 1;
    }
    let ghost before = done@;
    done.push(String::from_str(s.substring_char(start, n)));
    assert(strs(done@) =~= strs(before) + seq![s@.subrange(start as int, n as int)]);
    assert(s@.subrange(0, n as int) =~= s@);
    done
}

/// Whether new plugins load lazily: asked for, or implied by a load command
/// or by file types.
pub open spec fn lazy_of(args: &Install) -> bool {
    args.opt || args.on is Some || args.for_ is Some
}

/// The record for installing `name`: under the asked category, local when
/// asked or when `name` is a directory, with the asked load command, file
/// types, build command and branch.
pub open spec fn target_of(args: &Install, name: Seq<char>, is_dir: bool) -> PackageView {
    PackageView {
        name,
        category: args.category@,
        opt: lazy_of(args),
        local: is_dir || args.local,
        load_command: opt_str(args.on),
        build_command: opt_str(args.build),
        branch: opt_str(args.branch),
        for_types: match args.for_ {
            Some(t) => comma_fields(t@),
            None => Seq::empty(),
        },
    }
}

/// The records for the plugins that `args` names; `dirs[i]` tells whether
/// the `i`th name is a local directory.
pub fn install_targets(args: &Install, dirs: &Vec<bool>) -> (r: Vec<Package>)
    requires
        dirs.len() == args.package.len(),
    ensures
        r.len() == args.package.len(),
        forall|i: int| 0 <= i < r.len() ==> (#[trigger] r@[i])@ == target_of(args, args.package@[i]@, dirs@[i]),
{
    let opt = args.opt || args.on.is_some() || args.for_.is_some();
    let mut r: Vec<Package> = Vec::new();
    let mut i: usize = 0;
    while i < args.package.len()
        invariant
            i <= args.package.len(),
            dirs.len() == args.package.len(),
            opt == lazy_of(args),
            r.len() == i,
            forall|k: int| 0 <= k < i ==> (#[trigger] r@[k])@ == target_of(args, args.package@[k]@, dirs@[k]),
        decreases args.package.len() - i,
    {
        let mut p = Package::new(args.package[i].as_str(), args.category.as_str(), opt);
        p.local = dirs[i] || args.local;
        p.load_command = copy_opt(&args.on);
        p.build_command = copy_opt(&args.build);
        p.branch = copy_opt(&args.branch);
        match &args.for_ {
            Some(t) => p.set_types(split_commas(t.as_str())),
            None => {
                assert(p@.for_types =~= Seq::<Seq<char>>::empty());
            },
        }
        assert(p@ =~= target_of(args, args.package@[i as int]@, dirs@[i as int]));
        r.push(p);
        i = i + 1;
    }
    r
}

/// Whether `k` is the first position of `s` that holds a plugin named `n`.
pub open spec fn is_first_named(s: Seq<PackageView>, n: Seq<char>, k: int) -> bool {
    0 <= k < s.len() && s[k].name == n && forall|j: int| 0 <= j < k ==> #[trigger] s[j].name != n
}

/// The first position of `s` that holds a plugin named `n`, or -1.
pub open spec fn first_named(s: Seq<PackageView>, n: Seq<char>) -> int {
    if exists|k: int| is_first_named(s, n, k) {
        choose|k: int| is_first_named(s, n, k)
    } else {
        -1
    }
}

/// Finds the first plugin of `packs` named `name`.
pub fn find_named(packs: &Vec<Package>, name: &String) -> (r: Option<usize>)
    ensures
        r matches Some(k) ==> k == first_named(package_views(packs@), name@),
        r is None ==> first_named(package_views(packs@), name@) == -1,
{
    let ghost s = package_views(packs@);
    let mut i: usize = 0;
    while i < packs.len()
        invariant
            i <= packs.len(),
            s == package_views(packs@),
            forall|j: int| 0 <= j < i ==> #[trigger] s[j].name != name@,
        decreases packs.len() - i,
    {
        if packs[i].name == *name {
            assert(is_first_named(s, name@, i as int));
            let ghost c = choose|k: int| is_first_named(s, name@, k);
            assert(c == i) by {
                if c < i {
                    assert(s[c].name != name@);
                } else if c > i {
                    assert(s[i as int].name != name@);
                }
            }
            return Some(i);
        }
        i = i + 1;
    }
    assert(!exists|k: int| is_first_named(s, name@, k)) by {
        assert forall|k: int| !is_first_named(s, name@, k) by {
            if 0 <= k < s.len() {
                assert(s[k].name != name@);
            }
        }
    }
    None
}

/// What a recorded plugin becomes when it is not installed and a new install
/// asks for it: it takes the request's category, laziness, file types and
/// commands.
pub open spec fn adopted(x: PackageView, t: PackageView) -> PackageView {
    PackageView {
        category: t.category,
        opt: t.opt,
        for_types: t.for_types,
        load_command: t.load_command,
        build_command: t.build_command,
        ..x
    }
}

/// One request merged into the manifest: the manifest, which of its plugins
/// are installed, and the task that runs.
pub open spec fn merge_one(
    packs: Seq<PackageView>,
    inst: Seq<bool>,
    t: PackageView,
    t_inst: bool,
) -> (Seq<PackageView>, Seq<bool>, PackageView) {
    let k = first_named(packs, t.name);
    if k < 0 {
        (packs.push(t), inst.push(t_inst), t)
    } else if !inst[k] {
        (packs.update(k, adopted(packs[k], t)), inst, t)
    } else {
        (packs, inst, PackageView { category: packs[k].category, opt: packs[k].opt, ..t })
    }
}

/// All requests merged in order: the manifest, its installed flags, and the
/// tasks.
pub open spec fn merge_all(
    packs: Seq<PackageView>,
    inst: Seq<bool>,
    ts: Seq<PackageView>,
    t_inst: Seq<bool>,
) -> (Seq<PackageView>, Seq<bool>, Seq<PackageView>)
    decreases ts.len(),
{
    if ts.len() == 0 {
        (packs, inst, Seq::empty())
    } else {
        let (p, i, tasks) = merge_all(packs, inst, ts.drop_last(), t_inst.drop_last());
        let (p2, i2, t) = merge_one(p, i, ts.last(), t_inst.last());
        (p2, i2, tasks.push(t))
    }
}

/// Merges install requests into the manifest `packs`. A request for a
/// recorded plugin that is not installed rewrites its record; one for an
/// installed plugin keeps the recorded category and laziness; one for an
/// unrecorded plugin is recorded. Returns the tasks to run, one per request.
/// `installed[i]` tells whether `packs[i]` is installed, `t_installed[i]`
/// whether `targets[i]`'s path is.
pub fn merge_targets(
    packs: &mut Vec<Package>,
    installed: &Vec<bool>,
    targets: &Vec<Package>,
    t_installed: &Vec<bool>,
) -> (r: Vec<Package>)
    requires
        installed.len() == old(packs).len(),
        t_installed.len() == targets.len(),
    ensures
        ({
            let (p, _, tasks) = merge_all(package_views(old(packs)@), installed@, package_views(targets@), t_installed@);
            package_views(final(packs)@) == p && package_views(r@) == tasks
        }),
{
    let ghost p0 = package_views(packs@);
    let mut inst: Vec<bool> = installed.clone();
    let mut tasks: Vec<Package> = Vec::new();
    let mut i: usize = 0;
    assert(package_views(targets@).subrange(0, 0) =~= Seq::<PackageView>::empty());
    assert(t_installed@.subrange(0, 0) =~= Seq::<bool>::empty());
    assert(package_views(tasks@) =~= Seq::<PackageView>::empty());
    assert(inst@ =~= installed@);
    while i < targets.len()
        invariant
            i <= targets.len(),
            t_installed.len() == targets.len(),
            inst.len() == packs.len(),
            ({
                let (p, ins, ts) = merge_all(p0, installed@, package_views(targets@).subrange(0, i as int), t_installed@.subrange(0, i as int));
                package_views(packs@) == p && inst@ == ins && package_views(tasks@) == ts
            }),
        decreases targets.len() - i,
    {
        let ghost pre_t = package_views(targets@).subrange(0, i as int);
        let ghost pre_i = t_installed@.subrange(0, i as int);
        assert(package_views(targets@).subrange(0, i + 1).drop_last() =~= pre_t);
        assert(t_installed@.subrange(0, i + 1).drop_last() =~= pre_i);
        let ghost old_packs = package_views(packs@);
        let ghost old_tasks = package_views(tasks@);
        let mut t = targets[i].duplicate();
        match find_named(packs, &t.name) {
            None => {
                packs.push(t.duplicate());
                inst.push(t_installed[i]);
                assert(package_views(packs@) =~= old_packs.push(t@));
            },
            Some(k) => {
                if !inst[k] {
                    let mut x = packs[k].duplicate();
                    x.set_category(t.category.as_str());
                    x.set_opt(t.opt);
                    x.set_types(crate::package::copy_strs(&t.for_types));
                    x.load_command = copy_opt(&t.load_command);
                    x.build_command = copy_opt(&t.build_command);
                    assert(x@ =~= adopted(old_packs[k as int], t@));
                    packs.set(k, x);
                    assert(package_views(packs@) =~= old_packs.update(k as int, adopted(old_packs[k as int], t@)));
                } else {
                    t.set_category(packs[k].category.as_str());
                    t.set_opt(packs[k].opt);
                }
            },
        }
        tasks.push(t);
        assert(package_views(tasks@) =~= old_tasks.push(t@));
        i = i + 1;
    }
    assert(package_views(targets@).subrange(0, targets.len() as int) =~= package_views(targets@));
    assert(t_installed@.subrange(0, targets.len() as int) =~= t_installed@);
    tasks
}

/// What installing one plugin takes, once the checks on disk are made.
#[derive(Debug, Clone, Copy, PartialEq, Eq, Structural)]
pub enum InstallStep {
    /// Link the local directory named by the plugin into place.
    Link,
    /// Clone the plugin's repository into place.
    Clone,
}

/// Decides how to install `pack` at `path`: refused when something is
/// installed there, or when a local plugin's directory is missing; else a
/// link for a local plugin and a clone for the others.
pub fn do_install(pack: &Package, path: &str, installed: bool, source_is_dir: bool) -> (r: Result<InstallStep, Error>)
    ensures
        installed ==> (r matches Err(Error::PluginInstalled(m)) && m@ == "Plugin already installed under "@
            + debug_path(path@)),
        !installed && pack.local && !source_is_dir ==> r matches Err(Error::NoPlugin),
        !installed && pack.local && source_is_dir ==> r == Ok::<InstallStep, Error>(InstallStep::Link),
        !installed && !pack.local ==> r == Ok::<InstallStep, Error>(InstallStep::Clone),
{
    if installed {
        Err(Error::plugin_installed(path))
    } else if pack.local {
        if !source_is_dir {
            Err(Error::NoPlugin)
        } else {
            Ok(InstallStep::Link)
        }
    } else {
        Ok(InstallStep::Clone)
    }
}

/// Whether an install's failure keeps the plugin recorded: only a plugin
/// that is installed already does.
pub open spec fn install_retains(res: Result<(), Error>) -> bool {
    match res {
        Ok(()) => true,
        Err(Error::PluginInstalled(_)) => true,
        Err(_) => false,
    }
}

/// Classifies the result of installing one plugin: the result, and whether
/// the plugin stays recorded.
pub fn install_plugin(res: Result<(), Error>) -> (r: (Result<(), Error>, bool))
    ensures
        r.0 == res,
        r.1 == install_retains(res),
{
    let status = match &res {
        Ok(()) => true,
        Err(Error::PluginInstalled(_)) => true,
        Err(_) => false,
    };
    (res, status)
}

} // verus!
