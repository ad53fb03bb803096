//! Updating installed plugins.
use vstd::prelude::*;
use crate::error::Error;
use crate::git;
use crate::git::{GitError, SyncLog, update_complete};
use crate::package::{
    Package, PackageView, package_views, partition_by_name, sort_by_name, sorted_by_name, strs,
    with_names, without_names,
};

verus! {

/// Whether `p` occurs in `s` as a run of consecutive characters.
pub open spec fn has_substring(s: Seq<char>, p: Seq<char>) -> bool {
    exists|i: int| 0 <= i && i + p.len() <= s.len() && #[trigger] s.subrange(i, i + p.len()) == p
}

/// Whether `p` occurs in `s` starting at position `i`.
fn occurs_at(s: &str, p: &str, i: usize) -> (r: bool)
    requires
        i + p@.len() <= s@.len(),
    ensures
        r == (s@.subrange(i as int, i + p@.len()) == p@),
{
    let n = s.unicode_len();
    let m = p.unicode_len();
    let mut j: usize = 0;
    while j < m
        invariant
            n == s@.len(),
            m == p@.len(),
            i + m <= s@.len(),
            j <= m,
            forall|k: int| 0 <= k < j ==> s@[i + k] == p@[k],
        decreases m - j,
    {
        if s.get_char(i + j) != p.get_char(j) {
            assert(s@.subrange(i as int, i + m)[j as int] != p@[j as int]);
            return false;
        }
        j = j + 1;
    }
    assert(s@.subrange(i as int, i + m) =~= p@);
    true
}

/// Whether `p` occurs in `s` as a run of consecutive characters.
pub fn str_contains(s: &str, p: &str) -> (r: bool)
    ensures
        r == has_substring(s@, p@),
{
    let n = s.unicode_len();
    let m = p.unicode_len();
    if m > n {
        return false;
    }
    if m == 0 {
        assert(s@.subrange(0, 0 + p@.len() as int) =~= p@);
        return true;
    }
    let mut i: usize = 0;
    while i <= n - m
        invariant
            n == s@.len(),
            m == p@.len(),
            0 < m <= n,
            i <= n - m + 1,
            forall|k: int| 0 <= k < i ==> #[trigger] s@.subrange(k, k + m) != p@,
        decreases n - m + 1 - i,
    {
        if occurs_at(s, p, i) {
            return true;
        }
        i = i + 1;
    }
    false
}

/// Whether a plugin so named is skipped: its name contains one of `skip`.
pub open spec fn is_skipped(name: Seq<char>, skip: Seq<Seq<char>>) -> bool {
    exists|k: int| 0 <= k < skip.len() && has_substring(name, #[trigger] skip[k])
}

/// The plugins of `s` that no entry of `skip` excludes, in order.
pub open spec fn not_skipped(s: Seq<PackageView>, skip: Seq<Seq<char>>) -> Seq<PackageView>
    decreases s.len(),
{
    if s.len() == 0 {
        s
    } else if is_skipped(s.last().name, skip) {
        not_skipped(s.drop_last(), skip)
    } else {
        not_skipped(s.drop_last(), skip).push(s.last())
    }
}

/// The names of the plugins of `s` that `skip` excludes, in order.
pub open spec fn skipped_names(s: Seq<PackageView>, skip: Seq<Seq<char>>) -> Seq<Seq<char>>
    decreases s.len(),
{
    if s.len() == 0 {
        Seq::empty()
    } else if is_skipped(s.last().name, skip) {
        skipped_names(s.drop_last(), skip).push(s.last().name)
    } else {
        skipped_names(s.drop_last(), skip)
    }
}

/// Whether `name` contains one of `skip`.
pub fn skipped(name: &str, skip: &Vec<String>) -> (r: bool)
    ensures
        r == is_skipped(name@, strs(skip@)),
{
    let mut i: usize = 0;
    while i < skip.len()
        invariant
            i <= skip.len(),
            forall|k: int| 0 <= k < i ==> !has_substring(name@, (#[trigger] skip@[k])@),
        decreases skip.len() - i,
    {
        if str_contains(name, skip[i].as_str()) {
            assert(strs(skip@)[i as int] == skip@[i as int]@);
            return true;
        }
        i = i + 1;
    }
    assert forall|k: int| 0 <= k < strs(skip@).len() implies !has_substring(name@, #[trigger] strs(skip@)[k]) by {
        assert(strs(skip@)[k] == skip@[k]@);
    }
    false
}

/// The tasks of an update run, and the plugins left out by a skip entry.
pub struct UpdateSelection {
    pub tasks: Vec<Package>,
    pub skipped: Vec<String>,
}

/// The plugins an update run syncs: with no plugin named, every plugin of
/// the manifest whose name contains no entry of `skip`; else the plugins
/// named, in the manifest's order.
pub open spec fn update_tasks_of(
    packs: Seq<PackageView>,
    plugins: Seq<Seq<char>>,
    skip: Seq<Seq<char>>,
) -> Seq<PackageView> {
    if plugins.len() == 0 {
        not_skipped(packs, skip)
    } else {
        with_names(packs, plugins)
    }
}

/// Picks the plugins that an update of `plugins` syncs, leaving out those
/// that `skip` excludes when no plugin is named.
pub fn select_updates(packs: &Vec<Package>, plugins: &Vec<String>, skip: &Vec<String>) -> (r: UpdateSelection)
    ensures
        package_views(r.tasks@) == update_tasks_of(package_views(packs@), strs(plugins@), strs(skip@)),
        strs(r.skipped@) == if plugins@.len() == 0 {
            skipped_names(package_views(packs@), strs(skip@))
        } else {
            Seq::empty()
        },
{
    if plugins.len() > 0 {
        let (tasks, _) = partition_by_name(packs, plugins);
        let skipped: Vec<String> = Vec::new();
        assert(strs(skipped@) =~= Seq::<Seq<char>>::empty());
        return UpdateSelection { tasks, skipped };
    }
    let mut tasks: Vec<Package> = Vec::new();
    let mut left: Vec<String> = Vec::new();
    let mut i: usize = 0;
    assert(package_views(packs@).subrange(0, 0) =~= Seq::<PackageView>::empty());
    assert(package_views(tasks@) =~= Seq::<PackageView>::empty());
    assert(strs(left@) =~= Seq::<Seq<char>>::empty());
    while i < packs.len()
        invariant
            i <= packs.len(),
            package_views(tasks@) == not_skipped(package_views(packs@).subrange(0, i as int), strs(skip@)),
            strs(left@) == skipped_names(package_views(packs@).subrange(0, i as int), strs(skip@)),
        decreases packs.len() - i,
    {
        let ghost pre = package_views(packs@).subrange(0, i as int);
        let ghost upto = package_views(packs@).subrange(0, i + 1);
        assert(upto.drop_last() =~= pre);
        assert(upto.last() == packs@[i as int]@);
        if skipped(packs[i].name.as_str(), skip) {
            let ghost before = left@;
            left.push(packs[i].name.clone());
            assert(strs(left@) =~= strs(before).push(packs@[i as int]@.name));
        } else {
            let p = packs[i].duplicate();
            let ghost before = tasks@;
            tasks.push(p);
            assert(package_views(tasks@) =~= package_views(before).push(p@));
        }
        i = i + 1;
    }
    assert(package_views(packs@).subrange(0, packs.len() as int) =~= package_views(packs@));
    UpdateSelection { tasks, skipped: left }
}

/// Whether an update's failure keeps the plugin recorded: a skipped local
/// plugin, and any version-control error, do.
pub open spec fn update_retains(res: Result<(), Error>) -> bool {
    match res {
        Ok(()) => true,
        Err(Error::SkipLocal) => true,
        Err(Error::Git(_)) => true,
        Err(_) => false,
    }
}

/// Classifies the result of updating one plugin: the result, and whether the
/// plugin stays recorded.
pub fn update_plugin(res: Result<(), Error>) -> (r: (Result<(), Error>, bool))
    ensures
        r.0 == res,
        r.1 == update_retains(res),
{
    let status = match &res {
        Ok(()) => true,
        Err(Error::SkipLocal) => true,
        Err(Error::Git(_)) => true,
        Err(_) => false,
    };
    (res, status)
}

/// Updates one plugin whose checkout is at `path`: refused when nothing is
/// installed there, skipped when the plugin is local, else synced with its
/// remote, which `log` records.
pub fn do_update(pack: &Package, path: &str, installed: bool, log: &mut SyncLog) -> (r: Result<(), Error>)
    requires
        old(log).is_empty(),
    ensures
        !installed ==> r matches Err(Error::PluginNotInstalled),
        installed && pack.local ==> r matches Err(Error::SkipLocal),
        !installed || pack.local ==> final(log).is_empty(),
        installed && !pack.local ==> (r is Ok <==> update_complete(*final(log), pack.name@)),
        r matches Err(Error::Git(GitError::SubmoduleLimit)) ==> final(log).stages@ == git::update_stages()
            && git::walk_state(final(log).walk@, true).listed > git::MAX_REPOSITORIES,
        installed && !pack.local ==> (r is Ok || r matches Err(Error::Git(_))),
{
    if !installed {
        Err(Error::PluginNotInstalled)
    } else if pack.local {
        Err(Error::SkipLocal)
    } else {
        match git::update(pack.name.as_str(), path, log) {
            Ok(()) => Ok(()),
            Err(e) => Err(Error::Git(e)),
        }
    }
}

/// The manifest that a run leaves: the plugins not in `failures`, by name.
pub fn keep_unfailed(packs: &Vec<Package>, failures: &Vec<String>) -> (r: Vec<Package>)
    ensures
        sorted_by_name(package_views(r@)),
        package_views(r@).to_multiset() == without_names(package_views(packs@), strs(failures@)).to_multiset(),
{
    let (_, others) = partition_by_name(packs, failures);
    sort_by_name(&others)
}

} // verus!
