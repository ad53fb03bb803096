//! The plugin record that the engine carries through a run.
use vstd::prelude::*;

verus! {

/// A plugin as the manifest records it. `name` is its sole identity.
#[derive(Clone, Debug)]
pub struct Package {
    pub name: String,
    pub category: String,
    pub opt: bool,
    pub local: bool,
    pub load_command: Option<String>,
    pub build_command: Option<String>,
    pub branch: Option<String>,
    pub for_types: Vec<String>,
}

/// A plugin record as plain values.
pub struct PackageView {
    pub name: Seq<char>,
    pub category: Seq<char>,
    pub opt: bool,
    pub local: bool,
    pub load_command: Option<Seq<char>>,
    pub build_command: Option<Seq<char>>,
    pub branch: Option<Seq<char>>,
    pub for_types: Seq<Seq<char>>,
}

pub open spec fn opt_str(o: Option<String>) -> Option<Seq<char>> {
    match o {
        Some(s) => Some(s@),
        None => None,
    }
}

pub open spec fn strs(v: Seq<String>) -> Seq<Seq<char>> {
    v.map_values(|s: String| s@)
}

impl View for Package {
    type V = PackageView;

    open spec fn view(&self) -> PackageView {
        PackageView {
            name: self.name@,
            category: self.category@,
            opt: self.opt,
            local: self.local,
            load_command: opt_str(self.load_command),
            build_command: opt_str(self.build_command),
            branch: opt_str(self.branch),
            for_types: strs(self.for_types@),
        }
    }
}

/// The part of `s` after its last `/`, or all of `s` where it has none.
pub open spec fn last_component(s: Seq<char>) -> Seq<char>
    decreases s.len(),
{
    if s.len() == 0 {
        s
    } else if s.last() == '/' {
        Seq::empty()
    } else {
        last_component(s.drop_last()).push(s.last())
    }
}

/// Where a plugin lives below the package root: `category/start/repo` for a
/// plugin that always loads, `category/opt/repo` for a lazy one.
pub open spec fn relative_path_of(p: PackageView) -> Seq<char> {
    p.category + seq!['/'] + (if p.opt {
        seq!['o', 'p', 't']
    } else {
        seq!['s', 't', 'a', 'r', 't']
    }) + seq!['/'] + last_component(p.name)
}

pub fn copy_opt(o: &Option<String>) -> (r: Option<String>)
    ensures
        opt_str(r) == opt_str(*o),
{
    match o {
        Some(s) => Some(s.clone()),
        None => None,
    }
}

pub fn copy_strs(v: &Vec<String>) -> (r: Vec<String>)
    ensures
        strs(r@) == strs(v@),
{
    let mut r: Vec<String> = Vec::new();
    let mut i: usize = 0;
    while i < v.len()
        invariant
            i <= v.len(),
            r@.len() == i,
            forall|k: int| 0 <= k < i ==> #[trigger] r@[k]@ == v@[k]@,
        decreases v.len() - i,
    {
        let c = v[i].clone();
        r.push(c);
        i = i + 1;
    }
    assert(strs(r@) =~= strs(v@));
    r
}

impl Package {
    /// A record for `name` under `category`, neither local nor with any
    /// command, branch or file type.
    pub fn new(name: &str, category: &str, opt: bool) -> (r: Package)
        ensures
            r@.name == name@,
            r@.category == category@,
            r@.opt == opt,
            !r@.local,
            r@.load_command is None,
            r@.build_command is None,
            r@.branch is None,
            r@.for_types.len() == 0,
    {
        let r = Package {
            name: String::from_str(name),
            category: String::from_str(category),
            opt,
            local: false,
            load_command: None,
            build_command: None,
            branch: None,
            for_types: Vec::new(),
        };
        assert(r@.for_types =~= Seq::<Seq<char>>::empty());
        r
    }

    /// A copy that holds the same values.
    pub fn duplicate(&self) -> (r: Package)
        ensures
            r@ == self@,
    {
        Package {
            name: self.name.clone(),
            category: self.category.clone(),
            opt: self.opt,
            local: self.local,
            load_command: copy_opt(&self.load_command),
            build_command: copy_opt(&self.build_command),
            branch: copy_opt(&self.branch),
            for_types: copy_strs(&self.for_types),
        }
    }

    pub fn set_category(&mut self, category: &str)
        ensures
            final(self)@ == (PackageView { category: category@, ..old(self)@ }),
    {
        self.category = String::from_str(category);
    }

    pub fn set_opt(&mut self, opt: bool)
        ensures
            final(self)@ == (PackageView { opt, ..old(self)@ }),
    {
        self.opt = opt;
    }

    pub fn set_types(&mut self, types: Vec<String>)
        ensures
            final(self)@ == (PackageView { for_types: strs(types@), ..old(self)@ }),
    {
        self.for_types = types;
    }

    pub fn set_load_command(&mut self, c: &str)
        ensures
            final(self)@ == (PackageView { load_command: Some(c@), ..old(self)@ }),
    {
        self.load_command = Some(String::from_str(c));
    }

    pub fn set_build_command(&mut self, c: &str)
        ensures
            final(self)@ == (PackageView { build_command: Some(c@), ..old(self)@ }),
    {
        self.build_command = Some(String::from_str(c));
    }

    /// The repository's own name: what follows the last `/` of the plugin's
    /// name.
    pub fn repo_name(&self) -> (r: String)
        ensures
            r@ == last_component(self@.name),
    {
        let s = self.name.as_str();
        let n = s.unicode_len();
        let mut start: usize = n;
        assert(s@.subrange(0, n as int) =~= s@);
        assert(s@.subrange(n as int, n as int) =~= Seq::<char>::empty());
        assert(last_component(s@) =~= last_component(s@) + Seq::<char>::empty());
        while start > 0 && s.get_char(start - 1) != '/'
            invariant
                start <= n,
                n == s@.len(),
                last_component(s@) == last_component(s@.subrange(0, start as int)) + s@.subrange(start as int, n as int),
            decreases start,
        {
            let ghost pre = s@.subrange(0, start as int);
            assert(pre.drop_last() =~= s@.subrange(0, start - 1));
            assert(s@.subrange(start - 1, n as int) =~= seq![pre.last()] + s@.subrange(start as int, n as int));
            assert(last_component(pre) == last_component(pre.drop_last()).push(pre.last()));
            assert(last_component(pre.drop_last()).push(pre.last()) + s@.subrange(start as int, n as int)
                =~= last_component(pre.drop_last()) + s@.subrange(start - 1, n as int));
            start = start - 1;
        }
        assert(last_component(s@.subrange(0, start as int)) =~= Seq::<char>::empty()) by {
            if start > 0 {
                assert(s@.subrange(0, start as int).last() == '/');
            } else {
                assert(s@.subrange(0, 0) =~= Seq::<char>::empty());
            }
        }
        assert(last_component(s@) =~= s@.subrange(start as int, n as int));
        String::from_str(s.substring_char(start, n))
    }

    /// Where the plugin lives below the package root.
    pub fn relative_path(&self) -> (r: String)
        ensures
            r@ == relative_path_of(self@),
    {
        let mut r = self.category.clone();
        r.append("/");
        if self.opt {
            r.append("opt");
        } else {
            r.append("start");
        }
        r.append("/");
        let repo = self.repo_name();
        r.append(repo.as_str());
        proof {
            reveal_strlit("/");
            reveal_strlit("opt");
            reveal_strlit("start");
        }
        assert(r@ =~= relative_path_of(self@));
        r
    }
}

/// The order of plugin names: by characters, a proper prefix first.
pub open spec fn name_le(a: Seq<char>, b: Seq<char>) -> bool
    decreases a.len(),
{
    if a.len() == 0 {
        true
    } else if b.len() == 0 {
        false
    } else if (a[0] as u32) != (b[0] as u32) {
        (a[0] as u32) < (b[0] as u32)
    } else {
        name_le(a.drop_first(), b.drop_first())
    }
}

proof fn lemma_name_le_total(a: Seq<char>, b: Seq<char>)
    ensures
        name_le(a, b) || name_le(b, a),
    decreases a.len(),
{
    if a.len() > 0 && b.len() > 0 && (a[0] as u32) == (b[0] as u32) {
        lemma_name_le_total(a.drop_first(), b.drop_first());
    }
}

proof fn lemma_name_le_trans(a: Seq<char>, b: Seq<char>, c: Seq<char>)
    requires
        name_le(a, b),
        name_le(b, c),
    ensures
        name_le(a, c),
    decreases a.len(),
{
    if a.len() > 0 && b.len() > 0 && c.len() > 0 && (a[0] as u32) == (b[0] as u32) && (b[0] as u32) == (c[0] as u32) {
        lemma_name_le_trans(a.drop_first(), b.drop_first(), c.drop_first());
    }
}

/// Whether the plugins' names are in order.
pub open spec fn sorted_by_name(v: Seq<PackageView>) -> bool {
    forall|i: int, j: int| 0 <= i < j < v.len() ==> name_le(#[trigger] v[i].name, #[trigger] v[j].name)
}

pub open spec fn package_views(v: Seq<Package>) -> Seq<PackageView> {
    v.map_values(|p: Package| p@)
}

/// Whether name `a` comes before or equals name `b`.
pub fn names_in_order(a: &str, b: &str) -> (r: bool)
    ensures
        r == name_le(a@, b@),
{
    let na = a.unicode_len();
    let nb = b.unicode_len();
    let mut i: usize = 0;
    assert(a@.skip(0) =~= a@);
    assert(b@.skip(0) =~= b@);
    while i < na && i < nb && (a.get_char(i) as u32) == (b.get_char(i) as u32)
        invariant
            na == a@.len(),
            nb == b@.len(),
            i <= na,
            i <= nb,
            name_le(a@, b@) == name_le(a@.skip(i as int), b@.skip(i as int)),
        decreases na - i,
    {
        assert(a@.skip(i as int).drop_first() =~= a@.skip(i + 1));
        assert(b@.skip(i as int).drop_first() =~= b@.skip(i + 1));
        i = i + 1;
    }
    if i == na {
        assert(a@.skip(i as int).len() == 0);
        true
    } else if i == nb {
        assert(b@.skip(i as int).len() == 0);
        false
    } else {
        let ca = a.get_char(i);
        let cb = b.get_char(i);
        assert(a@.skip(i as int)[0] == ca);
        assert(b@.skip(i as int)[0] == cb);
        (ca as u32) < (cb as u32)
    }
}

/// The plugins ordered by name, equal names in their first order.
pub fn sort_by_name(packs: &Vec<Package>) -> (r: Vec<Package>)
    ensures
        sorted_by_name(package_views(r@)),
        package_views(r@).to_multiset() == package_views(packs@).to_multiset(),
{
    let mut out: Vec<Package> = Vec::new();
    let mut i: usize = 0;
    assert(package_views(out@) =~= package_views(packs@.subrange(0, 0)));
    while i < packs.len()
        invariant
            i <= packs.len(),
            sorted_by_name(package_views(out@)),
            package_views(out@).to_multiset() == package_views(packs@.subrange(0, i as int)).to_multiset(),
        decreases packs.len() - i,
    {
        let x = packs[i].duplicate();
        let mut pos: usize = 0;
        while pos < out.len() && names_in_order(out[pos].name.as_str(), x.name.as_str())
            invariant
                pos <= out.len(),
                forall|k: int| 0 <= k < pos ==> name_le(#[trigger] out@[k]@.name, x@.name),
            decreases out.len() - pos,
        {
            pos = pos + 1;
        }
        let ghost old_out = package_views(out@);
        proof {
            if pos < out.len() {
                lemma_name_le_total(x@.name, out@[pos as int]@.name);
            }
        }
        out.insert(pos, x);
        let ghost new_out = package_views(out@);
        assert(new_out =~= old_out.insert(pos as int, x@));
        proof {
            vstd::seq_lib::to_multiset_insert(old_out, pos as int, x@);
        }
        assert forall|a: int, b: int| 0 <= a < b < new_out.len() implies name_le(#[trigger] new_out[a].name, #[trigger] new_out[b].name) by {
            if b < pos {
            } else if b == pos {
                assert(new_out[a] == old_out[a]);
            } else if a < pos {
                assert(new_out[b] == old_out[b - 1]);
                lemma_name_le_trans(old_out[a].name, x@.name, old_out[pos as int].name);
                if b - 1 > pos {
                    lemma_name_le_trans(old_out[a].name, old_out[pos as int].name, old_out[b - 1].name);
                }
            } else if a == pos {
                if b - 1 > pos {
                    lemma_name_le_trans(x@.name, old_out[pos as int].name, old_out[b - 1].name);
                }
            } else {
                assert(new_out[a] == old_out[a - 1]);
                assert(new_out[b] == old_out[b - 1]);
            }
        }
        assert(package_views(packs@.subrange(0, i + 1)) =~= package_views(packs@.subrange(0, i as int)).push(x@));
        assert(package_views(packs@.subrange(0, i as int)).push(x@) =~= package_views(packs@.subrange(0, i as int)).insert(i as int, x@));
        proof {
            vstd::seq_lib::to_multiset_insert(package_views(packs@.subrange(0, i as int)), i as int, x@);
        }
        i = i + 1;
    }
    assert(packs@.subrange(0, packs.len() as int) =~= packs@);
    out
}

/// Whether `n` is one of `names`.
pub fn contains_name(names: &Vec<String>, n: &String) -> (r: bool)
    ensures
        r == strs(names@).contains(n@),
{
    let mut i: usize = 0;
    while i < names.len()
        invariant
            i <= names.len(),
            forall|k: int| 0 <= k < i ==> (#[trigger] names@[k])@ != n@,
        decreases names.len() - i,
    {
        if names[i] == *n {
            assert(strs(names@)[i as int] == n@);
            return true;
        }
        i = i + 1;
    }
    assert forall|k: int| 0 <= k < strs(names@).len() implies strs(names@)[k] != n@ by {
        assert(strs(names@)[k] == names@[k]@);
    }
    false
}

/// The plugins of `s` whose names are not among `names`, in order.
pub open spec fn without_names(s: Seq<PackageView>, names: Seq<Seq<char>>) -> Seq<PackageView>
    decreases s.len(),
{
    if s.len() == 0 {
        s
    } else {
        let rest = without_names(s.drop_last(), names);
        if names.contains(s.last().name) {
            rest
        } else {
            rest.push(s.last())
        }
    }
}

/// The plugins of `s` whose names are among `names`, in order.
pub open spec fn with_names(s: Seq<PackageView>, names: Seq<Seq<char>>) -> Seq<PackageView>
    decreases s.len(),
{
    if s.len() == 0 {
        s
    } else {
        let rest = with_names(s.drop_last(), names);
        if names.contains(s.last().name) {
            rest.push(s.last())
        } else {
            rest
        }
    }
}

/// Splits `packs` by whether each plugin's name is among `names`: those
/// named, then the others, each in their first order.
pub fn partition_by_name(packs: &Vec<Package>, names: &Vec<String>) -> (r: (Vec<Package>, Vec<Package>))
    ensures
        package_views(r.0@) == with_names(package_views(packs@), strs(names@)),
        package_views(r.1@) == without_names(package_views(packs@), strs(names@)),
{
    let mut named: Vec<Package> = Vec::new();
    let mut others: Vec<Package> = Vec::new();
    let mut i: usize = 0;
    assert(package_views(packs@).subrange(0, 0) =~= Seq::<PackageView>::empty());
    assert(package_views(named@) =~= Seq::<PackageView>::empty());
    assert(package_views(others@) =~= Seq::<PackageView>::empty());
    while i < packs.len()
        invariant
            i <= packs.len(),
            package_views(named@) == with_names(package_views(packs@).subrange(0, i as int), strs(names@)),
            package_views(others@) == without_names(package_views(packs@).subrange(0, i as int), strs(names@)),
        decreases packs.len() - i,
    {
        let ghost pre = package_views(packs@).subrange(0, i as int);
        let ghost upto = package_views(packs@).subrange(0, i + 1);
        assert(upto.drop_last() =~= pre);
        assert(upto.last() == packs@[i as int]@);
        let p = packs[i].duplicate();
        if contains_name(names, &p.name) {
            let ghost before = named@;
            named.push(p);
            assert(package_views(named@) =~= package_views(before).push(p@));
        } else {
            let ghost before = others@;
            others.push(p);
            assert(package_views(others@) =~= package_views(before).push(p@));
        }
        i = i + 1;
    }
    assert(package_views(packs@).subrange(0, packs.len() as int) =~= package_views(packs@));
    (named, others)
}

} // verus!
