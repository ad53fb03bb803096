//! Moving a plugin to another category, or between always and lazily loaded.
use vstd::prelude::*;
use crate::cli::Move;
use crate::error::Error;
use crate::install::{find_named, first_named};
use crate::package::{Package, PackageView, package_views, relative_path_of};

verus! {

/// The record `p` moved under `category`, lazy when `opt`.
pub open spec fn moved_of(p: PackageView, category: Seq<char>, opt: bool) -> PackageView {
    PackageView { category, opt, ..p }
}

/// Plans the move that `args` asks for: the position of the plugin in
/// `packs`, and its moved record where its path changes. Refused when the
/// manifest does not record the plugin.
pub fn move_plugin(packs: &Vec<Package>, args: &Move) -> (r: Result<(usize, Option<Package>), Error>)
    ensures
        first_named(package_views(packs@), args.package@) < 0 <==> r matches Err(Error::PluginNotInstalled),
        r is Err ==> r matches Err(Error::PluginNotInstalled),
        r matches Ok((k, m)) ==> {
            &&& k == first_named(package_views(packs@), args.package@)
            &&& (m is Some <==> relative_path_of(moved_of(packs@[k as int]@, args.category@, args.opt))
                != relative_path_of(packs@[k as int]@))
            &&& (m matches Some(p) ==> p@ == moved_of(packs@[k as int]@, args.category@, args.opt))
        },
{
    let k = match find_named(packs, &args.package) {
        Some(k) => k,
        None => return Err(Error::PluginNotInstalled),
    };
    proof {
        let s = package_views(packs@);
        assert(exists|j: int| crate::install::is_first_named(s, args.package@, j)) by {
            assert(crate::install::is_first_named(s, args.package@, k as int)) by {
                let c = choose|j: int| crate::install::is_first_named(s, args.package@, j);
                assert(crate::install::is_first_named(s, args.package@, c));
            }
        }
    }
    let mut moved = packs[k].duplicate();
    moved.set_category(args.category.as_str());
    moved.set_opt(args.opt);
    let from = packs[k].relative_path();
    let to = moved.relative_path();
    if from == to {
        Ok((k, None))
    } else {
        Ok((k, Some(moved)))
    }
}

} // verus!
