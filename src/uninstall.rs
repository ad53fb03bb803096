//! Uninstalling plugins.
use vstd::prelude::*;
use crate::cli::Uninstall;
use crate::package::{
    Package, PackageView, package_views, partition_by_name, sort_by_name, sorted_by_name, strs,
    with_names, without_names,
};

verus! {

/// What uninstalling does to the manifest.
pub struct UninstallPlan {
    /// The recorded plugins that were asked for, whose files go.
    pub removed: Vec<Package>,
    /// The manifest that is saved afterwards, by name.
    pub kept: Vec<Package>,
}

/// Plans the uninstall that `args` asks for over the manifest `packs`: the
/// plugins named go, the others stay, sorted by name. Names that the
/// manifest does not hold are ignored.
pub fn exec(args: &Uninstall, packs: &Vec<Package>) -> (r: UninstallPlan)
    ensures
        package_views(r.removed@) == with_names(package_views(packs@), strs(args.package@)),
        sorted_by_name(package_views(r.kept@)),
        package_views(r.kept@).to_multiset() == without_names(package_views(packs@), strs(args.package@)).to_multiset(),
{
    uninstall_plugins(&args.package, packs)
}

/// Plans uninstalling the plugins named in `plugins`.
pub fn uninstall_plugins(plugins: &Vec<String>, packs: &Vec<Package>) -> (r: UninstallPlan)
    ensures
        package_views(r.removed@) == with_names(package_views(packs@), strs(plugins@)),
        sorted_by_name(package_views(r.kept@)),
        package_views(r.kept@).to_multiset() == without_names(package_views(packs@), strs(plugins@)).to_multiset(),
{
    let (removed, others) = partition_by_name(packs, plugins);
    let kept = sort_by_name(&others);
    UninstallPlan { removed, kept }
}

} // verus!
