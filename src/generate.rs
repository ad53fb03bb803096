//! Regeneration of the combined pack file.
use vstd::prelude::*;
use crate::package::{Package, package_views, sort_by_name, sorted_by_name};

verus! {

/// The manifest's plugins in the order the pack file lists them: by name.
pub fn update_packfile(packs: &Vec<Package>) -> (r: Vec<Package>)
    ensures
        sorted_by_name(package_views(r@)),
        package_views(r@).to_multiset() == package_views(packs@).to_multiset(),
{
    sort_by_name(packs)
}

} // verus!
