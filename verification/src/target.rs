//! Storage targets and the catalog that lists them.

use vstd::prelude::*;

verus! {

/// A device or volume that can be wiped.
#[derive(Debug, PartialEq, Eq)]
pub struct StorageTarget {
    /// The path that identifies the target.
    pub path: String,
    /// The length in bytes; `None` until a job has probed it.
    pub length: Option<u64>,
    /// The mount point the target was found under, if any.
    pub mount_label: Option<String>,
}

/// What a [`StorageTarget`] holds, as plain values.
pub struct TargetView {
    pub path: Seq<char>,
    pub length: Option<nat>,
    pub mount_label: Option<Seq<char>>,
}

impl View for StorageTarget {
    type V = TargetView;

    open spec fn view(&self) -> TargetView {
        TargetView {
            path: self.path@,
            length: match self.length {
                Some(n) => Some(n as nat),
                None => None,
            },
            mount_label: match self.mount_label {
                Some(label) => Some(label@),
                None => None,
            },
        }
    }
}

impl StorageTarget {
    /// A target known by its path alone: no length yet, no mount point.
    pub fn new(path: String) -> (target: StorageTarget)
        ensures
            target@ == (TargetView { path: path@, length: None, mount_label: None }),
    {
        StorageTarget { path, length: None, mount_label: None }
    }

    /// A target found mounted at `mount_point`, which is also its path.
    pub fn mounted_at(mount_point: &String) -> (target: StorageTarget)
        ensures
            target@ == spec_mounted_at(mount_point@),
    {
        StorageTarget {
            path: mount_point.clone(),
            length: None,
            mount_label: Some(mount_point.clone()),
        }
    }

    /// A copy of this target.
    pub fn duplicate(&self) -> (copy: StorageTarget)
        ensures
            copy@ == self@,
    {
        let mount_label = match &self.mount_label {
            Some(label) => Some(label.clone()),
            None => None,
        };
        StorageTarget { path: self.path.clone(), length: self.length, mount_label }
    }
}

/// The target that the catalog makes of one mount point.
pub open spec fn spec_mounted_at(mount_point: Seq<char>) -> TargetView {
    TargetView { path: mount_point, length: None, mount_label: Some(mount_point) }
}

/// What an enumeration of the host's volumes came to.
#[derive(Debug, PartialEq, Eq)]
pub struct Catalog {
    /// One target per volume, in the order of the listing.
    pub targets: Vec<StorageTarget>,
    /// Set when the platform could not enumerate its volumes. The condition
    /// is not fatal: the catalog is then empty.
    pub enumeration_failed: bool,
}

/// Turns the platform's listing of mount points into targets. `None` stands
/// for a listing that the platform failed to give.
pub fn list_targets(listing: &Option<Vec<String>>) -> (catalog: Catalog)
    ensures
        catalog.enumeration_failed == (listing is None),
        listing is None ==> catalog.targets@.len() == 0,
        listing matches Some(mounts) ==> {
            &&& catalog.targets@.len() == mounts@.len()
            &&& forall|i: int|
                0 <= i < mounts@.len() ==> (#[trigger] catalog.targets@[i])@ == spec_mounted_at(
                    mounts@[i]@,
                )
        },
{
    let mut targets: Vec<StorageTarget> = Vec::new();
    match listing {
        None => Catalog { targets, enumeration_failed: true },
        Some(mounts) => {
            let mut i: usize = 0;
            while i < mounts.len()
                invariant
                    i <= mounts@.len(),
                    targets@.len() == i,
                    forall|j: int|
                        0 <= j < i ==> (#[trigger] targets@[j])@ == spec_mounted_at(mounts@[j]@),
                decreases mounts@.len() - i,
            {
                targets.push(StorageTarget::mounted_at(&mounts[i]));
                i += 1;
            }
            Catalog { targets, enumeration_failed: false }
        },
    }
}

/// The paths of the targets that the listing holds, in its order; no path at
/// all where the listing is empty or could not be had.
pub fn detect_devices(listing: &Option<Vec<String>>) -> (paths: Vec<String>)
    ensures
        listing is None ==> paths@.len() == 0,
        listing matches Some(mounts) ==> {
            &&& paths@.len() == mounts@.len()
            &&& forall|i: int| 0 <= i < mounts@.len() ==> (#[trigger] paths@[i])@ == mounts@[i]@
        },
{
    let catalog = list_targets(listing);
    let mut paths: Vec<String> = Vec::new();
    let mut i: usize = 0;
    while i < catalog.targets.len()
        invariant
            i <= catalog.targets@.len(),
            paths@.len() == i,
            forall|j: int| 0 <= j < i ==> (#[trigger] paths@[j])@ == catalog.targets@[j]@.path,
        decreases catalog.targets@.len() - i,
    {
        paths.push(catalog.targets[i].path.clone());
        i += 1;
    }
    paths
}

} // verus!
