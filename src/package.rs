use vstd::prelude::*;

verus! {

/// Where a package was obtained from.
#[derive(Debug, Clone, Copy, PartialEq, Eq, Structural)]
pub enum Origin {
    /// The public crates.io registry.
    CratesIo,
    /// Anything else: a local path, a version control checkout, another registry.
    Other,
}

/// How a package takes part in the build.
#[derive(Debug, Clone, Copy, PartialEq, Eq, Structural)]
pub enum DependencyKind {
    /// The artifact's own package.
    Root,
    /// Used only to produce the artifact.
    Build,
    /// Part of the running artifact.
    Runtime,
    /// Used only while developing, never shipped.
    Development,
}

/// One package of the decoded dependency list.
#[derive(Debug, Clone)]
pub struct Package {
    pub name: String,
    pub version: String,
    pub origin: Origin,
    pub kind: DependencyKind,
    pub root: bool,
}

/// The mathematical value of a [`Package`].
pub ghost struct PackageView {
    pub name: Seq<char>,
    pub version: Seq<char>,
    pub origin: Origin,
    pub kind: DependencyKind,
    pub root: bool,
}

impl View for Package {
    type V = PackageView;

    open spec fn view(&self) -> PackageView {
        PackageView {
            name: self.name@,
            version: self.version@,
            origin: self.origin,
            kind: self.kind,
            root: self.root,
        }
    }
}

/// The values of a list of packages, in order.
pub open spec fn packages_view(v: Seq<Package>) -> Seq<PackageView> {
    v.map_values(|p: Package| p@)
}

/// `k` is the first position of `s` that holds a root package.
pub open spec fn is_first_root(s: Seq<PackageView>, k: int) -> bool {
    &&& 0 <= k < s.len()
    &&& s[k].root
    &&& forall|j: int| 0 <= j < k ==> !#[trigger] s[j].root
}

/// Some member of `s` is flagged as root.
pub open spec fn has_root(s: Seq<PackageView>) -> bool {
    exists|j: int| 0 <= j < s.len() && #[trigger] s[j].root
}

/// Finds the root package: the first member flagged as root, if any.
pub fn find_root(packages: &Vec<Package>) -> (r: Option<&Package>)
    ensures
        r is None <==> !has_root(packages_view(packages@)),
        r matches Some(p) ==> exists|k: int|
            is_first_root(packages_view(packages@), k) && #[trigger] packages@[k] == *p,
{
    let mut i: usize = 0;
    while i < packages.len()
        invariant
            i <= packages@.len(),
            forall|j: int| 0 <= j < i ==> !#[trigger] packages@[j].root,
        decreases packages@.len() - i,
    {
        if packages[i].root {
            proof {
                assert(is_first_root(packages_view(packages@), i as int));
            }
            return Some(&packages[i]);
        }
        i += 1;
    }
    proof {
        if has_root(packages_view(packages@)) {
            let j = choose|j: int| 0 <= j < packages@.len() && #[trigger] packages_view(packages@)[j].root;
            assert(packages@[j].root);
        }
    }
    None
}

/// A package set with exactly one root member: that member is the first root,
/// wherever it stands, and no other position is.
pub proof fn lemma_single_root_is_found(s: Seq<PackageView>, k: int)
    requires
        0 <= k < s.len(),
        s[k].root,
        forall|j: int| 0 <= j < s.len() && j != k ==> !#[trigger] s[j].root,
    ensures
        has_root(s),
        is_first_root(s, k),
        forall|m: int| #[trigger] is_first_root(s, m) ==> m == k,
{
}

} // verus!
