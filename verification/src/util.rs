//! Which API groups and versions of the cluster serve a given kind.

use crate::text::string_eq;
use vstd::prelude::*;
use vstd::string::*;

verus! {

/// One version of an API group, with the kinds of the resources that it serves.
#[derive(Debug, PartialEq, Eq)]
pub struct ApiVersionResources {
    /// Group and version as the orchestrator writes them together.
    pub group_version: String,
    /// The version alone.
    pub version: String,
    /// The kind of each resource that the version serves, in the order of the listing.
    pub kinds: Vec<String>,
}

/// The view of [`ApiVersionResources`]: strings as sequences of characters, lists as sequences.
pub struct ApiVersionResourcesView {
    pub group_version: Seq<char>,
    pub version: Seq<char>,
    pub kinds: Seq<Seq<char>>,
}

impl DeepView for ApiVersionResources {
    type V = ApiVersionResourcesView;

    open spec fn deep_view(&self) -> ApiVersionResourcesView {
        ApiVersionResourcesView {
            group_version: self.group_version.deep_view(),
            version: self.version.deep_view(),
            kinds: self.kinds.deep_view(),
        }
    }
}

impl View for ApiVersionResources {
    type V = ApiVersionResourcesView;

    open spec fn view(&self) -> ApiVersionResourcesView {
        self.deep_view()
    }
}

impl Clone for ApiVersionResources {
    fn clone(&self) -> (r: Self)
        ensures
            r@ == self@,
    {
        let kinds = self.kinds.clone();
        assert(kinds.deep_view() =~= self.kinds.deep_view());
        ApiVersionResources {
            group_version: self.group_version.clone(),
            version: self.version.clone(),
            kinds,
        }
    }
}

/// One API group with its versions.
#[derive(Debug, PartialEq, Eq)]
pub struct ApiGroupResources {
    /// Name of the group.
    pub name: String,
    /// The version that the group prefers, where it names one.
    pub preferred_version: Option<ApiVersionResources>,
    /// The versions of the group, in the order of the listing.
    pub versions: Vec<ApiVersionResources>,
}

/// The view of [`ApiGroupResources`]: strings as sequences of characters, lists as sequences.
pub struct ApiGroupResourcesView {
    pub name: Seq<char>,
    pub preferred_version: Option<ApiVersionResourcesView>,
    pub versions: Seq<ApiVersionResourcesView>,
}

impl DeepView for ApiGroupResources {
    type V = ApiGroupResourcesView;

    open spec fn deep_view(&self) -> ApiGroupResourcesView {
        ApiGroupResourcesView {
            name: self.name.deep_view(),
            preferred_version: self.preferred_version.deep_view(),
            versions: self.versions.deep_view(),
        }
    }
}

impl View for ApiGroupResources {
    type V = ApiGroupResourcesView;

    open spec fn view(&self) -> ApiGroupResourcesView {
        self.deep_view()
    }
}

impl Clone for ApiGroupResources {
    fn clone(&self) -> (r: Self)
        ensures
            r@ == self@,
    {
        let versions = self.versions.clone();
        assert(versions.deep_view() =~= self.versions.deep_view());
        ApiGroupResources {
            name: self.name.clone(),
            preferred_version: self.preferred_version.clone(),
            versions,
        }
    }
}

/// What the cluster serves: its API groups and the versions of the core API.
#[derive(Debug, PartialEq, Eq)]
pub struct Discovery {
    /// The API groups, in the order of the listing.
    pub groups: Vec<ApiGroupResources>,
    /// The versions of the core API, in the order of the listing.
    pub core_versions: Vec<ApiVersionResources>,
}

/// The view of [`Discovery`]: strings as sequences of characters, lists as sequences.
pub struct DiscoveryView {
    pub groups: Seq<ApiGroupResourcesView>,
    pub core_versions: Seq<ApiVersionResourcesView>,
}

impl DeepView for Discovery {
    type V = DiscoveryView;

    open spec fn deep_view(&self) -> DiscoveryView {
        DiscoveryView {
            groups: self.groups.deep_view(),
            core_versions: self.core_versions.deep_view(),
        }
    }
}

impl View for Discovery {
    type V = DiscoveryView;

    open spec fn view(&self) -> DiscoveryView {
        self.deep_view()
    }
}

impl Clone for Discovery {
    fn clone(&self) -> (r: Self)
        ensures
            r@ == self@,
    {
        let groups = self.groups.clone();
        assert(groups.deep_view() =~= self.groups.deep_view());
        let core_versions = self.core_versions.clone();
        assert(core_versions.deep_view() =~= self.core_versions.deep_view());
        Discovery {
            groups,
            core_versions,
        }
    }
}

/// A pair of group and version.
pub type GroupVersion = (Seq<char>, Seq<char>);

/// The version of a group that is looked at when only one is: the preferred
/// one, or the first where the group prefers none.
pub open spec fn inspected_version(g: ApiGroupResourcesView) -> Option<ApiVersionResourcesView> {
    if g.preferred_version is Some {
        g.preferred_version
    } else if g.versions.len() > 0 {
        Some(g.versions[0])
    } else {
        None
    }
}

/// The pairs that the versions `versions` of the group `name` give for
/// `kind`: the group with each version that serves the kind, in the order
/// of the versions.
pub open spec fn versions_pairs(
    name: Seq<char>,
    versions: Seq<ApiVersionResourcesView>,
    kind: Seq<char>,
) -> Seq<GroupVersion>
    decreases versions.len(),
{
    if versions.len() == 0 {
        Seq::empty()
    } else {
        versions_pairs(name, versions.drop_last(), kind) + (if versions.last().kinds.contains(
            kind,
        ) {
            seq![(name, versions.last().version)]
        } else {
            Seq::empty()
        })
    }
}

/// The pairs that one group gives for `kind`.
pub open spec fn group_pairs(
    g: ApiGroupResourcesView,
    kind: Seq<char>,
    use_preferred_version: bool,
) -> Seq<GroupVersion> {
    if use_preferred_version {
        if inspected_version(g) is Some && inspected_version(g).unwrap().kinds.contains(kind) {
            seq![(g.name, inspected_version(g).unwrap().version)]
        } else {
            Seq::empty()
        }
    } else {
        versions_pairs(g.name, g.versions, kind)
    }
}

/// The pairs that the groups give for `kind`, group by group.
pub open spec fn groups_pairs(
    groups: Seq<ApiGroupResourcesView>,
    kind: Seq<char>,
    use_preferred_version: bool,
) -> Seq<GroupVersion>
    decreases groups.len(),
{
    if groups.len() == 0 {
        Seq::empty()
    } else {
        groups_pairs(groups.drop_last(), kind, use_preferred_version) + group_pairs(
            groups.last(),
            kind,
            use_preferred_version,
        )
    }
}

/// The pairs that the core API gives for `kind`.
pub open spec fn core_pairs(
    versions: Seq<ApiVersionResourcesView>,
    kind: Seq<char>,
    use_preferred_version: bool,
) -> Seq<GroupVersion> {
    if use_preferred_version {
        if versions.len() > 0 && versions[0].kinds.contains(kind) {
            seq![(Seq::<char>::empty(), versions[0].version)]
        } else {
            Seq::empty()
        }
    } else {
        versions_pairs(Seq::empty(), versions, kind)
    }
}

/// The pairs of group and version under which the cluster serves `kind`, in
/// the order of discovery: the API groups first, then the core API.
pub open spec fn group_version_pairs(
    d: DiscoveryView,
    kind: Seq<char>,
    use_preferred_version: bool,
) -> Seq<GroupVersion> {
    groups_pairs(d.groups, kind, use_preferred_version) + core_pairs(
        d.core_versions,
        kind,
        use_preferred_version,
    )
}

/// Whether `kind` is among `kinds`.
pub fn serves_kind(kinds: &Vec<String>, kind: &str) -> (r: bool)
    ensures
        r == kinds.deep_view().contains(kind@),
{
    let mut i: usize = 0;
    while i < kinds.len()
        invariant
            i <= kinds.len(),
            forall|k: int| 0 <= k < i ==> kinds.deep_view()[k] != kind@,
        decreases kinds.len() - i,
    {
        if string_eq(kinds[i].as_str(), kind) {
            assert(kinds.deep_view()[i as int] == kind@);
            return true;
        }
        i += 1;
    }
    false
}

impl Discovery {
    /// Whether every group has a version to look at and the core API has one.
    pub open spec fn has_versions(d: DiscoveryView) -> bool {
        &&& d.core_versions.len() > 0
        &&& forall|i: int| 0 <= i < d.groups.len() ==> inspected_version(#[trigger] d.groups[i]) is Some
    }

    /// Whether every group has a version to look at and the core API has one.
    pub fn check_versions(&self) -> (r: bool)
        ensures
            r == Self::has_versions(self@),
    {
        if self.core_versions.len() == 0 {
            return false;
        }
        let mut i: usize = 0;
        while i < self.groups.len()
            invariant
                i <= self.groups.len(),
                forall|k: int| 0 <= k < i ==> inspected_version(#[trigger] self@.groups[k]) is Some,
            decreases self.groups.len() - i,
        {
            if self.groups[i].preferred_version.is_none() && self.groups[i].versions.len() == 0 {
                assert(inspected_version(self@.groups[i as int]) is None);
                return false;
            }
            i += 1;
        }
        true
    }
}

/// Appends to `out` the pairs that the versions of one group give for `kind`.
fn push_versions_pairs(
    out: &mut Vec<(String, String)>,
    name: &str,
    versions: &Vec<ApiVersionResources>,
    kind: &str,
)
    ensures
        final(out).deep_view() == old(out).deep_view() + versions_pairs(
            name@,
            versions.deep_view(),
            kind@,
        ),
{
    let ghost before = out.deep_view();
    let ghost vs = versions.deep_view();
    let mut i: usize = 0;
    assert(vs.take(0) =~= Seq::empty());
    assert(before + Seq::<GroupVersion>::empty() =~= before);
    while i < versions.len()
        invariant
            i <= versions.len(),
            vs == versions.deep_view(),
            out.deep_view() == before + versions_pairs(name@, vs.take(i as int), kind@),
        decreases versions.len() - i,
    {
        let v = &versions[i];
        let ghost so_far = out.deep_view();
        assert(vs.take(i + 1).drop_last() =~= vs.take(i as int));
        assert(vs.take(i + 1).last() == v@);
        if serves_kind(&v.kinds, kind) {
            let group = String::from_str(name);
            out.push((group, v.version.clone()));
            assert(out.deep_view() =~= so_far.push((name@, v@.version)));
        }
        assert(out.deep_view() =~= before + versions_pairs(name@, vs.take(i + 1), kind@));
        i += 1;
    }
    assert(vs.take(vs.len() as int) =~= vs);
}

/// The pairs of group and version under which the cluster serves `kind`, in
/// the order of discovery. With `use_preferred_version`, one version of each
/// group is looked at, the preferred one or else the first, and one version
/// of the core API, the first; without it, every version is. A version
/// gives one pair where it serves the kind, whatever the number of its
/// resources of that kind. The core API stands under the empty group.
pub fn find_group_version_pairs_by_kind(
    kind: &str,
    use_preferred_version: bool,
    discovery: &Discovery,
) -> (pairs: Vec<(String, String)>)
    ensures
        pairs.deep_view() == group_version_pairs(discovery@, kind@, use_preferred_version),
{
    let mut out: Vec<(String, String)> = Vec::new();
    let ghost groups = discovery@.groups;
    let mut i: usize = 0;
    assert(out.deep_view() =~= Seq::empty());
    assert(groups.take(0) =~= Seq::empty());
    while i < discovery.groups.len()
        invariant
            i <= discovery.groups.len(),
            groups == discovery@.groups,
            out.deep_view() == groups_pairs(groups.take(i as int), kind@, use_preferred_version),
        decreases discovery.groups.len() - i,
    {
        let g = &discovery.groups[i];
        let ghost so_far = out.deep_view();
        assert(groups.take(i + 1).drop_last() =~= groups.take(i as int));
        assert(groups.take(i + 1).last() == g@);
        if use_preferred_version {
            match &g.preferred_version {
                Some(v) => {
                    if serves_kind(&v.kinds, kind) {
                        out.push((g.name.clone(), v.version.clone()));
                        assert(out.deep_view() =~= so_far.push((g@.name, v@.version)));
                    }
                },
                None => {
                    if g.versions.len() > 0 {
                        let v = &g.versions[0];
                        if serves_kind(&v.kinds, kind) {
                            out.push((g.name.clone(), v.version.clone()));
                            assert(out.deep_view() =~= so_far.push((g@.name, v@.version)));
                        }
                    }
                },
            }
            assert(out.deep_view() =~= so_far + group_pairs(g@, kind@, use_preferred_version));
        } else {
            push_versions_pairs(&mut out, g.name.as_str(), &g.versions, kind);
        }
        i += 1;
    }
    assert(groups.take(groups.len() as int) =~= groups);
    let ghost from_groups = out.deep_view();
    let ghost core = discovery@.core_versions;
    if use_preferred_version {
        if discovery.core_versions.len() > 0 {
            let v = &discovery.core_versions[0];
            if serves_kind(&v.kinds, kind) {
                out.push((String::new(), v.version.clone()));
                assert(out.deep_view() =~= from_groups.push((Seq::<char>::empty(), v@.version)));
            }
        }
        assert(out.deep_view() =~= from_groups + core_pairs(core, kind@, true));
    } else {
        proof {
            reveal_strlit("");
            assert(""@ =~= Seq::<char>::empty());
        }
        push_versions_pairs(&mut out, "", &discovery.core_versions, kind);
    }
    out
}

} // verus!
