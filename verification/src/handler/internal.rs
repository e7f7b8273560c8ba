//! Admission of cron policies themselves: the group and version of each
//! resource that a policy names are checked against the cluster, and filled
//! in where the policy leaves them out.

use crate::handler::{
    diff, json_diff, patch_operations, patch_serialized, AdmissionResponse,
    AdmissionResponseView,
};
use crate::text::{join, joined, string_eq};
use crate::types::policy::{CronPolicy, CronPolicyResource, CronPolicyResourceView, CronPolicySpec, CronPolicyView};
use crate::types::views::result_view;
use crate::util::{find_group_version_pairs_by_kind, group_version_pairs, Discovery, DiscoveryView, GroupVersion};
use vstd::prelude::*;
use vstd::string::*;

verus! {

/// What can go wrong while a cron policy is admitted. Where the failure came
/// from outside, the variant holds its message.
#[derive(Debug, PartialEq, Eq)]
pub enum Error {
    /// The admission request holds no object.
    ObjectNotExists,
    /// The cluster could not be asked.
    Kubernetes(String),
    /// The policy could not be serialised.
    SerializeToJson(String),
    /// The patch could not be serialised.
    SerializePatch(String),
}

/// The view of [`Error`].
pub enum ErrorView {
    ObjectNotExists,
    Kubernetes(Seq<char>),
    SerializeToJson(Seq<char>),
    SerializePatch(Seq<char>),
}

impl DeepView for Error {
    type V = ErrorView;

    open spec fn deep_view(&self) -> ErrorView {
        match self {
            Error::ObjectNotExists => ErrorView::ObjectNotExists,
            Error::Kubernetes(m) => ErrorView::Kubernetes(m@),
            Error::SerializeToJson(m) => ErrorView::SerializeToJson(m@),
            Error::SerializePatch(m) => ErrorView::SerializePatch(m@),
        }
    }
}

impl View for Error {
    type V = ErrorView;

    open spec fn view(&self) -> ErrorView {
        self.deep_view()
    }
}

impl ErrorView {
    /// The HTTP status with which the error is answered: 400 where the
    /// request holds no object, 500 for every other error.
    pub open spec fn status(self) -> u16 {
        if self is ObjectNotExists {
            400
        } else {
            500
        }
    }

    /// The message of the error.
    pub open spec fn message(self) -> Seq<char> {
        match self {
            ErrorView::ObjectNotExists => "object field in admission request does not exists"@,
            ErrorView::Kubernetes(m) => "Kubernetes error: "@ + m,
            ErrorView::SerializeToJson(m) => "failed to serialize to JSON value: "@ + m,
            ErrorView::SerializePatch(m) => "failed to serialize JSON patch: "@ + m,
        }
    }
}

impl Error {
    /// The HTTP status with which the error is answered.
    pub fn status_code(&self) -> (code: u16)
        ensures
            code == self@.status(),
    {
        match self {
            Error::ObjectNotExists => 400,
            _ => 500,
        }
    }

    /// The message of the error.
    pub fn to_string(&self) -> (r: String)
        ensures
            r@ == self@.message(),
    {
        match self {
            Error::ObjectNotExists => String::from_str(
                "object field in admission request does not exists",
            ),
            Error::Kubernetes(m) => String::from_str("Kubernetes error: ").concat(m.as_str()),
            Error::SerializeToJson(m) => String::from_str(
                "failed to serialize to JSON value: ",
            ).concat(m.as_str()),
            Error::SerializePatch(m) => String::from_str("failed to serialize JSON patch: ").concat(
                m.as_str(),
            ),
        }
    }
}

/// The first of the pairs `gvs` whose group is `group`.
pub open spec fn first_of_group(gvs: Seq<GroupVersion>, group: Seq<char>) -> Option<GroupVersion>
    decreases gvs.len(),
{
    if gvs.len() == 0 {
        None
    } else if gvs[0].0 == group {
        Some(gvs[0])
    } else {
        first_of_group(gvs.drop_first(), group)
    }
}

/// A pair of group and version as a denial shows it.
pub open spec fn quoted(gv: GroupVersion) -> Seq<char> {
    "`"@ + gv.0 + "/"@ + gv.1 + "`"@
}

/// Why a policy is denied that names a group and a version under which the
/// cluster does not serve the kind.
pub open spec fn denial_unknown(group: Seq<char>, version: Seq<char>, kind: Seq<char>) -> Seq<char> {
    "specified group, version, and kind (`"@ + group + "`, `"@ + version + "`, `"@ + kind
        + "`) do not exists"@
}

/// Why a policy is denied that names a version without a group.
pub open spec fn denial_version_alone() -> Seq<char> {
    "only specifying version is not allowed"@
}

/// Why a policy is denied whose kind the cluster does not serve.
pub open spec fn denial_no_match(kind: Seq<char>) -> Seq<char> {
    "specified kind ("@ + kind + ") does not have matching group/versions"@
}

/// Why a policy is denied whose kind the cluster does not serve in the
/// group that the policy names.
pub open spec fn denial_no_match_in_group(group: Seq<char>, kind: Seq<char>) -> Seq<char> {
    "specified group and kind ("@ + group + ", "@ + kind
        + ") does not have matching group/versions"@
}

/// Why a policy is denied whose kind the cluster serves in several groups,
/// which the message lists.
pub open spec fn denial_ambiguous(kind: Seq<char>, gvs: Seq<GroupVersion>) -> Seq<char> {
    "specified kind ("@ + kind + ") has multiple matching group/versions: "@ + joined(
        gvs.map_values(|gv: GroupVersion| quoted(gv)),
        ","@,
    )
}

/// A resource with its group and version set.
pub open spec fn with_group_version(r: CronPolicyResourceView, gv: GroupVersion) -> CronPolicyResourceView {
    CronPolicyResourceView { group: Some(gv.0), version: Some(gv.1), ..r }
}

/// One resource of a policy as it is admitted, or why the policy is denied.
/// - A resource that names group and version stays as it is, if the cluster
///   serves its kind under them in any version.
/// - One that names a version alone is denied.
/// - One that names neither gets the one group and preferred version under
///   which the cluster serves its kind; it is denied where there is none
///   and where there are several.
/// - One that names a group alone gets the preferred version of that group.
pub open spec fn normalized(r: CronPolicyResourceView, d: DiscoveryView) -> Result<
    CronPolicyResourceView,
    Seq<char>,
> {
    if r.group is Some && r.version is Some {
        if group_version_pairs(d, r.kind, false).contains((r.group.unwrap(), r.version.unwrap())) {
            Ok(r)
        } else {
            Err(denial_unknown(r.group.unwrap(), r.version.unwrap(), r.kind))
        }
    } else if r.version is Some {
        Err(denial_version_alone())
    } else {
        let gvs = group_version_pairs(d, r.kind, true);
        if gvs.len() == 0 {
            Err(denial_no_match(r.kind))
        } else if r.group is Some {
            match first_of_group(gvs, r.group.unwrap()) {
                Some(gv) => Ok(with_group_version(r, gv)),
                None => Err(denial_no_match_in_group(r.group.unwrap(), r.kind)),
            }
        } else if gvs.len() > 1 {
            Err(denial_ambiguous(r.kind, gvs))
        } else {
            Ok(with_group_version(r, gvs[0]))
        }
    }
}

/// The resources of a policy as they are admitted, or the denial of the
/// first that is denied.
pub open spec fn normalized_all(rs: Seq<CronPolicyResourceView>, d: DiscoveryView) -> Result<
    Seq<CronPolicyResourceView>,
    Seq<char>,
>
    decreases rs.len(),
{
    if rs.len() == 0 {
        Ok(Seq::empty())
    } else {
        match normalized_all(rs.drop_last(), d) {
            Err(m) => Err(m),
            Ok(done) => match normalized(rs.last(), d) {
                Err(m) => Err(m),
                Ok(r) => Ok(done.push(r)),
            },
        }
    }
}

/// Whether `gvs` holds the pair of `group` and `version`.
fn has_pair(gvs: &Vec<(String, String)>, group: &String, version: &String) -> (r: bool)
    ensures
        r == gvs.deep_view().contains((group@, version@)),
{
    let mut i: usize = 0;
    while i < gvs.len()
        invariant
            i <= gvs.len(),
            forall|k: int| 0 <= k < i ==> gvs.deep_view()[k] != (group@, version@),
        decreases gvs.len() - i,
    {
        if string_eq(gvs[i].0.as_str(), group.as_str()) && string_eq(
            gvs[i].1.as_str(),
            version.as_str(),
        ) {
            assert(gvs.deep_view()[i as int] == (group@, version@));
            return true;
        }
        i += 1;
    }
    false
}

/// The first of the pairs `gvs` whose group is `group`.
fn find_in_group(gvs: &Vec<(String, String)>, group: &String) -> (r: Option<(String, String)>)
    ensures
        r.deep_view() == first_of_group(gvs.deep_view(), group@),
{
    let ghost all = gvs.deep_view();
    let mut i: usize = 0;
    assert(all.skip(0) =~= all);
    while i < gvs.len()
        invariant
            i <= gvs.len(),
            all == gvs.deep_view(),
            first_of_group(all, group@) == first_of_group(all.skip(i as int), group@),
        decreases gvs.len() - i,
    {
        assert(all.skip(i as int)[0] == all[i as int]);
        if string_eq(gvs[i].0.as_str(), group.as_str()) {
            return Some((gvs[i].0.clone(), gvs[i].1.clone()));
        }
        assert(all.skip(i as int).drop_first() =~= all.skip(i + 1));
        i += 1;
    }
    None
}

/// The pairs `gvs` as a denial lists them.
fn quote_pairs(gvs: &Vec<(String, String)>) -> (r: Vec<String>)
    ensures
        r.deep_view() == gvs.deep_view().map_values(|gv: GroupVersion| quoted(gv)),
{
    let mut out: Vec<String> = Vec::new();
    let mut i: usize = 0;
    while i < gvs.len()
        invariant
            i <= gvs.len(),
            out.len() == i,
            forall|k: int| 0 <= k < i ==> (#[trigger] out.deep_view()[k]) == quoted(gvs.deep_view()[k]),
        decreases gvs.len() - i,
    {
        let ghost before = out.deep_view();
        let q = String::from_str("`").concat(gvs[i].0.as_str()).concat("/").concat(
            gvs[i].1.as_str(),
        ).concat("`");
        out.push(q);
        assert(out.deep_view() =~= before.push(q@));
        i += 1;
    }
    assert(out.deep_view() =~= gvs.deep_view().map_values(|gv: GroupVersion| quoted(gv)));
    out
}

/// A copy of a resource with the group and version `gv`.
fn set_group_version(resource: &CronPolicyResource, gv: (String, String)) -> (r: CronPolicyResource)
    ensures
        r@ == with_group_version(resource@, (gv.0@, gv.1@)),
{
    let copy = resource.clone();
    CronPolicyResource {
        group: Some(gv.0),
        version: Some(gv.1),
        kind: copy.kind,
        plural: copy.plural,
        namespace: copy.namespace,
        name: copy.name,
        list_params: copy.list_params,
    }
}

/// One resource of a policy as it is admitted, or why the policy is denied.
pub fn normalize_resource(resource: &CronPolicyResource, discovery: &Discovery) -> (r: Result<
    CronPolicyResource,
    String,
>)
    ensures
        result_view(r) == normalized(resource@, discovery@),
{
    let kind = resource.kind.as_str();
    match (&resource.group, &resource.version) {
        (Some(group), Some(version)) => {
            let gvs = find_group_version_pairs_by_kind(kind, false, discovery);
            if has_pair(&gvs, group, version) {
                Ok(resource.clone())
            } else {
                Err(
                    String::from_str("specified group, version, and kind (`").concat(
                        group.as_str(),
                    ).concat("`, `").concat(version.as_str()).concat("`, `").concat(kind).concat(
                        "`) do not exists",
                    ),
                )
            }
        },
        (None, Some(_)) => Err(String::from_str("only specifying version is not allowed")),
        (Some(group), None) => {
            let gvs = find_group_version_pairs_by_kind(kind, true, discovery);
            if gvs.len() == 0 {
                return Err(
                    String::from_str("specified kind (").concat(kind).concat(
                        ") does not have matching group/versions",
                    ),
                );
            }
            match find_in_group(&gvs, group) {
                Some(gv) => Ok(set_group_version(resource, gv)),
                None => Err(
                    String::from_str("specified group and kind (").concat(group.as_str()).concat(
                        ", ",
                    ).concat(kind).concat(") does not have matching group/versions"),
                ),
            }
        },
        (None, None) => {
            let mut gvs = find_group_version_pairs_by_kind(kind, true, discovery);
            if gvs.len() == 0 {
                Err(
                    String::from_str("specified kind (").concat(kind).concat(
                        ") does not have matching group/versions",
                    ),
                )
            } else if gvs.len() > 1 {
                let listed = join(&quote_pairs(&gvs), ",");
                Err(
                    String::from_str("specified kind (").concat(kind).concat(
                        ") has multiple matching group/versions: ",
                    ).concat(listed.as_str()),
                )
            } else {
                assert(gvs.deep_view()[0] == (gvs@[0].0@, gvs@[0].1@));
                let gv = gvs.remove(0);
                Ok(set_group_version(resource, gv))
            }
        },
    }
}

/// The resources of a policy as they are admitted, or the denial of the
/// first that is denied.
pub fn normalize_resources(resources: &Vec<CronPolicyResource>, discovery: &Discovery) -> (r:
    Result<Vec<CronPolicyResource>, String>)
    ensures
        result_view(r) == normalized_all(resources.deep_view(), discovery@),
{
    let ghost rs = resources.deep_view();
    let mut out: Vec<CronPolicyResource> = Vec::new();
    let mut i: usize = 0;
    assert(rs.take(0) =~= Seq::empty());
    assert(out.deep_view() =~= Seq::empty());
    while i < resources.len()
        invariant
            i <= resources.len(),
            rs == resources.deep_view(),
            normalized_all(rs.take(i as int), discovery@) == Ok::<
                Seq<CronPolicyResourceView>,
                Seq<char>,
            >(out.deep_view()),
        decreases resources.len() - i,
    {
        assert(rs.take(i + 1).drop_last() =~= rs.take(i as int));
        assert(rs.take(i + 1).last() == resources[i as int]@);
        let ghost before = out.deep_view();
        match normalize_resource(&resources[i], discovery) {
            Ok(r) => {
                out.push(r);
                assert(out.deep_view() =~= before.push(r@));
            },
            Err(m) => {
                proof {
                    lemma_first_denial(rs, discovery@, i as int);
                }
                return Err(m);
            },
        }
        i += 1;
    }
    assert(rs.take(rs.len() as int) =~= rs);
    Ok(out)
}

/// Where the resources before `i` are admitted and the one at `i` is
/// denied, the policy is denied for that one.
pub proof fn lemma_first_denial(rs: Seq<CronPolicyResourceView>, d: DiscoveryView, i: int)
    requires
        0 <= i < rs.len(),
        normalized_all(rs.take(i), d) is Ok,
        normalized(rs[i], d) is Err,
    ensures
        normalized_all(rs, d) is Err,
        normalized_all(rs, d)->Err_0 == normalized(rs[i], d)->Err_0,
    decreases rs.len(),
{
    if i == rs.len() - 1 {
        assert(rs.drop_last() =~= rs.take(i));
    } else {
        assert(rs.drop_last().take(i) =~= rs.take(i));
        lemma_first_denial(rs.drop_last(), d, i);
    }
}

/// No denial is empty.
pub proof fn lemma_denial_not_empty(r: CronPolicyResourceView, d: DiscoveryView)
    requires
        normalized(r, d) is Err,
    ensures
        normalized(r, d)->Err_0.len() > 0,
{
    reveal_strlit("specified group, version, and kind (`");
    reveal_strlit("only specifying version is not allowed");
    reveal_strlit("specified kind (");
    reveal_strlit("specified group and kind (");
}

/// No denial of a policy is empty.
pub proof fn lemma_denials_not_empty(rs: Seq<CronPolicyResourceView>, d: DiscoveryView)
    requires
        normalized_all(rs, d) is Err,
    ensures
        normalized_all(rs, d)->Err_0.len() > 0,
    decreases rs.len(),
{
    if rs.len() > 0 {
        if normalized_all(rs.drop_last(), d) is Err {
            lemma_denials_not_empty(rs.drop_last(), d);
        } else {
            lemma_denial_not_empty(rs.last(), d);
        }
    }
}

/// Whether each group lists the version that it prefers among its versions.
pub open spec fn preferred_listed(d: DiscoveryView) -> bool {
    forall|i: int|
        0 <= i < d.groups.len() && (#[trigger] d.groups[i]).preferred_version is Some
            ==> d.groups[i].versions.contains(d.groups[i].preferred_version.unwrap())
}

/// A pair is among two lists put together where it is among one of them.
proof fn lemma_contains_either(a: Seq<GroupVersion>, b: Seq<GroupVersion>, p: GroupVersion)
    ensures
        (a + b).contains(p) <==> a.contains(p) || b.contains(p),
{
    if (a + b).contains(p) {
        let i = choose|i: int| 0 <= i < (a + b).len() && (a + b)[i] == p;
        if i < a.len() {
            assert(a[i] == p);
        } else {
            assert(b[i - a.len()] == p);
        }
    }
    if a.contains(p) {
        let i = choose|i: int| 0 <= i < a.len() && a[i] == p;
        assert((a + b)[i] == p);
    }
    if b.contains(p) {
        let i = choose|i: int| 0 <= i < b.len() && b[i] == p;
        assert((a + b)[a.len() + i] == p);
    }
}

/// A version that serves the kind gives its pair.
proof fn lemma_serving_version_is_paired(
    name: Seq<char>,
    versions: Seq<crate::util::ApiVersionResourcesView>,
    kind: Seq<char>,
    v: crate::util::ApiVersionResourcesView,
)
    requires
        versions.contains(v),
        v.kinds.contains(kind),
    ensures
        crate::util::versions_pairs(name, versions, kind).contains((name, v.version)),
    decreases versions.len(),
{
    let i = choose|i: int| 0 <= i < versions.len() && versions[i] == v;
    let before = crate::util::versions_pairs(name, versions.drop_last(), kind);
    let last = if versions.last().kinds.contains(kind) {
        seq![(name, versions.last().version)]
    } else {
        Seq::<GroupVersion>::empty()
    };
    lemma_contains_either(before, last, (name, v.version));
    if i == versions.len() - 1 {
        assert(last[0] == (name, v.version));
    } else {
        assert(versions.drop_last()[i] == v);
        lemma_serving_version_is_paired(name, versions.drop_last(), kind, v);
    }
}

/// What the groups give when one version of each is looked at, they also
/// give when all versions are.
proof fn lemma_preferred_groups_among_all(
    groups: Seq<crate::util::ApiGroupResourcesView>,
    kind: Seq<char>,
    p: GroupVersion,
)
    requires
        forall|i: int|
            0 <= i < groups.len() && (#[trigger] groups[i]).preferred_version is Some
                ==> groups[i].versions.contains(groups[i].preferred_version.unwrap()),
        crate::util::groups_pairs(groups, kind, true).contains(p),
    ensures
        crate::util::groups_pairs(groups, kind, false).contains(p),
    decreases groups.len(),
{
    if groups.len() > 0 {
        let g = groups.last();
        assert(g == groups[groups.len() - 1]);
        let before_preferred = crate::util::groups_pairs(groups.drop_last(), kind, true);
        let before_all = crate::util::groups_pairs(groups.drop_last(), kind, false);
        lemma_contains_either(before_preferred, crate::util::group_pairs(g, kind, true), p);
        lemma_contains_either(before_all, crate::util::group_pairs(g, kind, false), p);
        if before_preferred.contains(p) {
            assert forall|i: int|
                0 <= i < groups.drop_last().len() && (
                #[trigger] groups.drop_last()[i]).preferred_version is Some implies groups.drop_last()[i].versions.contains(
                groups.drop_last()[i].preferred_version.unwrap(),
            ) by {
                assert(groups.drop_last()[i] == groups[i]);
            }
            lemma_preferred_groups_among_all(groups.drop_last(), kind, p);
        } else {
            let one = crate::util::group_pairs(g, kind, true);
            assert(one.contains(p));
            let i = choose|i: int| 0 <= i < one.len() && one[i] == p;
            let v = crate::util::inspected_version(g).unwrap();
            assert(p == (g.name, v.version));
            if g.preferred_version is None {
                assert(g.versions[0] == v);
            }
            lemma_serving_version_is_paired(g.name, g.versions, kind, v);
        }
    }
}

/// What discovery gives for a kind when one version of each group is looked
/// at, it also gives when all versions are, as long as each group lists the
/// version that it prefers.
pub proof fn lemma_preferred_among_all(d: DiscoveryView, kind: Seq<char>, p: GroupVersion)
    requires
        preferred_listed(d),
        group_version_pairs(d, kind, true).contains(p),
    ensures
        group_version_pairs(d, kind, false).contains(p),
{
    let groups_preferred = crate::util::groups_pairs(d.groups, kind, true);
    let groups_all = crate::util::groups_pairs(d.groups, kind, false);
    let core_preferred = crate::util::core_pairs(d.core_versions, kind, true);
    let core_all = crate::util::core_pairs(d.core_versions, kind, false);
    lemma_contains_either(groups_preferred, core_preferred, p);
    lemma_contains_either(groups_all, core_all, p);
    if groups_preferred.contains(p) {
        lemma_preferred_groups_among_all(d.groups, kind, p);
    } else {
        let i = choose|i: int| 0 <= i < core_preferred.len() && core_preferred[i] == p;
        assert(p == (Seq::<char>::empty(), d.core_versions[0].version));
        lemma_serving_version_is_paired(
            Seq::<char>::empty(),
            d.core_versions,
            kind,
            d.core_versions[0],
        );
    }
}

/// The first pair of a group is among the pairs, and is of that group.
pub proof fn lemma_first_of_group(gvs: Seq<GroupVersion>, group: Seq<char>)
    requires
        first_of_group(gvs, group) is Some,
    ensures
        gvs.contains(first_of_group(gvs, group).unwrap()),
        first_of_group(gvs, group).unwrap().0 == group,
    decreases gvs.len(),
{
    if gvs.len() > 0 {
        if gvs[0].0 == group {
            assert(gvs.contains(gvs[0]));
        } else {
            lemma_first_of_group(gvs.drop_first(), group);
            let gv = first_of_group(gvs, group).unwrap();
            let i = choose|i: int| 0 <= i < gvs.drop_first().len() && gvs.drop_first()[i] == gv;
            assert(gvs[i + 1] == gv);
        }
    }
}

/// A resource that has been admitted is admitted again as it is: once the
/// group and version of a resource are filled in, a later admission of the
/// policy changes nothing in it, as long as each group lists the version
/// that it prefers.
pub proof fn lemma_admitted_stays(r: CronPolicyResourceView, d: DiscoveryView)
    requires
        preferred_listed(d),
        normalized(r, d) is Ok,
    ensures
        normalized(normalized(r, d)->Ok_0, d) == normalized(r, d),
{
    let n = normalized(r, d)->Ok_0;
    if r.group is Some && r.version is Some {
        assert(n == r);
    } else {
        let gvs = group_version_pairs(d, r.kind, true);
        if r.group is Some {
            lemma_first_of_group(gvs, r.group.unwrap());
            let gv = first_of_group(gvs, r.group.unwrap()).unwrap();
            lemma_preferred_among_all(d, r.kind, gv);
            assert(n == with_group_version(r, gv));
        } else {
            assert(gvs.contains(gvs[0]));
            lemma_preferred_among_all(d, r.kind, gvs[0]);
            assert(n == with_group_version(r, gvs[0]));
        }
    }
}

/// What admitting a cron policy comes to.
#[derive(Debug, PartialEq, Eq)]
pub enum Admission {
    /// The policy is denied, with this response.
    Denied(AdmissionResponse),
    /// The policy is admitted as this one, which has the group and version
    /// of every resource.
    Normalized(CronPolicy),
}

/// A policy with other resources.
pub open spec fn with_resources(cp: CronPolicyView, rs: Seq<CronPolicyResourceView>) -> CronPolicyView {
    CronPolicyView {
        spec: crate::types::policy::CronPolicySpecView { resources: rs, ..cp.spec },
        ..cp
    }
}

/// Admits the cron policy `object` of the request `uid`: each resource that
/// the policy names gets its group and version from the cluster, or the
/// policy is denied with the denial of the first resource that cannot. It
/// fails where the request holds no object.
pub fn mutate_cronpolicy(uid: &str, object: Option<CronPolicy>, discovery: &Discovery) -> (r:
    Result<Admission, Error>)
    ensures
        match object {
            None => r matches Err(e) && e@ is ObjectNotExists,
            Some(cp) => match normalized_all(cp@.spec.resources, discovery@) {
                Err(m) => (r matches Ok(Admission::Denied(resp)) && resp@
                    == AdmissionResponseView::allowing(uid@).denied(m) && resp@.wf()),
                Ok(rs) => (r matches Ok(Admission::Normalized(n)) && n@ == with_resources(cp@, rs)),
            },
        },
{
    let cp = match object {
        Some(cp) => cp,
        None => {
            return Err(Error::ObjectNotExists);
        },
    };
    match normalize_resources(&cp.spec.resources, discovery) {
        Err(m) => {
            proof {
                lemma_denials_not_empty(cp@.spec.resources, discovery@);
            }
            Ok(Admission::Denied(AdmissionResponse::allow(uid).deny(m)))
        },
        Ok(resources) => {
            let CronPolicy { metadata, spec } = cp;
            let CronPolicySpec {
                suspend,
                schedule,
                resources: _,
                code,
                notifications,
                namespace,
                restart_policy,
            } = spec;
            Ok(
                Admission::Normalized(
                    CronPolicy {
                        metadata,
                        spec: CronPolicySpec {
                            suspend,
                            schedule,
                            resources,
                            code,
                            notifications,
                            namespace,
                            restart_policy,
                        },
                    },
                ),
            )
        },
    }
}

/// The response that admits the cron policy of the request `uid` with the
/// patch `patch`: it allows, and carries the patch where that has
/// operations. Where the serialiser fails on the patch, there is no
/// response but the error, which holds the message of that failure.
pub open spec fn admitted_with(uid: Seq<char>, patch: json_patch::Patch) -> Result<
    AdmissionResponseView,
    ErrorView,
> {
    match AdmissionResponseView::allowing(uid).attached(patch) {
        Ok(resp) => Ok(resp),
        Err(e) => Err(ErrorView::SerializePatch(e.message())),
    }
}

/// The response that admits a cron policy with the patch `patch`. It
/// succeeds exactly where the patch has no operations or the serialiser
/// succeeds on it.
pub fn respond_with_patch(uid: &str, patch: &json_patch::Patch) -> (r: Result<
    AdmissionResponse,
    Error,
>)
    ensures
        result_view(r) == admitted_with(uid@, *patch),
        r is Ok <==> (patch_operations(*patch).len() == 0 || patch_serialized(*patch) is Ok),
        r matches Ok(resp) ==> (resp@.wf() && resp@.uid == uid@ && resp@.allowed),
{
    match AdmissionResponse::allow(uid).with_patch(patch) {
        Ok(resp) => Ok(resp),
        Err(e) => Err(Error::SerializePatch(e.to_string())),
    }
}

/// The response that admits a cron policy: it allows, and carries the patch
/// that leads from the policy as it came, `before`, to the policy as it
/// is admitted, `after`, both as JSON values; it carries none where the
/// two do not differ. It succeeds exactly where that patch has no
/// operations or the serialiser succeeds on it.
pub fn respond_with_diff(uid: &str, before: &serde_json::Value, after: &serde_json::Value) -> (r:
    Result<AdmissionResponse, Error>)
    ensures
        result_view(r) == admitted_with(uid@, json_diff(*before, *after)),
        r is Ok <==> (patch_operations(json_diff(*before, *after)).len() == 0
            || patch_serialized(json_diff(*before, *after)) is Ok),
        r matches Ok(resp) ==> (resp@.wf() && resp@.uid == uid@ && resp@.allowed),
{
    let patch = diff(before, after);
    respond_with_patch(uid, &patch)
}

} // verus!
