//! The policy reconciler: a cron policy becomes a service account, the roles
//! that let it read the policy's resources and no others, and a scheduled job.

use crate::config::{ControllerConfig, ControllerConfigView};
use crate::reconcile::objects::{
    ClusterRole, ClusterRoleBinding, ClusterRoleBindingView, ClusterRoleView, Container,
    ContainerView, CronJob, CronJobView, EnvVar, EnvVarView, PolicyRule, PolicyRuleView, Role,
    RoleBinding, RoleBindingView, RoleRef, RoleRefView, RoleView, ServiceAccount,
    ServiceAccountView, Subject, SubjectView,
};
use crate::text::{ascii_lowercase, chars_of, string_of, to_ascii_lowercase};
use crate::types::labels::Labels;
use crate::types::object::{ObjectMeta, ObjectMetaView, OwnerReference, OwnerReferenceView};
use crate::types::policy::{CronPolicyResource, CronPolicyResourceView, CronPolicySpec, CronPolicySpecView};
use crate::types::views::result_view;
use crate::util::{find_group_version_pairs_by_kind, group_version_pairs, Discovery, DiscoveryView};
use vstd::prelude::*;
use vstd::string::*;

verus! {

/// Key of the label that marks an object as owned by a cron policy.
pub const CRONPOLICY_OWNED_LABEL_KEY: &'static str = "checkpoint.devsisters.com/cronpolicy";

/// Field manager under which the policy reconciler applies its objects.
pub const CRONPOLICY_FIELD_MANAGER: &'static str = "cronpolicy.checkpoint.devsisters.com";

/// What can go wrong while a cron policy is reconciled. Where the failure
/// came from the cluster or from a serialiser, the variant holds its message.
#[derive(Debug, PartialEq, Eq)]
pub enum Error {
    /// The service account could not be applied.
    PatchServiceAccount(String),
    /// A role could not be applied.
    PatchRole(String),
    /// A role binding could not be applied.
    PatchRoleBinding(String),
    /// The cluster role could not be applied.
    PatchClusterRole(String),
    /// The cluster role binding could not be applied.
    PatchClusterRoleBinding(String),
    /// The scheduled job could not be applied.
    PatchCronJob(String),
    /// The resources could not be serialised.
    SerializeResources(String),
    /// The notifications could not be serialised.
    SerializeNotifications(String),
    /// The cluster could not be asked.
    Kubernetes(String),
    /// No group and version serves the kind, which the variant holds.
    GroupVersionNotExists(String),
    /// More than one group and version serve the kind, which the variant holds.
    MultipleGroupVersion(String),
}

/// The view of [`Error`].
pub enum ErrorView {
    PatchServiceAccount(Seq<char>),
    PatchRole(Seq<char>),
    PatchRoleBinding(Seq<char>),
    PatchClusterRole(Seq<char>),
    PatchClusterRoleBinding(Seq<char>),
    PatchCronJob(Seq<char>),
    SerializeResources(Seq<char>),
    SerializeNotifications(Seq<char>),
    Kubernetes(Seq<char>),
    GroupVersionNotExists(Seq<char>),
    MultipleGroupVersion(Seq<char>),
}

impl DeepView for Error {
    type V = ErrorView;

    open spec fn deep_view(&self) -> ErrorView {
        match self {
            Error::PatchServiceAccount(m) => ErrorView::PatchServiceAccount(m@),
            Error::PatchRole(m) => ErrorView::PatchRole(m@),
            Error::PatchRoleBinding(m) => ErrorView::PatchRoleBinding(m@),
            Error::PatchClusterRole(m) => ErrorView::PatchClusterRole(m@),
            Error::PatchClusterRoleBinding(m) => ErrorView::PatchClusterRoleBinding(m@),
            Error::PatchCronJob(m) => ErrorView::PatchCronJob(m@),
            Error::SerializeResources(m) => ErrorView::SerializeResources(m@),
            Error::SerializeNotifications(m) => ErrorView::SerializeNotifications(m@),
            Error::Kubernetes(m) => ErrorView::Kubernetes(m@),
            Error::GroupVersionNotExists(m) => ErrorView::GroupVersionNotExists(m@),
            Error::MultipleGroupVersion(m) => ErrorView::MultipleGroupVersion(m@),
        }
    }
}

impl View for Error {
    type V = ErrorView;

    open spec fn view(&self) -> ErrorView {
        self.deep_view()
    }
}

impl ErrorView {
    /// The message of the error.
    pub open spec fn message(self) -> Seq<char> {
        match self {
            ErrorView::PatchServiceAccount(m) => "Failed to patch ServiceAccount: "@ + m,
            ErrorView::PatchRole(m) => "Failed to patch Role: "@ + m,
            ErrorView::PatchRoleBinding(m) => "Failed to patch RoleBinding: "@ + m,
            ErrorView::PatchClusterRole(m) => "Failed to patch ClusterRole: "@ + m,
            ErrorView::PatchClusterRoleBinding(m) => "Failed to patch ClusterRoleBinding: "@ + m,
            ErrorView::PatchCronJob(m) => "Failed to patch CronJob: "@ + m,
            ErrorView::SerializeResources(m) => "Failed to serialize resources (This is a bug): "@
                + m,
            ErrorView::SerializeNotifications(m) =>
                "Failed to serialize notifications (This is a bug): "@ + m,
            ErrorView::Kubernetes(m) => "Kubernetes error: "@ + m,
            ErrorView::GroupVersionNotExists(k) => "Specifed kind (`"@ + k
                + "`) does not have matching group/versions"@,
            ErrorView::MultipleGroupVersion(k) => "Specifed kind (`"@ + k
                + "`) has multiple matching group/versions"@,
        }
    }
}

impl Error {
    /// The message of the error.
    pub fn to_string(&self) -> (r: String)
        ensures
            r@ == self@.message(),
    {
        match self {
            Error::PatchServiceAccount(m) => String::from_str("Failed to patch ServiceAccount: ").concat(m.as_str()),
            Error::PatchRole(m) => String::from_str("Failed to patch Role: ").concat(m.as_str()),
            Error::PatchRoleBinding(m) => String::from_str("Failed to patch RoleBinding: ").concat(m.as_str()),
            Error::PatchClusterRole(m) => String::from_str("Failed to patch ClusterRole: ").concat(m.as_str()),
            Error::PatchClusterRoleBinding(m) => String::from_str("Failed to patch ClusterRoleBinding: ").concat(m.as_str()),
            Error::PatchCronJob(m) => String::from_str("Failed to patch CronJob: ").concat(m.as_str()),
            Error::SerializeResources(m) => String::from_str("Failed to serialize resources (This is a bug): ").concat(m.as_str()),
            Error::SerializeNotifications(m) => String::from_str("Failed to serialize notifications (This is a bug): ").concat(m.as_str()),
            Error::Kubernetes(m) => String::from_str("Kubernetes error: ").concat(m.as_str()),
            Error::GroupVersionNotExists(k) => String::from_str("Specifed kind (`").concat(k.as_str()).concat("`) does not have matching group/versions"),
            Error::MultipleGroupVersion(k) => String::from_str("Specifed kind (`").concat(k.as_str()).concat("`) has multiple matching group/versions"),
        }
    }
}

/// The labels of an object that the cron policy `name` owns.
pub open spec fn owned_labels(name: Seq<char>) -> Map<Seq<char>, Seq<char>> {
    Map::<Seq<char>, Seq<char>>::empty().insert(CRONPOLICY_OWNED_LABEL_KEY@, name)
}

/// The labels that mark an object as owned by the cron policy `name`.
pub fn make_labels(name: String) -> (labels: Labels)
    ensures
        labels@ == owned_labels(name@),
{
    Labels::single(String::from_str(CRONPOLICY_OWNED_LABEL_KEY), name)
}

/// The metadata of an object that the cron policy `name` owns.
pub open spec fn owned_meta(
    name: Seq<char>,
    namespace: Option<Seq<char>>,
    oref: OwnerReferenceView,
) -> ObjectMetaView {
    ObjectMetaView {
        name: Some(name),
        namespace,
        owner_references: Some(seq![oref]),
        labels: Some(owned_labels(name)),
        annotations: None,
    }
}

/// The metadata of an object that the cron policy `name` owns: its name, the
/// one owner and the ownership label.
fn make_owned_meta(name: String, namespace: Option<String>, oref: OwnerReference) -> (meta:
    ObjectMeta)
    ensures
        meta@ == owned_meta(name@, namespace.deep_view(), oref@),
{
    let mut orefs: Vec<OwnerReference> = Vec::new();
    orefs.push(oref);
    assert(orefs.deep_view() =~= seq![oref@]);
    let labels = make_labels(name.clone());
    ObjectMeta {
        name: Some(name),
        namespace,
        owner_references: Some(orefs),
        labels: Some(labels),
        annotations: None,
    }
}

/// The service account of the cron policy `name`.
pub open spec fn serviceaccount_of(
    name: Seq<char>,
    namespace: Seq<char>,
    oref: OwnerReferenceView,
) -> ServiceAccountView {
    ServiceAccountView { metadata: owned_meta(name, Some(namespace), oref) }
}

/// The service account under which the audit job of the cron policy `name`
/// runs, in the job's namespace.
pub fn make_serviceaccount(name: String, namespace: String, oref: OwnerReference) -> (sa:
    ServiceAccount)
    ensures
        sa@ == serviceaccount_of(name@, namespace@, oref@),
{
    ServiceAccount { metadata: make_owned_meta(name, Some(namespace), oref) }
}

/// Whether `c` is one of the five vowels.
pub open spec fn is_vowel(c: char) -> bool {
    c == 'a' || c == 'e' || c == 'i' || c == 'o' || c == 'u'
}

/// Whether `w` ends in `s`, `x`, `z`, `ch` or `sh`.
pub open spec fn takes_es(w: Seq<char>) -> bool {
    ||| w.len() >= 1 && (w.last() == 's' || w.last() == 'x' || w.last() == 'z')
    ||| w.len() >= 2 && w.last() == 'h' && (w[w.len() - 2] == 'c' || w[w.len() - 2] == 's')
}

/// The plural of `w`: `es` is added after `s`, `x`, `z`, `ch` and `sh`; a
/// final `y` after a letter that is no vowel becomes `ies`; else `s` is added.
pub open spec fn plural_of(w: Seq<char>) -> Seq<char> {
    if takes_es(w) {
        w + seq!['e', 's']
    } else if w.len() >= 2 && w.last() == 'y' && !is_vowel(w[w.len() - 2]) {
        w.drop_last() + seq!['i', 'e', 's']
    } else {
        w + seq!['s']
    }
}

/// The plural of a word, by the three rules of regular English plurals.
/// Irregular plurals have to be named in the policy.
pub fn to_plural(word: &str) -> (plural: String)
    ensures
        plural@ == plural_of(word@),
{
    let mut w = chars_of(word);
    let n = w.len();
    let es = (n >= 1 && (w[n - 1] == 's' || w[n - 1] == 'x' || w[n - 1] == 'z')) || (n >= 2 && w[n
        - 1] == 'h' && (w[n - 2] == 'c' || w[n - 2] == 's'));
    if es {
        w.push('e');
        w.push('s');
        assert(w@ =~= word@ + seq!['e', 's']);
    } else if n >= 2 && w[n - 1] == 'y' && !(w[n - 2] == 'a' || w[n - 2] == 'e' || w[n - 2] == 'i'
        || w[n - 2] == 'o' || w[n - 2] == 'u') {
        w.pop();
        w.push('i');
        w.push('e');
        w.push('s');
        assert(w@ =~= word@.drop_last() + seq!['i', 'e', 's']);
    } else {
        w.push('s');
        assert(w@ =~= word@ + seq!['s']);
    }
    string_of(&w)
}

/// The plural name under which a resource is addressed: the one it names, or
/// the plural of its kind in lower case.
pub open spec fn resource_plural(r: CronPolicyResourceView) -> Seq<char> {
    match r.plural {
        Some(p) => p,
        None => plural_of(ascii_lowercase(r.kind)),
    }
}

/// The API group of a resource: the one it names, or the only one that
/// discovery finds for its kind.
pub open spec fn resource_group(r: CronPolicyResourceView, d: DiscoveryView) -> Result<
    Seq<char>,
    ErrorView,
> {
    match r.group {
        Some(g) => Ok(g),
        None => {
            let pairs = group_version_pairs(d, r.kind, true);
            if pairs.len() == 0 {
                Err(ErrorView::GroupVersionNotExists(r.kind))
            } else if pairs.len() > 1 {
                Err(ErrorView::MultipleGroupVersion(r.kind))
            } else {
                Ok(pairs[0].0)
            }
        },
    }
}

/// The rule that lets the audit job read one resource and nothing more: `get`
/// on the named object where the resource names one, else `list`.
pub open spec fn role_rule(r: CronPolicyResourceView, d: DiscoveryView) -> Result<
    PolicyRuleView,
    ErrorView,
> {
    match resource_group(r, d) {
        Err(e) => Err(e),
        Ok(group) => Ok(
            PolicyRuleView {
                api_groups: Some(seq![group]),
                resources: Some(seq![resource_plural(r)]),
                verbs: seq![if r.name is Some {
                    "get"@
                } else {
                    "list"@
                }],
                resource_names: match r.name {
                    Some(n) => Some(seq![n]),
                    None => None,
                },
            },
        ),
    }
}

/// The rules for the resources `rs`, one for each in their order, or the
/// error of the first resource that has none.
pub open spec fn role_rules(rs: Seq<CronPolicyResourceView>, d: DiscoveryView) -> Result<
    Seq<PolicyRuleView>,
    ErrorView,
>
    decreases rs.len(),
{
    if rs.len() == 0 {
        Ok(Seq::empty())
    } else {
        match role_rules(rs.drop_last(), d) {
            Err(e) => Err(e),
            Ok(rules) => match role_rule(rs.last(), d) {
                Err(e) => Err(e),
                Ok(rule) => Ok(rules.push(rule)),
            },
        }
    }
}

/// Whether the rules for the resources cannot be made without discovery:
/// they cannot where a resource names no group.
pub open spec fn needs_groups(rs: Seq<CronPolicyResourceView>) -> bool {
    exists|i: int| 0 <= i < rs.len() && (#[trigger] rs[i]).group is None
}

/// Whether the rules for the resources cannot be made without discovery.
pub fn needs_discovery(resources: &Vec<CronPolicyResource>) -> (r: bool)
    ensures
        r == needs_groups(resources.deep_view()),
{
    let mut i: usize = 0;
    while i < resources.len()
        invariant
            i <= resources.len(),
            forall|k: int| 0 <= k < i ==> (#[trigger] resources.deep_view()[k]).group is Some,
        decreases resources.len() - i,
    {
        if resources[i].group.is_none() {
            assert(resources.deep_view()[i as int].group is None);
            return true;
        }
        i += 1;
    }
    false
}

/// Without a resource that names no group, the rules do not depend on what
/// the cluster serves.
pub proof fn lemma_rules_without_discovery(
    rs: Seq<CronPolicyResourceView>,
    d: DiscoveryView,
    e: DiscoveryView,
)
    requires
        !needs_groups(rs),
    ensures
        role_rules(rs, d) == role_rules(rs, e),
        role_rules(rs, d) is Ok,
    decreases rs.len(),
{
    if rs.len() > 0 {
        assert forall|i: int| 0 <= i < rs.drop_last().len() implies (#[trigger] rs.drop_last()[i]).group is Some by {
            assert(rs.drop_last()[i] == rs[i]);
        }
        lemma_rules_without_discovery(rs.drop_last(), d, e);
        assert(rs.last() == rs[rs.len() - 1]);
    }
}

/// A list that holds `s` alone.
fn one_string(s: String) -> (v: Vec<String>)
    ensures
        v.deep_view() == seq![s@],
{
    let mut v: Vec<String> = Vec::new();
    v.push(s);
    assert(v.deep_view() =~= seq![s@]);
    v
}

/// The rule that lets the audit job read one resource.
fn make_role_rule(resource: &CronPolicyResource, discovery: &Discovery) -> (r: Result<
    PolicyRule,
    Error,
>)
    ensures
        result_view(r) == role_rule(resource@, discovery@),
{
    let group = match &resource.group {
        Some(g) => g.clone(),
        None => {
            let mut gvs = find_group_version_pairs_by_kind(resource.kind.as_str(), true, discovery);
            if gvs.len() == 0 {
                return Err(Error::GroupVersionNotExists(resource.kind.clone()));
            } else if gvs.len() > 1 {
                return Err(Error::MultipleGroupVersion(resource.kind.clone()));
            }
            assert(gvs.deep_view()[0] == (gvs@[0].0@, gvs@[0].1@));
            let gv = gvs.remove(0);
            gv.0
        },
    };
    let plural = match &resource.plural {
        Some(p) => p.clone(),
        None => {
            let lower = string_of(&to_ascii_lowercase(resource.kind.as_str()));
            to_plural(lower.as_str())
        },
    };
    let verb = if resource.name.is_some() {
        String::from_str("get")
    } else {
        String::from_str("list")
    };
    let resource_names = match &resource.name {
        Some(n) => Some(one_string(n.clone())),
        None => None,
    };
    Ok(
        PolicyRule {
            api_groups: Some(one_string(group)),
            resources: Some(one_string(plural)),
            verbs: one_string(verb),
            resource_names,
        },
    )
}

/// The rules that let the audit job read the resources, one for each in
/// their order. Where a resource names no group, discovery has to find
/// exactly one for its kind.
pub fn make_role_rules(resources: &Vec<CronPolicyResource>, discovery: &Discovery) -> (r: Result<
    Vec<PolicyRule>,
    Error,
>)
    ensures
        result_view(r) == role_rules(resources.deep_view(), discovery@),
{
    let mut rules: Vec<PolicyRule> = Vec::new();
    let ghost rs = resources.deep_view();
    let mut i: usize = 0;
    assert(rs.take(0) =~= Seq::empty());
    assert(rules.deep_view() =~= Seq::empty());
    while i < resources.len()
        invariant
            i <= resources.len(),
            rs == resources.deep_view(),
            role_rules(rs.take(i as int), discovery@) == Ok::<Seq<PolicyRuleView>, ErrorView>(
                rules.deep_view(),
            ),
        decreases resources.len() - i,
    {
        assert(rs.take(i + 1).drop_last() =~= rs.take(i as int));
        assert(rs.take(i + 1).last() == resources[i as int]@);
        let ghost before = rules.deep_view();
        match make_role_rule(&resources[i], discovery) {
            Ok(rule) => {
                rules.push(rule);
                assert(rules.deep_view() =~= before.push(rule@));
            },
            Err(e) => {
                proof {
                    lemma_role_rules_error(rs, discovery@, i as int);
                }
                return Err(e);
            },
        }
        i += 1;
    }
    assert(rs.take(rs.len() as int) =~= rs);
    Ok(rules)
}

/// Where the resources before `i` have rules and the one at `i` has none,
/// the whole list has the error of that one.
pub proof fn lemma_role_rules_error(rs: Seq<CronPolicyResourceView>, d: DiscoveryView, i: int)
    requires
        0 <= i < rs.len(),
        role_rules(rs.take(i), d) is Ok,
        role_rule(rs[i], d) is Err,
    ensures
        role_rules(rs, d) is Err,
        role_rules(rs, d)->Err_0 == role_rule(rs[i], d)->Err_0,
    decreases rs.len(),
{
    if i == rs.len() - 1 {
        assert(rs.drop_last() =~= rs.take(i));
    } else {
        assert(rs.drop_last().take(i) =~= rs.take(i));
        lemma_role_rules_error(rs.drop_last(), d, i);
    }
}

/// `kube::Resource::group` for `Role`: the constant `GROUP` of the type.
#[verifier::external_body]
fn role_group() -> (r: String)
    ensures
        r@ == "rbac.authorization.k8s.io"@,
{
    <k8s_openapi::api::rbac::v1::Role as kube::Resource>::group(&()).into_owned()
}

/// `kube::Resource::kind` for `Role`: the constant `KIND` of the type.
#[verifier::external_body]
fn role_kind() -> (r: String)
    ensures
        r@ == "Role"@,
{
    <k8s_openapi::api::rbac::v1::Role as kube::Resource>::kind(&()).into_owned()
}

/// `kube::Resource::group` for `ClusterRole`: the constant `GROUP` of the type.
#[verifier::external_body]
fn clusterrole_group() -> (r: String)
    ensures
        r@ == "rbac.authorization.k8s.io"@,
{
    <k8s_openapi::api::rbac::v1::ClusterRole as kube::Resource>::group(&()).into_owned()
}

/// `kube::Resource::kind` for `ClusterRole`: the constant `KIND` of the type.
#[verifier::external_body]
fn clusterrole_kind() -> (r: String)
    ensures
        r@ == "ClusterRole"@,
{
    <k8s_openapi::api::rbac::v1::ClusterRole as kube::Resource>::kind(&()).into_owned()
}

/// `kube::Resource::group` for `ServiceAccount`: the constant `GROUP` of the
/// type, which is the empty group of the core API.
#[verifier::external_body]
fn serviceaccount_group() -> (r: String)
    ensures
        r@ == ""@,
{
    <k8s_openapi::api::core::v1::ServiceAccount as kube::Resource>::group(&()).into_owned()
}

/// `kube::Resource::kind` for `ServiceAccount`: the constant `KIND` of the type.
#[verifier::external_body]
fn serviceaccount_kind() -> (r: String)
    ensures
        r@ == "ServiceAccount"@,
{
    <k8s_openapi::api::core::v1::ServiceAccount as kube::Resource>::kind(&()).into_owned()
}

/// The service account of the policy `name` as the subject of a binding.
pub open spec fn serviceaccount_subject(name: Seq<char>, serviceaccount_namespace: Seq<char>) -> SubjectView {
    SubjectView {
        api_group: Some(""@),
        kind: "ServiceAccount"@,
        name,
        namespace: Some(serviceaccount_namespace),
    }
}

/// The service account of the policy `name` as the one subject of a binding.
fn make_subjects(name: String, serviceaccount_namespace: String) -> (v: Vec<Subject>)
    ensures
        v.deep_view() == seq![serviceaccount_subject(name@, serviceaccount_namespace@)],
{
    let subject = Subject {
        api_group: Some(serviceaccount_group()),
        kind: serviceaccount_kind(),
        name,
        namespace: Some(serviceaccount_namespace),
    };
    let mut v: Vec<Subject> = Vec::new();
    v.push(subject);
    assert(v.deep_view() =~= seq![subject@]);
    v
}

/// The cluster role of the policy `name` with the rules `rules`.
pub open spec fn clusterrole_with(
    name: Seq<char>,
    oref: OwnerReferenceView,
    rules: Seq<PolicyRuleView>,
) -> ClusterRoleView {
    ClusterRoleView { metadata: owned_meta(name, None, oref), rules: Some(rules) }
}

/// The cluster role of the policy `name` for the resources `rs`.
pub open spec fn clusterrole_of(
    name: Seq<char>,
    oref: OwnerReferenceView,
    rs: Seq<CronPolicyResourceView>,
    d: DiscoveryView,
) -> Result<ClusterRoleView, ErrorView> {
    match role_rules(rs, d) {
        Ok(rules) => Ok(clusterrole_with(name, oref, rules)),
        Err(e) => Err(e),
    }
}

/// The cluster role that lets the audit job of the policy `name` read the
/// resources, which are those of the policy that name no namespace.
pub fn make_clusterrole(
    name: String,
    oref: OwnerReference,
    resources: &Vec<CronPolicyResource>,
    discovery: &Discovery,
) -> (r: Result<ClusterRole, Error>)
    ensures
        result_view(r) == clusterrole_of(name@, oref@, resources.deep_view(), discovery@),
{
    match make_role_rules(resources, discovery) {
        Ok(rules) => Ok(ClusterRole { metadata: make_owned_meta(name, None, oref), rules: Some(rules) }),
        Err(e) => Err(e),
    }
}

/// The binding of the cluster role of the policy `name` to its service account.
pub open spec fn clusterrolebinding_of(
    name: Seq<char>,
    oref: OwnerReferenceView,
    serviceaccount_namespace: Seq<char>,
) -> ClusterRoleBindingView {
    ClusterRoleBindingView {
        metadata: owned_meta(name, None, oref),
        role_ref: RoleRefView {
            api_group: "rbac.authorization.k8s.io"@,
            kind: "ClusterRole"@,
            name,
        },
        subjects: Some(seq![serviceaccount_subject(name, serviceaccount_namespace)]),
    }
}

/// The binding that grants the cluster role of the policy `name` to its
/// service account.
pub fn make_clusterrolebinding(
    name: String,
    oref: OwnerReference,
    serviceaccount_namespace: String,
) -> (crb: ClusterRoleBinding)
    ensures
        crb@ == clusterrolebinding_of(name@, oref@, serviceaccount_namespace@),
{
    ClusterRoleBinding {
        metadata: make_owned_meta(name.clone(), None, oref),
        role_ref: RoleRef { api_group: clusterrole_group(), kind: clusterrole_kind(), name: name.clone() },
        subjects: Some(make_subjects(name, serviceaccount_namespace)),
    }
}

/// The role of the policy `name` in `target_namespace` with the rules `rules`.
pub open spec fn role_with(
    name: Seq<char>,
    oref: OwnerReferenceView,
    target_namespace: Seq<char>,
    rules: Seq<PolicyRuleView>,
) -> RoleView {
    RoleView { metadata: owned_meta(name, Some(target_namespace), oref), rules: Some(rules) }
}

/// The role of the policy `name` in `target_namespace` for the resources `rs`.
pub open spec fn role_of(
    name: Seq<char>,
    oref: OwnerReferenceView,
    target_namespace: Seq<char>,
    rs: Seq<CronPolicyResourceView>,
    d: DiscoveryView,
) -> Result<RoleView, ErrorView> {
    match role_rules(rs, d) {
        Ok(rules) => Ok(role_with(name, oref, target_namespace, rules)),
        Err(e) => Err(e),
    }
}

/// The role that lets the audit job of the policy `name` read the resources,
/// which are those of the policy in `target_namespace`.
pub fn make_role(
    name: String,
    oref: OwnerReference,
    target_namespace: String,
    resources: &Vec<CronPolicyResource>,
    discovery: &Discovery,
) -> (r: Result<Role, Error>)
    ensures
        result_view(r) == role_of(
            name@,
            oref@,
            target_namespace@,
            resources.deep_view(),
            discovery@,
        ),
{
    match make_role_rules(resources, discovery) {
        Ok(rules) => Ok(
            Role { metadata: make_owned_meta(name, Some(target_namespace), oref), rules: Some(rules) },
        ),
        Err(e) => Err(e),
    }
}

/// The binding of the role of the policy `name` in `target_namespace` to its
/// service account.
pub open spec fn rolebinding_of(
    name: Seq<char>,
    oref: OwnerReferenceView,
    target_namespace: Seq<char>,
    serviceaccount_namespace: Seq<char>,
) -> RoleBindingView {
    RoleBindingView {
        metadata: owned_meta(name, Some(target_namespace), oref),
        role_ref: RoleRefView { api_group: "rbac.authorization.k8s.io"@, kind: "Role"@, name },
        subjects: Some(seq![serviceaccount_subject(name, serviceaccount_namespace)]),
    }
}

/// The binding that grants the role of the policy `name` in
/// `target_namespace` to its service account.
pub fn make_rolebinding(
    name: String,
    oref: OwnerReference,
    target_namespace: String,
    serviceaccount_namespace: String,
) -> (rb: RoleBinding)
    ensures
        rb@ == rolebinding_of(name@, oref@, target_namespace@, serviceaccount_namespace@),
{
    RoleBinding {
        metadata: make_owned_meta(name.clone(), Some(target_namespace), oref),
        role_ref: RoleRef { api_group: role_group(), kind: role_kind(), name: name.clone() },
        subjects: Some(make_subjects(name, serviceaccount_namespace)),
    }
}

/// One environment variable with a value.
fn env_var(name: &str, value: String) -> (e: EnvVar)
    ensures
        e@ == (EnvVarView { name: name@, value: Some(value@) }),
{
    EnvVar { name: String::from_str(name), value: Some(value) }
}

/// The environment of the audit worker: the log level, the policy's name,
/// its resources, its script and its notifications.
pub open spec fn checker_env(
    cp_name: Seq<char>,
    code: Seq<char>,
    resources_json: Seq<char>,
    notifications_json: Seq<char>,
) -> Seq<EnvVarView> {
    seq![
        EnvVarView { name: "RUST_LOG"@, value: Some("info"@) },
        EnvVarView { name: "CONF_POLICY_NAME"@, value: Some(cp_name) },
        EnvVarView { name: "CONF_RESOURCES"@, value: Some(resources_json) },
        EnvVarView { name: "CONF_CODE"@, value: Some(code) },
        EnvVarView { name: "CONF_NOTIFICATIONS"@, value: Some(notifications_json) },
    ]
}

/// The scheduled job of the policy `cp_name`.
pub open spec fn cronjob_of(
    cp_name: Seq<char>,
    namespace: Seq<char>,
    oref: OwnerReferenceView,
    spec: CronPolicySpecView,
    config: ControllerConfigView,
    resources_json: Seq<char>,
    notifications_json: Seq<char>,
) -> CronJobView {
    CronJobView {
        metadata: owned_meta(cp_name, Some(namespace), oref),
        schedule: spec.schedule,
        suspend: Some(spec.suspend),
        service_account_name: Some(cp_name),
        containers: seq![
            ContainerView {
                name: "checkpoint-checker"@,
                image: Some(config.checker_image),
                command: Some(seq!["checkpoint-checker"@]),
                env: Some(checker_env(cp_name, spec.code, resources_json, notifications_json)),
            },
        ],
        restart_policy: Some(spec.restart_policy.name()),
    }
}

/// The scheduled job that runs the audit worker for the policy `cp_name`
/// under the policy's service account. `resources_json` and
/// `notifications_json` are the policy's resources and notifications in JSON,
/// as the worker reads them from its environment.
pub fn make_cronjob(
    cp_name: String,
    namespace: String,
    oref: OwnerReference,
    spec: &CronPolicySpec,
    controller_config: &ControllerConfig,
    resources_json: String,
    notifications_json: String,
) -> (cj: CronJob)
    ensures
        cj@ == cronjob_of(
            cp_name@,
            namespace@,
            oref@,
            spec@,
            controller_config@,
            resources_json@,
            notifications_json@,
        ),
{
    let mut env: Vec<EnvVar> = Vec::new();
    env.push(env_var("RUST_LOG", String::from_str("info")));
    env.push(env_var("CONF_POLICY_NAME", cp_name.clone()));
    env.push(env_var("CONF_RESOURCES", resources_json));
    env.push(env_var("CONF_CODE", spec.code.clone()));
    env.push(env_var("CONF_NOTIFICATIONS", notifications_json));
    assert(env.deep_view() =~= checker_env(
        cp_name@,
        spec@.code,
        resources_json@,
        notifications_json@,
    ));
    let container = Container {
        name: String::from_str("checkpoint-checker"),
        image: Some(controller_config.checker_image.clone()),
        command: Some(one_string(String::from_str("checkpoint-checker"))),
        env: Some(env),
    };
    let mut containers: Vec<Container> = Vec::new();
    containers.push(container);
    assert(containers.deep_view() =~= seq![container@]);
    CronJob {
        metadata: make_owned_meta(cp_name.clone(), Some(namespace), oref),
        schedule: spec.schedule.clone(),
        suspend: Some(spec.suspend),
        service_account_name: Some(cp_name),
        containers,
        restart_policy: Some(spec.restart_policy.to_string()),
    }
}

/// The test for the resources of one scope: a namespace, or the whole
/// cluster where the scope is `None`.
pub open spec fn in_scope(scope: Option<Seq<char>>) -> spec_fn(CronPolicyResourceView) -> bool {
    |r: CronPolicyResourceView| r.namespace == scope
}

/// Whether one of the resources `rs` lies in the namespace `ns`.
pub open spec fn names_namespace(rs: Seq<CronPolicyResourceView>, ns: Seq<char>) -> bool {
    exists|j: int| 0 <= j < rs.len() && (#[trigger] rs[j]).namespace == Some(ns)
}

/// The roles and bindings of a cron policy.
pub type RolesAndClusterRoles = (Vec<(Role, RoleBinding)>, Option<(ClusterRole, ClusterRoleBinding)>);

/// The namespace of the `k`-th pair of role and binding.
pub open spec fn role_namespace(roles: Seq<(RoleView, RoleBindingView)>, k: int) -> Seq<char> {
    roles[k].0.metadata.namespace.unwrap()
}

/// What the roles and bindings of the policy `cp_name` are, given that each
/// of its resources `rs` has a rule:
/// - there is one pair of role and binding for each namespace that a
///   resource names, and none for another; the pairs stand in the order of
///   their namespaces;
/// - the role of a namespace holds the rules of the resources in that
///   namespace, in their order, and the binding grants it to the policy's
///   service account;
/// - there is a cluster role with its binding if and only if a resource
///   names no namespace, and it holds the rules of those resources.
pub open spec fn is_roles_and_clusterroles(
    roles: Seq<(RoleView, RoleBindingView)>,
    cluster: Option<(ClusterRoleView, ClusterRoleBindingView)>,
    cp_name: Seq<char>,
    cronjob_namespace: Seq<char>,
    oref: OwnerReferenceView,
    rs: Seq<CronPolicyResourceView>,
    d: DiscoveryView,
) -> bool {
    &&& forall|a: int, b: int|
        0 <= a < b < roles.len() ==> crate::text::str_lt(
            #[trigger] role_namespace(roles, a),
            #[trigger] role_namespace(roles, b),
        )
    &&& forall|k: int|
        0 <= k < roles.len() ==> {
            let ns = #[trigger] role_namespace(roles, k);
            &&& roles[k].0.metadata.namespace is Some
            &&& names_namespace(rs, ns)
            &&& Ok::<RoleView, ErrorView>(roles[k].0) == role_of(
                cp_name,
                oref,
                ns,
                rs.filter(in_scope(Some(ns))),
                d,
            )
            &&& roles[k].1 == rolebinding_of(cp_name, oref, ns, cronjob_namespace)
        }
    &&& forall|j: int|
        0 <= j < rs.len() && (#[trigger] rs[j]).namespace is Some ==> exists|k: int|
            0 <= k < roles.len() && #[trigger] role_namespace(roles, k) == rs[j].namespace.unwrap()
    &&& if rs.filter(in_scope(None)).len() > 0 {
        &&& cluster is Some
        &&& Ok::<ClusterRoleView, ErrorView>(cluster.unwrap().0) == clusterrole_of(
            cp_name,
            oref,
            rs.filter(in_scope(None)),
            d,
        )
        &&& cluster.unwrap().1 == clusterrolebinding_of(cp_name, oref, cronjob_namespace)
    } else {
        cluster is None
    }
}

/// A list of resources that all have rules has as many rules as resources,
/// each the rule of its resource.
pub proof fn lemma_role_rules_ok(rs: Seq<CronPolicyResourceView>, d: DiscoveryView)
    requires
        role_rules(rs, d) is Ok,
    ensures
        role_rules(rs, d)->Ok_0.len() == rs.len(),
        forall|i: int|
            0 <= i < rs.len() ==> role_rule(#[trigger] rs[i], d) == Ok::<PolicyRuleView, ErrorView>(
                role_rules(rs, d)->Ok_0[i],
            ),
    decreases rs.len(),
{
    if rs.len() > 0 {
        lemma_role_rules_ok(rs.drop_last(), d);
        assert forall|i: int| 0 <= i < rs.len() implies role_rule(#[trigger] rs[i], d) == Ok::<
            PolicyRuleView,
            ErrorView,
        >(role_rules(rs, d)->Ok_0[i]) by {
            if i < rs.len() - 1 {
                assert(rs.drop_last()[i] == rs[i]);
            }
        }
    }
}

/// The rules of a list with one more resource at its end.
pub proof fn lemma_role_rules_push(
    rs: Seq<CronPolicyResourceView>,
    r: CronPolicyResourceView,
    d: DiscoveryView,
)
    requires
        role_rules(rs, d) is Ok,
        role_rule(r, d) is Ok,
    ensures
        role_rules(rs.push(r), d) == Ok::<Seq<PolicyRuleView>, ErrorView>(
            role_rules(rs, d)->Ok_0.push(role_rule(r, d)->Ok_0),
        ),
{
    assert(rs.push(r).drop_last() =~= rs);
}

/// The resources of one scope among the first `i + 1` are those among the
/// first `i`, with the one at `i` added where it lies in the scope.
pub proof fn lemma_scope_step(rs: Seq<CronPolicyResourceView>, i: int, scope: Option<Seq<char>>)
    requires
        0 <= i < rs.len(),
    ensures
        rs.take(i + 1).filter(in_scope(scope)) == (if rs[i].namespace == scope {
            rs.take(i).filter(in_scope(scope)).push(rs[i])
        } else {
            rs.take(i).filter(in_scope(scope))
        }),
{
    reveal(Seq::filter);
    assert(rs.take(i + 1).drop_last() =~= rs.take(i));
    assert(rs.take(i + 1).last() == rs[i]);
}

/// The rules of any part of a list whose resources all have rules.
pub proof fn lemma_role_rules_filter(
    rs: Seq<CronPolicyResourceView>,
    d: DiscoveryView,
    scope: Option<Seq<char>>,
)
    requires
        role_rules(rs, d) is Ok,
    ensures
        role_rules(rs.filter(in_scope(scope)), d) is Ok,
    decreases rs.len(),
{
    reveal(Seq::filter);
    if rs.len() > 0 {
        lemma_role_rules_filter(rs.drop_last(), d, scope);
        if rs.last().namespace == scope {
            lemma_role_rules_push(rs.drop_last().filter(in_scope(scope)), rs.last(), d);
        }
    }
}

/// Rules grouped by namespace.
pub type Grouped = Seq<(Seq<char>, Seq<PolicyRuleView>)>;

/// Whether the namespaces of the groups rise strictly from group to group.
pub open spec fn namespaces_rise(g: Grouped) -> bool {
    forall|a: int, b: int| 0 <= a < b < g.len() ==> crate::text::str_lt(#[trigger] g[a].0, #[trigger] g[b].0)
}

/// Adds `rule` to the group of the namespace `ns`, which is made where there
/// is none yet. Returns the place of the group and whether it was there.
fn add_to_group(groups: &mut Vec<(String, Vec<PolicyRule>)>, ns: &String, rule: PolicyRule) -> (r: (
    usize,
    bool,
))
    requires
        namespaces_rise(old(groups).deep_view()),
    ensures
        namespaces_rise(final(groups).deep_view()),
        r.0 <= old(groups).len(),
        r.1 ==> r.0 < old(groups).len() && old(groups).deep_view()[r.0 as int].0 == ns@
            && final(groups).deep_view() == old(groups).deep_view().update(
            r.0 as int,
            (ns@, old(groups).deep_view()[r.0 as int].1.push(rule@)),
        ),
        !r.1 ==> (forall|k: int|
            0 <= k < old(groups).len() ==> (#[trigger] old(groups).deep_view()[k]).0 != ns@)
            && final(groups).deep_view() == old(groups).deep_view().insert(
            r.0 as int,
            (ns@, seq![rule@]),
        ),
{
    let ghost g = groups.deep_view();
    let mut pos: usize = 0;
    while pos < groups.len() && crate::text::string_lt(groups[pos].0.as_str(), ns.as_str())
        invariant
            pos <= groups.len(),
            g == groups.deep_view(),
            forall|k: int| 0 <= k < pos ==> crate::text::str_lt((#[trigger] g[k]).0, ns@),
        decreases groups.len() - pos,
    {
        pos += 1;
    }
    let found = pos < groups.len() && crate::text::string_eq(groups[pos].0.as_str(), ns.as_str());
    if found {
        let (name, mut members) = groups.remove(pos);
        let ghost old_members = members.deep_view();
        let ghost removed = groups.deep_view();
        assert(removed =~= g.remove(pos as int));
        members.push(rule);
        assert(members.deep_view() =~= old_members.push(rule@));
        groups.insert(pos, (name, members));
        proof {
            let h = groups.deep_view();
            assert(h =~= removed.insert(pos as int, (ns@, old_members.push(rule@))));
            assert(h =~= g.update(pos as int, (ns@, g[pos as int].1.push(rule@))));
            assert forall|a: int, b: int| 0 <= a < b < h.len() implies crate::text::str_lt(
                #[trigger] h[a].0,
                #[trigger] h[b].0,
            ) by {
                assert(h[a].0 == g[a].0 && h[b].0 == g[b].0);
            }
        }
    } else {
        proof {
            if pos < g.len() {
                crate::text::lemma_str_lt_total(g[pos as int].0, ns@);
            }
            assert forall|k: int| 0 <= k < g.len() implies (#[trigger] g[k]).0 != ns@ by {
                crate::text::lemma_str_lt_irreflexive(ns@);
                if k > pos {
                    assert(crate::text::str_lt(g[pos as int].0, g[k].0));
                    crate::text::lemma_str_lt_asymmetric(ns@, g[k].0);
                    crate::text::lemma_str_lt_transitive(ns@, g[pos as int].0, g[k].0);
                }
            }
        }
        let mut members: Vec<PolicyRule> = Vec::new();
        members.push(rule);
        assert(members.deep_view() =~= seq![rule@]);
        groups.insert(pos, (ns.clone(), members));
        proof {
            let h = groups.deep_view();
            assert(h =~= g.insert(pos as int, (ns@, seq![rule@])));
            assert forall|a: int, b: int| 0 <= a < b < h.len() implies crate::text::str_lt(
                #[trigger] h[a].0,
                #[trigger] h[b].0,
            ) by {
                if b < pos {
                    assert(h[a] == g[a] && h[b] == g[b]);
                } else if b == pos {
                    assert(h[a] == g[a]);
                } else if a == pos {
                    assert(h[b] == g[b - 1]);
                    if b - 1 > pos {
                        assert(crate::text::str_lt(g[pos as int].0, g[b - 1].0));
                        crate::text::lemma_str_lt_transitive(ns@, g[pos as int].0, g[b - 1].0);
                    }
                } else if a < pos {
                    assert(h[a] == g[a] && h[b] == g[b - 1]);
                    crate::text::lemma_str_lt_transitive(g[a].0, ns@, g[pos as int].0);
                    if b - 1 > pos {
                        assert(crate::text::str_lt(g[a].0, g[b - 1].0));
                    }
                } else {
                    assert(h[a] == g[a - 1] && h[b] == g[b - 1]);
                }
            }
        }
    }
    (pos, found)
}

/// What holds of the groups once the first `i` resources are grouped: each
/// group's namespace is one that a resource names, and the group holds the
/// rules of the resources in it; every namespace so far has its group.
pub open spec fn is_grouped(
    g: Grouped,
    rs: Seq<CronPolicyResourceView>,
    d: DiscoveryView,
    i: int,
) -> bool {
    &&& forall|k: int|
        0 <= k < g.len() ==> {
            &&& names_namespace(rs, (#[trigger] g[k]).0)
            &&& role_rules(rs.take(i).filter(in_scope(Some(g[k].0))), d) == Ok::<
                Seq<PolicyRuleView>,
                ErrorView,
            >(g[k].1)
        }
    &&& forall|j: int|
        0 <= j < i && (#[trigger] rs[j]).namespace is Some ==> exists|k: int|
            0 <= k < g.len() && (#[trigger] g[k]).0 == rs[j].namespace.unwrap()
}

/// Grouping goes on by one resource that names no namespace.
proof fn lemma_grouped_skip(g: Grouped, rs: Seq<CronPolicyResourceView>, d: DiscoveryView, i: int)
    requires
        0 <= i < rs.len(),
        is_grouped(g, rs, d, i),
        rs[i].namespace is None,
    ensures
        is_grouped(g, rs, d, i + 1),
{
    assert forall|k: int| 0 <= k < g.len() implies role_rules(
        rs.take(i + 1).filter(in_scope(Some((#[trigger] g[k]).0))),
        d,
    ) == Ok::<Seq<PolicyRuleView>, ErrorView>(g[k].1) by {
        lemma_scope_step(rs, i, Some(g[k].0));
    }
}

/// Grouping goes on by one resource whose namespace has a group.
proof fn lemma_grouped_found(
    g: Grouped,
    h: Grouped,
    rs: Seq<CronPolicyResourceView>,
    d: DiscoveryView,
    i: int,
    pos: int,
)
    requires
        0 <= i < rs.len(),
        is_grouped(g, rs, d, i),
        namespaces_rise(g),
        rs[i].namespace is Some,
        role_rule(rs[i], d) is Ok,
        0 <= pos < g.len(),
        g[pos].0 == rs[i].namespace.unwrap(),
        h == g.update(pos, (g[pos].0, g[pos].1.push(role_rule(rs[i], d)->Ok_0))),
    ensures
        is_grouped(h, rs, d, i + 1),
{
    let ns = rs[i].namespace.unwrap();
    assert forall|k: int| 0 <= k < h.len() implies {
        &&& names_namespace(rs, (#[trigger] h[k]).0)
        &&& role_rules(rs.take(i + 1).filter(in_scope(Some(h[k].0))), d) == Ok::<
            Seq<PolicyRuleView>,
            ErrorView,
        >(h[k].1)
    } by {
        assert(h[k].0 == g[k].0);
        lemma_scope_step(rs, i, Some(g[k].0));
        if k == pos {
            lemma_role_rules_push(rs.take(i).filter(in_scope(Some(ns))), rs[i], d);
        } else {
            crate::text::lemma_str_lt_irreflexive(ns);
            if k < pos {
                assert(crate::text::str_lt(g[k].0, g[pos].0));
            } else {
                assert(crate::text::str_lt(g[pos].0, g[k].0));
            }
        }
    }
    assert forall|j: int| 0 <= j < i + 1 && (#[trigger] rs[j]).namespace is Some implies exists|
        k: int,
    |
        0 <= k < h.len() && (#[trigger] h[k]).0 == rs[j].namespace.unwrap() by {
        if j < i {
            let k = choose|k: int| 0 <= k < g.len() && (#[trigger] g[k]).0 == rs[j].namespace.unwrap();
            assert(h[k].0 == g[k].0);
        } else {
            assert(h[pos].0 == ns);
        }
    }
}

/// Grouping goes on by one resource whose namespace has no group yet.
proof fn lemma_grouped_new(
    g: Grouped,
    h: Grouped,
    rs: Seq<CronPolicyResourceView>,
    d: DiscoveryView,
    i: int,
    pos: int,
)
    requires
        0 <= i < rs.len(),
        is_grouped(g, rs, d, i),
        rs[i].namespace is Some,
        role_rule(rs[i], d) is Ok,
        0 <= pos <= g.len(),
        forall|k: int| 0 <= k < g.len() ==> (#[trigger] g[k]).0 != rs[i].namespace.unwrap(),
        h == g.insert(pos, (rs[i].namespace.unwrap(), seq![role_rule(rs[i], d)->Ok_0])),
    ensures
        is_grouped(h, rs, d, i + 1),
{
    let ns = rs[i].namespace.unwrap();
    lemma_no_resource_in(rs, d, i, ns, g);
    assert forall|k: int| 0 <= k < h.len() implies {
        &&& names_namespace(rs, (#[trigger] h[k]).0)
        &&& role_rules(rs.take(i + 1).filter(in_scope(Some(h[k].0))), d) == Ok::<
            Seq<PolicyRuleView>,
            ErrorView,
        >(h[k].1)
    } by {
        lemma_scope_step(rs, i, Some(h[k].0));
        if k == pos {
            assert(rs[i].namespace == Some(ns));
            let empty = rs.take(i).filter(in_scope(Some(ns)));
            assert(empty =~= Seq::empty());
            lemma_role_rules_push(empty, rs[i], d);
            assert(Seq::<PolicyRuleView>::empty().push(role_rule(rs[i], d)->Ok_0) =~= seq![
                role_rule(rs[i], d)->Ok_0,
            ]);
        } else if k < pos {
            assert(h[k] == g[k]);
        } else {
            assert(h[k] == g[k - 1]);
        }
    }
    assert forall|j: int| 0 <= j < i + 1 && (#[trigger] rs[j]).namespace is Some implies exists|
        k: int,
    |
        0 <= k < h.len() && (#[trigger] h[k]).0 == rs[j].namespace.unwrap() by {
        if j < i {
            let k = choose|k: int| 0 <= k < g.len() && (#[trigger] g[k]).0 == rs[j].namespace.unwrap();
            if k < pos {
                assert(h[k] == g[k]);
            } else {
                assert(h[k + 1] == g[k]);
            }
        } else {
            assert(h[pos].0 == ns);
        }
    }
}

/// A list none of whose resources lies in a scope has nothing in that scope.
proof fn lemma_scope_empty(rs: Seq<CronPolicyResourceView>, scope: Option<Seq<char>>)
    requires
        forall|j: int| 0 <= j < rs.len() ==> (#[trigger] rs[j]).namespace != scope,
    ensures
        rs.filter(in_scope(scope)).len() == 0,
    decreases rs.len(),
{
    reveal(Seq::filter);
    if rs.len() > 0 {
        assert forall|j: int| 0 <= j < rs.drop_last().len() implies (#[trigger] rs.drop_last()[j]).namespace
            != scope by {
            assert(rs.drop_last()[j] == rs[j]);
        }
        lemma_scope_empty(rs.drop_last(), scope);
        assert(rs.last() == rs[rs.len() - 1]);
    }
}

/// Where no group has the namespace `ns`, none of the first `i` resources
/// lies in it.
proof fn lemma_no_resource_in(
    rs: Seq<CronPolicyResourceView>,
    d: DiscoveryView,
    i: int,
    ns: Seq<char>,
    g: Grouped,
)
    requires
        0 <= i <= rs.len(),
        is_grouped(g, rs, d, i),
        forall|k: int| 0 <= k < g.len() ==> (#[trigger] g[k]).0 != ns,
    ensures
        rs.take(i).filter(in_scope(Some(ns))).len() == 0,
{
    let part = rs.take(i);
    assert forall|j: int| 0 <= j < part.len() implies (#[trigger] part[j]).namespace != Some(ns) by {
        assert(part[j] == rs[j]);
        if rs[j].namespace == Some(ns) {
            let k = choose|k: int| 0 <= k < g.len() && (#[trigger] g[k]).0 == rs[j].namespace.unwrap();
            assert(g[k].0 == ns);
        }
    }
    lemma_scope_empty(part, Some(ns));
}

/// The roles, with their bindings, that let the audit job of the policy
/// `cp_name` read the policy's resources and no others: one role for each
/// namespace that a resource names, in the order of the namespaces, and one
/// cluster role where a resource names none. It fails where a resource has no
/// rule, with the error of the first such resource.
pub fn make_roles_and_clusterroles(
    cp_name: String,
    cronjob_namespace: String,
    oref: OwnerReference,
    resources: &Vec<CronPolicyResource>,
    discovery: &Discovery,
) -> (r: Result<RolesAndClusterRoles, Error>)
    ensures
        match r {
            Ok((roles, cluster)) => {
                &&& role_rules(resources.deep_view(), discovery@) is Ok
                &&& is_roles_and_clusterroles(
                    roles.deep_view(),
                    cluster.deep_view(),
                    cp_name@,
                    cronjob_namespace@,
                    oref@,
                    resources.deep_view(),
                    discovery@,
                )
            },
            Err(e) => role_rules(resources.deep_view(), discovery@) == Err::<
                Seq<PolicyRuleView>,
                ErrorView,
            >(e@),
        },
{
    let rules = match make_role_rules(resources, discovery) {
        Ok(rules) => rules,
        Err(e) => {
            return Err(e);
        },
    };
    let ghost rs = resources.deep_view();
    let ghost d = discovery@;
    let ghost all = rules.deep_view();
    proof {
        lemma_role_rules_ok(rs, d);
    }
    let mut groups: Vec<(String, Vec<PolicyRule>)> = Vec::new();
    let mut global: Vec<PolicyRule> = Vec::new();
    let mut i: usize = 0;
    proof {
        assert(rs.take(0) =~= Seq::empty());
        assert(global.deep_view() =~= Seq::empty());
        assert(groups.deep_view() =~= Seq::empty());
    }
    while i < resources.len()
        invariant
            i <= resources.len(),
            rs == resources.deep_view(),
            all == rules.deep_view(),
            all.len() == rs.len(),
            forall|j: int|
                0 <= j < rs.len() ==> role_rule(#[trigger] rs[j], d) == Ok::<
                    PolicyRuleView,
                    ErrorView,
                >(all[j]),
            namespaces_rise(groups.deep_view()),
            is_grouped(groups.deep_view(), rs, d, i as int),
            role_rules(rs.take(i as int).filter(in_scope(None)), d) == Ok::<
                Seq<PolicyRuleView>,
                ErrorView,
            >(global.deep_view()),
        decreases resources.len() - i,
    {
        let rule = rules[i].clone();
        let ghost g = groups.deep_view();
        let ghost old_global = global.deep_view();
        assert(rule@ == all[i as int]);
        assert(role_rule(rs[i as int], d) == Ok::<PolicyRuleView, ErrorView>(rule@));
        assert(rs[i as int] == resources@[i as int]@);
        proof {
            lemma_scope_step(rs, i as int, None);
        }
        match &resources[i].namespace {
            None => {
                global.push(rule);
                proof {
                    assert(global.deep_view() =~= old_global.push(rule@));
                    lemma_role_rules_push(rs.take(i as int).filter(in_scope(None)), rs[i as int], d);
                    lemma_grouped_skip(g, rs, d, i as int);
                }
            },
            Some(ns) => {
                let (pos, found) = add_to_group(&mut groups, ns, rule);
                proof {
                    if found {
                        lemma_grouped_found(g, groups.deep_view(), rs, d, i as int, pos as int);
                    } else {
                        lemma_grouped_new(g, groups.deep_view(), rs, d, i as int, pos as int);
                    }
                }
            },
        }
        i += 1;
    }
    assert(rs.take(rs.len() as int) =~= rs);
    let ghost g = groups.deep_view();
    let mut roles: Vec<(Role, RoleBinding)> = Vec::new();
    let mut k: usize = 0;
    assert(roles.deep_view() =~= Seq::empty());
    while k < groups.len()
        invariant
            k <= groups.len(),
            g == groups.deep_view(),
            roles.len() == k,
            forall|m: int|
                0 <= m < k ==> (#[trigger] roles.deep_view()[m]) == (
                    role_with(cp_name@, oref@, g[m].0, g[m].1),
                    rolebinding_of(cp_name@, oref@, g[m].0, cronjob_namespace@),
                ),
        decreases groups.len() - k,
    {
        let ghost before = roles.deep_view();
        let ns = groups[k].0.clone();
        let members = groups[k].1.clone();
        assert(members.deep_view() =~= groups@[k as int].1.deep_view());
        let role = Role {
            metadata: make_owned_meta(cp_name.clone(), Some(ns.clone()), oref.clone()),
            rules: Some(members),
        };
        let binding = make_rolebinding(cp_name.clone(), oref.clone(), ns, cronjob_namespace.clone());
        roles.push((role, binding));
        assert(roles.deep_view() =~= before.push((role@, binding@)));
        k += 1;
    }
    let cluster = if global.len() > 0 {
        let cr = ClusterRole {
            metadata: make_owned_meta(cp_name.clone(), None, oref.clone()),
            rules: Some(global),
        };
        let crb = make_clusterrolebinding(cp_name, oref, cronjob_namespace);
        Some((cr, crb))
    } else {
        None
    };
    proof {
        let rv = roles.deep_view();
        lemma_role_rules_filter(rs, d, None);
        lemma_role_rules_ok(rs.filter(in_scope(None)), d);
        assert forall|m: int| 0 <= m < rv.len() implies role_namespace(rv, m) == g[m].0 by {}
        assert forall|a: int, b: int| 0 <= a < b < rv.len() implies crate::text::str_lt(
            #[trigger] role_namespace(rv, a),
            #[trigger] role_namespace(rv, b),
        ) by {
            assert(crate::text::str_lt(g[a].0, g[b].0));
        }
        assert forall|j: int| 0 <= j < rs.len() && (#[trigger] rs[j]).namespace is Some implies exists|
            m: int,
        |
            0 <= m < rv.len() && #[trigger] role_namespace(rv, m) == rs[j].namespace.unwrap() by {
            let m = choose|m: int| 0 <= m < g.len() && (#[trigger] g[m]).0 == rs[j].namespace.unwrap();
            assert(role_namespace(rv, m) == g[m].0);
        }
    }
    Ok((roles, cluster))
}

/// One object that the reconciler applies for a cron policy.
#[derive(Debug, PartialEq, Eq)]
pub enum OwnedObject {
    /// The service account of the audit job.
    ServiceAccount(ServiceAccount),
    /// A role in one namespace.
    Role(Role),
    /// The binding of such a role.
    RoleBinding(RoleBinding),
    /// The cluster role.
    ClusterRole(ClusterRole),
    /// The binding of the cluster role.
    ClusterRoleBinding(ClusterRoleBinding),
    /// The scheduled job.
    CronJob(CronJob),
}

/// The view of [`OwnedObject`].
pub enum OwnedObjectView {
    ServiceAccount(ServiceAccountView),
    Role(RoleView),
    RoleBinding(RoleBindingView),
    ClusterRole(ClusterRoleView),
    ClusterRoleBinding(ClusterRoleBindingView),
    CronJob(CronJobView),
}

impl DeepView for OwnedObject {
    type V = OwnedObjectView;

    open spec fn deep_view(&self) -> OwnedObjectView {
        match self {
            OwnedObject::ServiceAccount(o) => OwnedObjectView::ServiceAccount(o@),
            OwnedObject::Role(o) => OwnedObjectView::Role(o@),
            OwnedObject::RoleBinding(o) => OwnedObjectView::RoleBinding(o@),
            OwnedObject::ClusterRole(o) => OwnedObjectView::ClusterRole(o@),
            OwnedObject::ClusterRoleBinding(o) => OwnedObjectView::ClusterRoleBinding(o@),
            OwnedObject::CronJob(o) => OwnedObjectView::CronJob(o@),
        }
    }
}

impl View for OwnedObject {
    type V = OwnedObjectView;

    open spec fn view(&self) -> OwnedObjectView {
        self.deep_view()
    }
}

impl OwnedObjectView {
    /// The metadata of the object.
    pub open spec fn metadata(self) -> ObjectMetaView {
        match self {
            OwnedObjectView::ServiceAccount(o) => o.metadata,
            OwnedObjectView::Role(o) => o.metadata,
            OwnedObjectView::RoleBinding(o) => o.metadata,
            OwnedObjectView::ClusterRole(o) => o.metadata,
            OwnedObjectView::ClusterRoleBinding(o) => o.metadata,
            OwnedObjectView::CronJob(o) => o.metadata,
        }
    }
}

/// The roles and their bindings as the reconciler applies them: each role
/// followed by its binding.
pub open spec fn role_objects(roles: Seq<(RoleView, RoleBindingView)>) -> Seq<OwnedObjectView>
    decreases roles.len(),
{
    if roles.len() == 0 {
        Seq::empty()
    } else {
        role_objects(roles.drop_last()).push(OwnedObjectView::Role(roles.last().0)).push(
            OwnedObjectView::RoleBinding(roles.last().1),
        )
    }
}

/// The cluster role and its binding as the reconciler applies them.
pub open spec fn cluster_objects(cluster: Option<(ClusterRoleView, ClusterRoleBindingView)>) -> Seq<
    OwnedObjectView,
> {
    match cluster {
        Some((cr, crb)) => seq![
            OwnedObjectView::ClusterRole(cr),
            OwnedObjectView::ClusterRoleBinding(crb),
        ],
        None => Seq::empty(),
    }
}

/// The objects of the policy `cp_name` in the order in which they are
/// applied: the service account, the roles with their bindings, the cluster
/// role with its binding, the scheduled job.
pub open spec fn owned_objects(
    sa: ServiceAccountView,
    roles: Seq<(RoleView, RoleBindingView)>,
    cluster: Option<(ClusterRoleView, ClusterRoleBindingView)>,
    cj: CronJobView,
) -> Seq<OwnedObjectView> {
    seq![OwnedObjectView::ServiceAccount(sa)] + role_objects(roles) + cluster_objects(cluster)
        + seq![OwnedObjectView::CronJob(cj)]
}

/// What the reconciler applies for the cron policy `cp_name` with the
/// specification `spec`, in the order of application. Every object is owned
/// by the policy through `oref` and carries the policy's ownership label.
/// The roles let the policy's service account read the policy's resources
/// and no others. It fails where a resource has no rule, with the error of
/// the first such resource, and then nothing is to be applied.
pub fn reconcile_cronpolicy(
    cp_name: String,
    spec: &CronPolicySpec,
    oref: OwnerReference,
    config: &ControllerConfig,
    discovery: &Discovery,
    resources_json: String,
    notifications_json: String,
) -> (r: Result<Vec<OwnedObject>, Error>)
    ensures
        match r {
            Ok(objects) => {
                &&& role_rules(spec@.resources, discovery@) is Ok
                &&& exists|
                    roles: Seq<(RoleView, RoleBindingView)>,
                    cluster: Option<(ClusterRoleView, ClusterRoleBindingView)>,
                |
                    {
                        &&& is_roles_and_clusterroles(
                            roles,
                            cluster,
                            cp_name@,
                            spec@.namespace,
                            oref@,
                            spec@.resources,
                            discovery@,
                        )
                        &&& #[trigger] owned_objects(
                            serviceaccount_of(cp_name@, spec@.namespace, oref@),
                            roles,
                            cluster,
                            cronjob_of(
                                cp_name@,
                                spec@.namespace,
                                oref@,
                                spec@,
                                config@,
                                resources_json@,
                                notifications_json@,
                            ),
                        ) == objects.deep_view()
                    }
            },
            Err(e) => role_rules(spec@.resources, discovery@) == Err::<
                Seq<PolicyRuleView>,
                ErrorView,
            >(e@),
        },
{
    let sa = make_serviceaccount(cp_name.clone(), spec.namespace.clone(), oref.clone());
    let (mut roles, cluster) = match make_roles_and_clusterroles(
        cp_name.clone(),
        spec.namespace.clone(),
        oref.clone(),
        &spec.resources,
        discovery,
    ) {
        Ok(rc) => rc,
        Err(e) => {
            return Err(e);
        },
    };
    let ghost rv = roles.deep_view();
    let ghost cv = cluster.deep_view();
    let mut objects: Vec<OwnedObject> = Vec::new();
    objects.push(OwnedObject::ServiceAccount(sa));
    let ghost head = objects.deep_view();
    assert(head =~= seq![OwnedObjectView::ServiceAccount(sa@)]);
    let n = roles.len();
    let mut k: usize = 0;
    assert(rv.take(0) =~= Seq::empty());
    assert(head + role_objects(rv.take(0)) =~= head);
    while k < n
        invariant
            k <= n,
            n == rv.len(),
            roles.len() == n - k,
            roles.deep_view() == rv.skip(k as int),
            objects.deep_view() == head + role_objects(rv.take(k as int)),
        decreases n - k,
    {
        let ghost before = objects.deep_view();
        let ghost left = roles.deep_view();
        let (role, binding) = roles.remove(0);
        assert(roles.deep_view() =~= left.remove(0));
        assert(left.remove(0) =~= rv.skip(k + 1));
        assert((role@, binding@) == left[0]);
        assert(left[0] == rv[k as int]);
        objects.push(OwnedObject::Role(role));
        objects.push(OwnedObject::RoleBinding(binding));
        proof {
            assert(rv.take(k + 1).drop_last() =~= rv.take(k as int));
            assert(rv.take(k + 1).last() == rv[k as int]);
            assert(objects.deep_view() =~= before.push(OwnedObjectView::Role(role@)).push(
                OwnedObjectView::RoleBinding(binding@),
            ));
            assert(objects.deep_view() =~= head + role_objects(rv.take(k + 1)));
        }
        k += 1;
    }
    assert(rv.take(rv.len() as int) =~= rv);
    let ghost with_roles = objects.deep_view();
    match cluster {
        Some((cr, crb)) => {
            objects.push(OwnedObject::ClusterRole(cr));
            objects.push(OwnedObject::ClusterRoleBinding(crb));
            assert(objects.deep_view() =~= with_roles + cluster_objects(cv));
        },
        None => {
            assert(objects.deep_view() =~= with_roles + cluster_objects(cv));
        },
    }
    let ghost with_cluster = objects.deep_view();
    let cj = make_cronjob(
        cp_name,
        spec.namespace.clone(),
        oref,
        spec,
        config,
        resources_json,
        notifications_json,
    );
    objects.push(OwnedObject::CronJob(cj));
    assert(objects.deep_view() =~= with_cluster + seq![OwnedObjectView::CronJob(cj@)]);
    assert(objects.deep_view() == owned_objects(sa@, rv, cv, cj@));
    Ok(objects)
}

/// Every rule for the resources of one scope is the rule of a resource of
/// the list that lies in that scope.
pub proof fn lemma_scoped_rules_come_from_resources(
    rs: Seq<CronPolicyResourceView>,
    d: DiscoveryView,
    scope: Option<Seq<char>>,
    m: int,
)
    requires
        role_rules(rs, d) is Ok,
        0 <= m < role_rules(rs.filter(in_scope(scope)), d)->Ok_0.len(),
    ensures
        role_rules(rs.filter(in_scope(scope)), d) is Ok,
        exists|j: int|
            0 <= j < rs.len() && (#[trigger] rs[j]).namespace == scope && role_rule(rs[j], d)
                == Ok::<PolicyRuleView, ErrorView>(
                role_rules(rs.filter(in_scope(scope)), d)->Ok_0[m],
            ),
{
    let part = rs.filter(in_scope(scope));
    lemma_role_rules_filter(rs, d, scope);
    lemma_role_rules_ok(part, d);
    rs.lemma_filter_pred(in_scope(scope), m);
    assert(part.contains(part[m]));
    rs.lemma_filter_contains_rev(in_scope(scope), part[m]);
    let j = choose|j: int| 0 <= j < rs.len() && rs[j] == part[m];
    assert(rs[j].namespace == scope);
}

/// The roles grant what the policy names and nothing more: every rule of a
/// role is the rule of a resource that the policy names in the role's
/// namespace; every rule of the cluster role is the rule of a resource that
/// names no namespace; and each rule allows one verb on one plural name of
/// one group.
pub proof fn lemma_roles_grant_named_resources_only(
    roles: Seq<(RoleView, RoleBindingView)>,
    cluster: Option<(ClusterRoleView, ClusterRoleBindingView)>,
    cp_name: Seq<char>,
    cronjob_namespace: Seq<char>,
    oref: OwnerReferenceView,
    rs: Seq<CronPolicyResourceView>,
    d: DiscoveryView,
)
    requires
        role_rules(rs, d) is Ok,
        is_roles_and_clusterroles(roles, cluster, cp_name, cronjob_namespace, oref, rs, d),
    ensures
        forall|k: int, m: int|
            0 <= k < roles.len() && roles[k].0.rules is Some && 0 <= m
                < roles[k].0.rules.unwrap().len() ==> exists|j: int|
                0 <= j < rs.len() && (#[trigger] rs[j]).namespace == Some(role_namespace(roles, k))
                    && role_rule(rs[j], d) == Ok::<PolicyRuleView, ErrorView>(
                    #[trigger] roles[k].0.rules.unwrap()[m],
                ),
        forall|m: int|
            cluster is Some && cluster.unwrap().0.rules is Some && 0 <= m
                < cluster.unwrap().0.rules.unwrap().len() ==> exists|j: int|
                0 <= j < rs.len() && (#[trigger] rs[j]).namespace is None && role_rule(rs[j], d)
                    == Ok::<PolicyRuleView, ErrorView>(#[trigger] cluster.unwrap().0.rules.unwrap()[m]),
{
    assert forall|k: int, m: int|
        0 <= k < roles.len() && roles[k].0.rules is Some && 0 <= m
            < roles[k].0.rules.unwrap().len() implies exists|j: int|
        0 <= j < rs.len() && (#[trigger] rs[j]).namespace == Some(role_namespace(roles, k))
            && role_rule(rs[j], d) == Ok::<PolicyRuleView, ErrorView>(
            #[trigger] roles[k].0.rules.unwrap()[m],
        ) by {
        let ns = role_namespace(roles, k);
        lemma_role_rules_filter(rs, d, Some(ns));
        lemma_scoped_rules_come_from_resources(rs, d, Some(ns), m);
    }
    assert forall|m: int|
        cluster is Some && cluster.unwrap().0.rules is Some && 0 <= m
            < cluster.unwrap().0.rules.unwrap().len() implies exists|j: int|
        0 <= j < rs.len() && (#[trigger] rs[j]).namespace is None && role_rule(rs[j], d) == Ok::<
            PolicyRuleView,
            ErrorView,
        >(#[trigger] cluster.unwrap().0.rules.unwrap()[m]) by {
        lemma_role_rules_filter(rs, d, None);
        lemma_scoped_rules_come_from_resources(rs, d, None, m);
    }
}

/// Whether the strings rise strictly from one to the next.
pub open spec fn strings_rise(a: Seq<Seq<char>>) -> bool {
    forall|i: int, j: int| 0 <= i < j < a.len() ==> crate::text::str_lt(#[trigger] a[i], #[trigger] a[j])
}

/// Two rising lists of strings with the same members are the same list.
pub proof fn lemma_rising_lists_equal(a: Seq<Seq<char>>, b: Seq<Seq<char>>)
    requires
        strings_rise(a),
        strings_rise(b),
        forall|x: Seq<char>| a.contains(x) <==> b.contains(x),
    ensures
        a == b,
    decreases a.len(),
{
    if a.len() == 0 {
        if b.len() > 0 {
            assert(b.contains(b[0]));
            assert(a.contains(b[0]));
        }
        assert(a =~= b);
    } else {
        let x = a.last();
        assert(a.contains(x));
        assert(b.contains(x));
        assert(b.len() > 0);
        let y = b.last();
        assert(b.contains(y));
        assert(a.contains(y));
        let jx = choose|j: int| 0 <= j < b.len() && b[j] == x;
        let jy = choose|j: int| 0 <= j < a.len() && a[j] == y;
        crate::text::lemma_str_lt_asymmetric(x, y);
        if jx < b.len() - 1 {
            assert(crate::text::str_lt(b[jx], b[b.len() - 1]));
        }
        if jy < a.len() - 1 {
            assert(crate::text::str_lt(a[jy], a[a.len() - 1]));
        }
        assert(x == y);
        let a0 = a.drop_last();
        let b0 = b.drop_last();
        assert forall|i: int, j: int| 0 <= i < j < a0.len() implies crate::text::str_lt(
            #[trigger] a0[i],
            #[trigger] a0[j],
        ) by {
            assert(a0[i] == a[i] && a0[j] == a[j]);
        }
        assert forall|i: int, j: int| 0 <= i < j < b0.len() implies crate::text::str_lt(
            #[trigger] b0[i],
            #[trigger] b0[j],
        ) by {
            assert(b0[i] == b[i] && b0[j] == b[j]);
        }
        assert forall|z: Seq<char>| a0.contains(z) <==> b0.contains(z) by {
            crate::text::lemma_str_lt_irreflexive(x);
            if a0.contains(z) {
                let i = choose|i: int| 0 <= i < a0.len() && a0[i] == z;
                assert(a[i] == z);
                assert(crate::text::str_lt(a[i], a[a.len() - 1]));
                assert(a.contains(z));
                assert(b.contains(z));
                let j = choose|j: int| 0 <= j < b.len() && b[j] == z;
                assert(j < b.len() - 1);
                assert(b0[j] == z);
            }
            if b0.contains(z) {
                let i = choose|i: int| 0 <= i < b0.len() && b0[i] == z;
                assert(b[i] == z);
                assert(crate::text::str_lt(b[i], b[b.len() - 1]));
                assert(b.contains(z));
                assert(a.contains(z));
                let j = choose|j: int| 0 <= j < a.len() && a[j] == z;
                assert(j < a.len() - 1);
                assert(a0[j] == z);
            }
        }
        lemma_rising_lists_equal(a0, b0);
        assert(a =~= a0.push(x));
        assert(b =~= b0.push(y));
    }
}

/// The namespaces of the pairs of role and binding, in their order.
pub open spec fn role_namespaces(roles: Seq<(RoleView, RoleBindingView)>) -> Seq<Seq<char>> {
    Seq::new(roles.len(), |k: int| role_namespace(roles, k))
}

/// A policy has one set of roles and bindings: what
/// [`is_roles_and_clusterroles`] says of them leaves no choice.
pub proof fn lemma_roles_are_determined(
    roles: Seq<(RoleView, RoleBindingView)>,
    cluster: Option<(ClusterRoleView, ClusterRoleBindingView)>,
    other_roles: Seq<(RoleView, RoleBindingView)>,
    other_cluster: Option<(ClusterRoleView, ClusterRoleBindingView)>,
    cp_name: Seq<char>,
    cronjob_namespace: Seq<char>,
    oref: OwnerReferenceView,
    rs: Seq<CronPolicyResourceView>,
    d: DiscoveryView,
)
    requires
        is_roles_and_clusterroles(roles, cluster, cp_name, cronjob_namespace, oref, rs, d),
        is_roles_and_clusterroles(
            other_roles,
            other_cluster,
            cp_name,
            cronjob_namespace,
            oref,
            rs,
            d,
        ),
    ensures
        roles == other_roles,
        cluster == other_cluster,
{
    let a = role_namespaces(roles);
    let b = role_namespaces(other_roles);
    assert forall|x: Seq<char>| a.contains(x) <==> b.contains(x) by {
        if a.contains(x) {
            let k = choose|k: int| 0 <= k < a.len() && a[k] == x;
            assert(role_namespace(roles, k) == x);
            let j = choose|j: int| 0 <= j < rs.len() && (#[trigger] rs[j]).namespace == Some(x);
            let m = choose|m: int|
                0 <= m < other_roles.len() && #[trigger] role_namespace(other_roles, m)
                    == rs[j].namespace.unwrap();
            assert(b[m] == x);
        }
        if b.contains(x) {
            let k = choose|k: int| 0 <= k < b.len() && b[k] == x;
            assert(role_namespace(other_roles, k) == x);
            let j = choose|j: int| 0 <= j < rs.len() && (#[trigger] rs[j]).namespace == Some(x);
            let m = choose|m: int|
                0 <= m < roles.len() && #[trigger] role_namespace(roles, m) == rs[j].namespace.unwrap();
            assert(a[m] == x);
        }
    }
    assert(strings_rise(a)) by {
        assert forall|i: int, j: int| 0 <= i < j < a.len() implies crate::text::str_lt(
            #[trigger] a[i],
            #[trigger] a[j],
        ) by {
            assert(crate::text::str_lt(role_namespace(roles, i), role_namespace(roles, j)));
        }
    }
    assert(strings_rise(b)) by {
        assert forall|i: int, j: int| 0 <= i < j < b.len() implies crate::text::str_lt(
            #[trigger] b[i],
            #[trigger] b[j],
        ) by {
            assert(crate::text::str_lt(
                role_namespace(other_roles, i),
                role_namespace(other_roles, j),
            ));
        }
    }
    lemma_rising_lists_equal(a, b);
    assert(roles.len() == other_roles.len());
    assert forall|k: int| 0 <= k < roles.len() implies roles[k] == other_roles[k] by {
        assert(a[k] == b[k]);
        assert(role_namespace(roles, k) == role_namespace(other_roles, k));
    }
    assert(roles =~= other_roles);
}

} // verus!
