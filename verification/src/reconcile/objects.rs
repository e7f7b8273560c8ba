//! The objects that the policy reconciler writes, as far as it sets them.

use crate::types::object::{ObjectMeta, ObjectMetaView};
use vstd::prelude::*;

verus! {

/// One rule of a role: what may be done to which resources.
#[derive(Debug, PartialEq, Eq)]
pub struct PolicyRule {
    /// The API groups of the resources.
    pub api_groups: Option<Vec<String>>,
    /// The plural names of the resources.
    pub resources: Option<Vec<String>>,
    /// What may be done to them.
    pub verbs: Vec<String>,
    /// The names of the objects that the rule is limited to; all where none is given.
    pub resource_names: Option<Vec<String>>,
}

/// The view of [`PolicyRule`]: strings as sequences of characters, lists as sequences.
pub struct PolicyRuleView {
    pub api_groups: Option<Seq<Seq<char>>>,
    pub resources: Option<Seq<Seq<char>>>,
    pub verbs: Seq<Seq<char>>,
    pub resource_names: Option<Seq<Seq<char>>>,
}

impl DeepView for PolicyRule {
    type V = PolicyRuleView;

    open spec fn deep_view(&self) -> PolicyRuleView {
        PolicyRuleView {
            api_groups: self.api_groups.deep_view(),
            resources: self.resources.deep_view(),
            verbs: self.verbs.deep_view(),
            resource_names: self.resource_names.deep_view(),
        }
    }
}

impl View for PolicyRule {
    type V = PolicyRuleView;

    open spec fn view(&self) -> PolicyRuleView {
        self.deep_view()
    }
}

impl Clone for PolicyRule {
    fn clone(&self) -> (r: Self)
        ensures
            r@ == self@,
    {
        let verbs = self.verbs.clone();
        assert(verbs.deep_view() =~= self.verbs.deep_view());
        PolicyRule {
            api_groups: self.api_groups.clone(),
            resources: self.resources.clone(),
            verbs,
            resource_names: self.resource_names.clone(),
        }
    }
}

/// A role within a namespace.
#[derive(Debug, PartialEq, Eq)]
pub struct Role {
    /// Metadata of the role.
    pub metadata: ObjectMeta,
    /// The rules of the role.
    pub rules: Option<Vec<PolicyRule>>,
}

/// The view of [`Role`]: strings as sequences of characters, lists as sequences.
pub struct RoleView {
    pub metadata: ObjectMetaView,
    pub rules: Option<Seq<PolicyRuleView>>,
}

impl DeepView for Role {
    type V = RoleView;

    open spec fn deep_view(&self) -> RoleView {
        RoleView {
            metadata: self.metadata.deep_view(),
            rules: self.rules.deep_view(),
        }
    }
}

impl View for Role {
    type V = RoleView;

    open spec fn view(&self) -> RoleView {
        self.deep_view()
    }
}

impl Clone for Role {
    fn clone(&self) -> (r: Self)
        ensures
            r@ == self@,
    {
        Role {
            metadata: self.metadata.clone(),
            rules: self.rules.clone(),
        }
    }
}

/// A cluster-wide role.
#[derive(Debug, PartialEq, Eq)]
pub struct ClusterRole {
    /// Metadata of the role.
    pub metadata: ObjectMeta,
    /// The rules of the role.
    pub rules: Option<Vec<PolicyRule>>,
}

/// The view of [`ClusterRole`]: strings as sequences of characters, lists as sequences.
pub struct ClusterRoleView {
    pub metadata: ObjectMetaView,
    pub rules: Option<Seq<PolicyRuleView>>,
}

impl DeepView for ClusterRole {
    type V = ClusterRoleView;

    open spec fn deep_view(&self) -> ClusterRoleView {
        ClusterRoleView {
            metadata: self.metadata.deep_view(),
            rules: self.rules.deep_view(),
        }
    }
}

impl View for ClusterRole {
    type V = ClusterRoleView;

    open spec fn view(&self) -> ClusterRoleView {
        self.deep_view()
    }
}

impl Clone for ClusterRole {
    fn clone(&self) -> (r: Self)
        ensures
            r@ == self@,
    {
        ClusterRole {
            metadata: self.metadata.clone(),
            rules: self.rules.clone(),
        }
    }
}

/// The role that a binding grants.
#[derive(Debug, PartialEq, Eq)]
pub struct RoleRef {
    /// API group of the role.
    pub api_group: String,
    /// Kind of the role.
    pub kind: String,
    /// Name of the role.
    pub name: String,
}

/// The view of [`RoleRef`]: strings as sequences of characters, lists as sequences.
pub struct RoleRefView {
    pub api_group: Seq<char>,
    pub kind: Seq<char>,
    pub name: Seq<char>,
}

impl DeepView for RoleRef {
    type V = RoleRefView;

    open spec fn deep_view(&self) -> RoleRefView {
        RoleRefView {
            api_group: self.api_group.deep_view(),
            kind: self.kind.deep_view(),
            name: self.name.deep_view(),
        }
    }
}

impl View for RoleRef {
    type V = RoleRefView;

    open spec fn view(&self) -> RoleRefView {
        self.deep_view()
    }
}

impl Clone for RoleRef {
    fn clone(&self) -> (r: Self)
        ensures
            r@ == self@,
    {
        RoleRef {
            api_group: self.api_group.clone(),
            kind: self.kind.clone(),
            name: self.name.clone(),
        }
    }
}

/// One identity that a binding grants a role to.
#[derive(Debug, PartialEq, Eq)]
pub struct Subject {
    /// API group of the subject.
    pub api_group: Option<String>,
    /// Kind of the subject.
    pub kind: String,
    /// Name of the subject.
    pub name: String,
    /// Namespace of the subject.
    pub namespace: Option<String>,
}

/// The view of [`Subject`]: strings as sequences of characters, lists as sequences.
pub struct SubjectView {
    pub api_group: Option<Seq<char>>,
    pub kind: Seq<char>,
    pub name: Seq<char>,
    pub namespace: Option<Seq<char>>,
}

impl DeepView for Subject {
    type V = SubjectView;

    open spec fn deep_view(&self) -> SubjectView {
        SubjectView {
            api_group: self.api_group.deep_view(),
            kind: self.kind.deep_view(),
            name: self.name.deep_view(),
            namespace: self.namespace.deep_view(),
        }
    }
}

impl View for Subject {
    type V = SubjectView;

    open spec fn view(&self) -> SubjectView {
        self.deep_view()
    }
}

impl Clone for Subject {
    fn clone(&self) -> (r: Self)
        ensures
            r@ == self@,
    {
        Subject {
            api_group: self.api_group.clone(),
            kind: self.kind.clone(),
            name: self.name.clone(),
            namespace: self.namespace.clone(),
        }
    }
}

/// Grants a role to subjects within a namespace.
#[derive(Debug, PartialEq, Eq)]
pub struct RoleBinding {
    /// Metadata of the binding.
    pub metadata: ObjectMeta,
    /// The role that is granted.
    pub role_ref: RoleRef,
    /// The subjects that it is granted to.
    pub subjects: Option<Vec<Subject>>,
}

/// The view of [`RoleBinding`]: strings as sequences of characters, lists as sequences.
pub struct RoleBindingView {
    pub metadata: ObjectMetaView,
    pub role_ref: RoleRefView,
    pub subjects: Option<Seq<SubjectView>>,
}

impl DeepView for RoleBinding {
    type V = RoleBindingView;

    open spec fn deep_view(&self) -> RoleBindingView {
        RoleBindingView {
            metadata: self.metadata.deep_view(),
            role_ref: self.role_ref.deep_view(),
            subjects: self.subjects.deep_view(),
        }
    }
}

impl View for RoleBinding {
    type V = RoleBindingView;

    open spec fn view(&self) -> RoleBindingView {
        self.deep_view()
    }
}

impl Clone for RoleBinding {
    fn clone(&self) -> (r: Self)
        ensures
            r@ == self@,
    {
        RoleBinding {
            metadata: self.metadata.clone(),
            role_ref: self.role_ref.clone(),
            subjects: self.subjects.clone(),
        }
    }
}

/// Grants a cluster-wide role to subjects.
#[derive(Debug, PartialEq, Eq)]
pub struct ClusterRoleBinding {
    /// Metadata of the binding.
    pub metadata: ObjectMeta,
    /// The role that is granted.
    pub role_ref: RoleRef,
    /// The subjects that it is granted to.
    pub subjects: Option<Vec<Subject>>,
}

/// The view of [`ClusterRoleBinding`]: strings as sequences of characters, lists as sequences.
pub struct ClusterRoleBindingView {
    pub metadata: ObjectMetaView,
    pub role_ref: RoleRefView,
    pub subjects: Option<Seq<SubjectView>>,
}

impl DeepView for ClusterRoleBinding {
    type V = ClusterRoleBindingView;

    open spec fn deep_view(&self) -> ClusterRoleBindingView {
        ClusterRoleBindingView {
            metadata: self.metadata.deep_view(),
            role_ref: self.role_ref.deep_view(),
            subjects: self.subjects.deep_view(),
        }
    }
}

impl View for ClusterRoleBinding {
    type V = ClusterRoleBindingView;

    open spec fn view(&self) -> ClusterRoleBindingView {
        self.deep_view()
    }
}

impl Clone for ClusterRoleBinding {
    fn clone(&self) -> (r: Self)
        ensures
            r@ == self@,
    {
        ClusterRoleBinding {
            metadata: self.metadata.clone(),
            role_ref: self.role_ref.clone(),
            subjects: self.subjects.clone(),
        }
    }
}

/// The identity under which the audit job runs.
#[derive(Debug, PartialEq, Eq)]
pub struct ServiceAccount {
    /// Metadata of the service account.
    pub metadata: ObjectMeta,
}

/// The view of [`ServiceAccount`]: strings as sequences of characters, lists as sequences.
pub struct ServiceAccountView {
    pub metadata: ObjectMetaView,
}

impl DeepView for ServiceAccount {
    type V = ServiceAccountView;

    open spec fn deep_view(&self) -> ServiceAccountView {
        ServiceAccountView {
            metadata: self.metadata.deep_view(),
        }
    }
}

impl View for ServiceAccount {
    type V = ServiceAccountView;

    open spec fn view(&self) -> ServiceAccountView {
        self.deep_view()
    }
}

impl Clone for ServiceAccount {
    fn clone(&self) -> (r: Self)
        ensures
            r@ == self@,
    {
        ServiceAccount {
            metadata: self.metadata.clone(),
        }
    }
}

/// One environment variable of a container.
#[derive(Debug, PartialEq, Eq)]
pub struct EnvVar {
    /// Name of the variable.
    pub name: String,
    /// Value of the variable.
    pub value: Option<String>,
}

/// The view of [`EnvVar`]: strings as sequences of characters, lists as sequences.
pub struct EnvVarView {
    pub name: Seq<char>,
    pub value: Option<Seq<char>>,
}

impl DeepView for EnvVar {
    type V = EnvVarView;

    open spec fn deep_view(&self) -> EnvVarView {
        EnvVarView {
            name: self.name.deep_view(),
            value: self.value.deep_view(),
        }
    }
}

impl View for EnvVar {
    type V = EnvVarView;

    open spec fn view(&self) -> EnvVarView {
        self.deep_view()
    }
}

impl Clone for EnvVar {
    fn clone(&self) -> (r: Self)
        ensures
            r@ == self@,
    {
        EnvVar {
            name: self.name.clone(),
            value: self.value.clone(),
        }
    }
}

/// The container of the audit job.
#[derive(Debug, PartialEq, Eq)]
pub struct Container {
    /// Name of the container.
    pub name: String,
    /// Image of the container.
    pub image: Option<String>,
    /// Command that the container runs.
    pub command: Option<Vec<String>>,
    /// Environment of the container.
    pub env: Option<Vec<EnvVar>>,
}

/// The view of [`Container`]: strings as sequences of characters, lists as sequences.
pub struct ContainerView {
    pub name: Seq<char>,
    pub image: Option<Seq<char>>,
    pub command: Option<Seq<Seq<char>>>,
    pub env: Option<Seq<EnvVarView>>,
}

impl DeepView for Container {
    type V = ContainerView;

    open spec fn deep_view(&self) -> ContainerView {
        ContainerView {
            name: self.name.deep_view(),
            image: self.image.deep_view(),
            command: self.command.deep_view(),
            env: self.env.deep_view(),
        }
    }
}

impl View for Container {
    type V = ContainerView;

    open spec fn view(&self) -> ContainerView {
        self.deep_view()
    }
}

impl Clone for Container {
    fn clone(&self) -> (r: Self)
        ensures
            r@ == self@,
    {
        Container {
            name: self.name.clone(),
            image: self.image.clone(),
            command: self.command.clone(),
            env: self.env.clone(),
        }
    }
}

/// The scheduled job that runs the audit worker.
#[derive(Debug, PartialEq, Eq)]
pub struct CronJob {
    /// Metadata of the job.
    pub metadata: ObjectMeta,
    /// The schedule, in cron format.
    pub schedule: String,
    /// Whether later runs are suspended.
    pub suspend: Option<bool>,
    /// Name of the service account that the job's pods run under.
    pub service_account_name: Option<String>,
    /// The containers of the job's pods.
    pub containers: Vec<Container>,
    /// Restart policy of the containers.
    pub restart_policy: Option<String>,
}

/// The view of [`CronJob`]: strings as sequences of characters, lists as sequences.
pub struct CronJobView {
    pub metadata: ObjectMetaView,
    pub schedule: Seq<char>,
    pub suspend: Option<bool>,
    pub service_account_name: Option<Seq<char>>,
    pub containers: Seq<ContainerView>,
    pub restart_policy: Option<Seq<char>>,
}

impl DeepView for CronJob {
    type V = CronJobView;

    open spec fn deep_view(&self) -> CronJobView {
        CronJobView {
            metadata: self.metadata.deep_view(),
            schedule: self.schedule.deep_view(),
            suspend: self.suspend,
            service_account_name: self.service_account_name.deep_view(),
            containers: self.containers.deep_view(),
            restart_policy: self.restart_policy.deep_view(),
        }
    }
}

impl View for CronJob {
    type V = CronJobView;

    open spec fn view(&self) -> CronJobView {
        self.deep_view()
    }
}

impl Clone for CronJob {
    fn clone(&self) -> (r: Self)
        ensures
            r@ == self@,
    {
        let containers = self.containers.clone();
        assert(containers.deep_view() =~= self.containers.deep_view());
        CronJob {
            metadata: self.metadata.clone(),
            schedule: self.schedule.clone(),
            suspend: self.suspend,
            service_account_name: self.service_account_name.clone(),
            containers,
            restart_policy: self.restart_policy.clone(),
        }
    }
}

} // verus!
