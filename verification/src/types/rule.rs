//! Validating and mutating rules.

use crate::types::labels::Labels;
use crate::types::object::ObjectMeta;
use vstd::prelude::*;
use vstd::string::*;

verus! {

/// How the orchestrator treats an error of the admission endpoint.
#[derive(Clone, Copy, Debug, PartialEq, Eq, Structural)]
pub enum FailurePolicy {
    Fail,
    Ignore,
}

impl DeepView for FailurePolicy {
    type V = FailurePolicy;

    open spec fn deep_view(&self) -> FailurePolicy {
        *self
    }
}

impl View for FailurePolicy {
    type V = FailurePolicy;

    open spec fn view(&self) -> FailurePolicy {
        *self
    }
}

/// The service account whose identity a rule's script uses to read the cluster.
#[derive(Debug, PartialEq, Eq)]
pub struct ServiceAccountInfo {
    /// Namespace of the service account.
    pub namespace: String,
    /// Name of the service account.
    pub name: String,
}

/// The view of [`ServiceAccountInfo`]: strings as sequences of characters, lists as sequences.
pub struct ServiceAccountInfoView {
    pub namespace: Seq<char>,
    pub name: Seq<char>,
}

impl DeepView for ServiceAccountInfo {
    type V = ServiceAccountInfoView;

    open spec fn deep_view(&self) -> ServiceAccountInfoView {
        ServiceAccountInfoView {
            namespace: self.namespace.deep_view(),
            name: self.name.deep_view(),
        }
    }
}

impl View for ServiceAccountInfo {
    type V = ServiceAccountInfoView;

    open spec fn view(&self) -> ServiceAccountInfoView {
        self.deep_view()
    }
}

impl Clone for ServiceAccountInfo {
    fn clone(&self) -> (r: Self)
        ensures
            r@ == self@,
    {
        ServiceAccountInfo {
            namespace: self.namespace.clone(),
            name: self.name.clone(),
        }
    }
}

/// One requirement of a label selector.
#[derive(Debug, PartialEq, Eq)]
pub struct LabelSelectorRequirement {
    /// The label key that the requirement applies to.
    pub key: String,
    /// How the key relates to the values.
    pub operator: String,
    /// The values of the requirement.
    pub values: Option<Vec<String>>,
}

/// The view of [`LabelSelectorRequirement`]: strings as sequences of characters, lists as sequences.
pub struct LabelSelectorRequirementView {
    pub key: Seq<char>,
    pub operator: Seq<char>,
    pub values: Option<Seq<Seq<char>>>,
}

impl DeepView for LabelSelectorRequirement {
    type V = LabelSelectorRequirementView;

    open spec fn deep_view(&self) -> LabelSelectorRequirementView {
        LabelSelectorRequirementView {
            key: self.key.deep_view(),
            operator: self.operator.deep_view(),
            values: self.values.deep_view(),
        }
    }
}

impl View for LabelSelectorRequirement {
    type V = LabelSelectorRequirementView;

    open spec fn view(&self) -> LabelSelectorRequirementView {
        self.deep_view()
    }
}

impl Clone for LabelSelectorRequirement {
    fn clone(&self) -> (r: Self)
        ensures
            r@ == self@,
    {
        LabelSelectorRequirement {
            key: self.key.clone(),
            operator: self.operator.clone(),
            values: self.values.clone(),
        }
    }
}

/// A query over the labels of objects.
#[derive(Debug, PartialEq, Eq)]
pub struct LabelSelector {
    /// Requirements that must all hold.
    pub match_expressions: Option<Vec<LabelSelectorRequirement>>,
    /// Labels that must all be present with these values.
    pub match_labels: Option<Labels>,
}

/// The view of [`LabelSelector`]: strings as sequences of characters, lists as sequences.
pub struct LabelSelectorView {
    pub match_expressions: Option<Seq<LabelSelectorRequirementView>>,
    pub match_labels: Option<Map<Seq<char>, Seq<char>>>,
}

impl DeepView for LabelSelector {
    type V = LabelSelectorView;

    open spec fn deep_view(&self) -> LabelSelectorView {
        LabelSelectorView {
            match_expressions: self.match_expressions.deep_view(),
            match_labels: self.match_labels.deep_view(),
        }
    }
}

impl View for LabelSelector {
    type V = LabelSelectorView;

    open spec fn view(&self) -> LabelSelectorView {
        self.deep_view()
    }
}

impl Clone for LabelSelector {
    fn clone(&self) -> (r: Self)
        ensures
            r@ == self@,
    {
        LabelSelector {
            match_expressions: self.match_expressions.clone(),
            match_labels: self.match_labels.clone(),
        }
    }
}

/// The operations on resources that a rule is about.
#[derive(Debug, PartialEq, Eq)]
pub struct RuleWithOperations {
    /// API groups of the resources.
    pub api_groups: Option<Vec<String>>,
    /// API versions of the resources.
    pub api_versions: Option<Vec<String>>,
    /// Operations that the rule is about.
    pub operations: Option<Vec<String>>,
    /// The resources.
    pub resources: Option<Vec<String>>,
    /// Scope of the rule.
    pub scope: Option<String>,
}

/// The view of [`RuleWithOperations`]: strings as sequences of characters, lists as sequences.
pub struct RuleWithOperationsView {
    pub api_groups: Option<Seq<Seq<char>>>,
    pub api_versions: Option<Seq<Seq<char>>>,
    pub operations: Option<Seq<Seq<char>>>,
    pub resources: Option<Seq<Seq<char>>>,
    pub scope: Option<Seq<char>>,
}

impl DeepView for RuleWithOperations {
    type V = RuleWithOperationsView;

    open spec fn deep_view(&self) -> RuleWithOperationsView {
        RuleWithOperationsView {
            api_groups: self.api_groups.deep_view(),
            api_versions: self.api_versions.deep_view(),
            operations: self.operations.deep_view(),
            resources: self.resources.deep_view(),
            scope: self.scope.deep_view(),
        }
    }
}

impl View for RuleWithOperations {
    type V = RuleWithOperationsView;

    open spec fn view(&self) -> RuleWithOperationsView {
        self.deep_view()
    }
}

impl Clone for RuleWithOperations {
    fn clone(&self) -> (r: Self)
        ensures
            r@ == self@,
    {
        RuleWithOperations {
            api_groups: self.api_groups.clone(),
            api_versions: self.api_versions.clone(),
            operations: self.operations.clone(),
            resources: self.resources.clone(),
            scope: self.scope.clone(),
        }
    }
}

/// What a validating or a mutating rule specifies.
#[derive(Debug, PartialEq, Eq)]
pub struct RuleSpec {
    /// How errors of the admission endpoint are treated; `Fail` where none is given.
    pub failure_policy: Option<FailurePolicy>,
    /// Selects the namespaces whose objects the rule is run on.
    pub namespace_selector: Option<LabelSelector>,
    /// Selects the objects that the rule is run on.
    pub object_selector: Option<LabelSelector>,
    /// The operations on resources that the rule is run on.
    pub object_rules: Option<Vec<RuleWithOperations>>,
    /// Timeout of the rule in seconds; 10 where none is given.
    pub timeout_seconds: Option<i32>,
    /// The service account under which the script reads the cluster.
    pub service_account: Option<ServiceAccountInfo>,
    /// The script to evaluate on an admission request.
    pub code: String,
}

/// The view of [`RuleSpec`]: strings as sequences of characters, lists as sequences.
pub struct RuleSpecView {
    pub failure_policy: Option<FailurePolicy>,
    pub namespace_selector: Option<LabelSelectorView>,
    pub object_selector: Option<LabelSelectorView>,
    pub object_rules: Option<Seq<RuleWithOperationsView>>,
    pub timeout_seconds: Option<i32>,
    pub service_account: Option<ServiceAccountInfoView>,
    pub code: Seq<char>,
}

impl DeepView for RuleSpec {
    type V = RuleSpecView;

    open spec fn deep_view(&self) -> RuleSpecView {
        RuleSpecView {
            failure_policy: self.failure_policy,
            namespace_selector: self.namespace_selector.deep_view(),
            object_selector: self.object_selector.deep_view(),
            object_rules: self.object_rules.deep_view(),
            timeout_seconds: self.timeout_seconds,
            service_account: self.service_account.deep_view(),
            code: self.code.deep_view(),
        }
    }
}

impl View for RuleSpec {
    type V = RuleSpecView;

    open spec fn view(&self) -> RuleSpecView {
        self.deep_view()
    }
}

impl Clone for RuleSpec {
    fn clone(&self) -> (r: Self)
        ensures
            r@ == self@,
    {
        RuleSpec {
            failure_policy: self.failure_policy,
            namespace_selector: self.namespace_selector.clone(),
            object_selector: self.object_selector.clone(),
            object_rules: self.object_rules.clone(),
            timeout_seconds: self.timeout_seconds,
            service_account: self.service_account.clone(),
            code: self.code.clone(),
        }
    }
}

/// The status of a rule; it holds nothing.
#[derive(Clone, Copy, Debug, PartialEq, Eq)]
pub struct RuleStatus {}

/// What a validating rule specifies.
#[derive(Debug, PartialEq, Eq)]
pub struct ValidatingRuleSpec(pub RuleSpec);

/// The status of a validating rule.
#[derive(Clone, Copy, Debug, PartialEq, Eq)]
pub struct ValidatingRuleStatus(pub RuleStatus);

/// What a mutating rule specifies.
#[derive(Debug, PartialEq, Eq)]
pub struct MutatingRuleSpec(pub RuleSpec);

/// The status of a mutating rule.
#[derive(Clone, Copy, Debug, PartialEq, Eq)]
pub struct MutatingRuleStatus(pub RuleStatus);

impl Clone for ValidatingRuleSpec {
    fn clone(&self) -> (r: Self)
        ensures
            r.0@ == self.0@,
    {
        ValidatingRuleSpec(self.0.clone())
    }
}

impl Clone for MutatingRuleSpec {
    fn clone(&self) -> (r: Self)
        ensures
            r.0@ == self.0@,
    {
        MutatingRuleSpec(self.0.clone())
    }
}

/// A validating rule as the cluster holds it.
#[derive(Debug, PartialEq, Eq)]
pub struct ValidatingRule {
    /// Metadata of the rule.
    pub metadata: ObjectMeta,
    /// What the rule specifies.
    pub spec: ValidatingRuleSpec,
}

/// A mutating rule as the cluster holds it.
#[derive(Debug, PartialEq, Eq)]
pub struct MutatingRule {
    /// Metadata of the rule.
    pub metadata: ObjectMeta,
    /// What the rule specifies.
    pub spec: MutatingRuleSpec,
}

impl FailurePolicy {
    /// The name of the policy as the orchestrator writes it.
    pub open spec fn name(self) -> Seq<char> {
        match self {
            FailurePolicy::Fail => "Fail"@,
            FailurePolicy::Ignore => "Ignore"@,
        }
    }

    /// The name of the policy as the orchestrator writes it.
    pub fn to_string(&self) -> (r: String)
        ensures
            r@ == self.name(),
    {
        match self {
            FailurePolicy::Fail => String::from_str("Fail"),
            FailurePolicy::Ignore => String::from_str("Ignore"),
        }
    }
}

impl Default for FailurePolicy {
    fn default() -> (r: Self)
        ensures
            r == FailurePolicy::Fail,
    {
        FailurePolicy::Fail
    }
}

} // verus!
