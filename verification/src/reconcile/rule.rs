//! The rule reconciler: each validating or mutating rule has one admission
//! webhook configuration of its own name, which points the orchestrator at
//! the webhook server and carries the active CA bundle.

use crate::config::{ControllerConfig, ControllerConfigView};
use crate::types::labels::Labels;
use crate::types::object::{ObjectMeta, ObjectMetaView, OwnerReference, OwnerReferenceView};
use crate::types::rule::{
    LabelSelector, LabelSelectorView, MutatingRule, RuleSpec, RuleSpecView, RuleWithOperations,
    RuleWithOperationsView, ValidatingRule,
};
use crate::types::views::result_view;
use vstd::prelude::*;
use vstd::string::*;

verus! {

/// Key of the label that marks a configuration as owned by a validating rule.
pub const VALIDATINGRULE_OWNED_LABEL_KEY: &'static str = "checkpoint.devsisters.com/validatingrule";

/// Key of the label that marks a configuration as owned by a mutating rule.
pub const MUTATINGRULE_OWNED_LABEL_KEY: &'static str = "checkpoint.devsisters.com/mutatingrule";

/// Key of the annotation that asks for a configuration to be written anew.
pub const SHOULD_UPDATE_ANNOTATION_KEY: &'static str = "checkpoint.devsisters.com/should-update";

/// Field manager under which configurations of validating rules are applied.
pub const VALIDATINGRULE_FIELD_MANAGER: &'static str = "validatingrule.checkpoint.devsisters.com";

/// Field manager under which configurations of mutating rules are applied.
pub const MUTATINGRULE_FIELD_MANAGER: &'static str = "mutatingrule.checkpoint.devsisters.com";

/// The two kinds of rule.
#[derive(Clone, Copy, Debug, PartialEq, Eq, Structural)]
pub enum RuleKind {
    /// A rule that allows or denies.
    Validating,
    /// A rule that may also change the object.
    Mutating,
}

impl DeepView for RuleKind {
    type V = RuleKind;

    open spec fn deep_view(&self) -> RuleKind {
        *self
    }
}

impl View for RuleKind {
    type V = RuleKind;

    open spec fn view(&self) -> RuleKind {
        *self
    }
}

impl RuleKind {
    /// Key of the ownership label of the kind.
    pub open spec fn label_key(self) -> Seq<char> {
        match self {
            RuleKind::Validating => VALIDATINGRULE_OWNED_LABEL_KEY@,
            RuleKind::Mutating => MUTATINGRULE_OWNED_LABEL_KEY@,
        }
    }

    /// First segment of the URL path under which the server takes the kind.
    pub open spec fn path(self) -> Seq<char> {
        match self {
            RuleKind::Validating => "validate"@,
            RuleKind::Mutating => "mutate"@,
        }
    }

    /// The word for the kind in the name of a webhook.
    pub open spec fn webhook_word(self) -> Seq<char> {
        match self {
            RuleKind::Validating => "validatingwebhook"@,
            RuleKind::Mutating => "mutatingwebhook"@,
        }
    }

    /// The field manager under which configurations of the kind are applied.
    pub open spec fn field_manager(self) -> Seq<char> {
        match self {
            RuleKind::Validating => VALIDATINGRULE_FIELD_MANAGER@,
            RuleKind::Mutating => MUTATINGRULE_FIELD_MANAGER@,
        }
    }

    /// Key of the ownership label of the kind.
    pub fn owned_label_key(&self) -> (r: &'static str)
        ensures
            r@ == self.label_key(),
    {
        match self {
            RuleKind::Validating => VALIDATINGRULE_OWNED_LABEL_KEY,
            RuleKind::Mutating => MUTATINGRULE_OWNED_LABEL_KEY,
        }
    }

    /// First segment of the URL path under which the server takes the kind.
    pub fn url_path(&self) -> (r: &'static str)
        ensures
            r@ == self.path(),
    {
        match self {
            RuleKind::Validating => "validate",
            RuleKind::Mutating => "mutate",
        }
    }

    /// The word for the kind in the name of a webhook.
    pub fn webhook_type(&self) -> (r: &'static str)
        ensures
            r@ == self.webhook_word(),
    {
        match self {
            RuleKind::Validating => "validatingwebhook",
            RuleKind::Mutating => "mutatingwebhook",
        }
    }

    /// The field manager under which configurations of the kind are applied.
    pub fn manager(&self) -> (r: &'static str)
        ensures
            r@ == self.field_manager(),
    {
        match self {
            RuleKind::Validating => VALIDATINGRULE_FIELD_MANAGER,
            RuleKind::Mutating => MUTATINGRULE_FIELD_MANAGER,
        }
    }
}

/// The service in front of the webhook server.
#[derive(Debug, PartialEq, Eq)]
pub struct ServiceReference {
    /// Namespace of the service.
    pub namespace: String,
    /// Name of the service.
    pub name: String,
    /// URL path that the orchestrator calls.
    pub path: Option<String>,
    /// Port of the service.
    pub port: Option<i32>,
}

/// The view of [`ServiceReference`]: strings as sequences of characters, lists as sequences.
pub struct ServiceReferenceView {
    pub namespace: Seq<char>,
    pub name: Seq<char>,
    pub path: Option<Seq<char>>,
    pub port: Option<i32>,
}

impl DeepView for ServiceReference {
    type V = ServiceReferenceView;

    open spec fn deep_view(&self) -> ServiceReferenceView {
        ServiceReferenceView {
            namespace: self.namespace.deep_view(),
            name: self.name.deep_view(),
            path: self.path.deep_view(),
            port: self.port,
        }
    }
}

impl View for ServiceReference {
    type V = ServiceReferenceView;

    open spec fn view(&self) -> ServiceReferenceView {
        self.deep_view()
    }
}

impl Clone for ServiceReference {
    fn clone(&self) -> (r: Self)
        ensures
            r@ == self@,
    {
        ServiceReference {
            namespace: self.namespace.clone(),
            name: self.name.clone(),
            path: self.path.clone(),
            port: self.port,
        }
    }
}

/// How the orchestrator reaches the webhook server.
#[derive(Debug, PartialEq, Eq)]
pub struct WebhookClientConfig {
    /// The CA bundle with which the server's certificate is checked.
    pub ca_bundle: Option<Vec<u8>>,
    /// The service to call.
    pub service: Option<ServiceReference>,
    /// A URL to call in place of a service.
    pub url: Option<String>,
}

/// The view of [`WebhookClientConfig`]: strings as sequences of characters, lists as sequences.
pub struct WebhookClientConfigView {
    pub ca_bundle: Option<Seq<u8>>,
    pub service: Option<ServiceReferenceView>,
    pub url: Option<Seq<char>>,
}

impl DeepView for WebhookClientConfig {
    type V = WebhookClientConfigView;

    open spec fn deep_view(&self) -> WebhookClientConfigView {
        WebhookClientConfigView {
            ca_bundle: self.ca_bundle.deep_view(),
            service: self.service.deep_view(),
            url: self.url.deep_view(),
        }
    }
}

impl View for WebhookClientConfig {
    type V = WebhookClientConfigView;

    open spec fn view(&self) -> WebhookClientConfigView {
        self.deep_view()
    }
}

impl Clone for WebhookClientConfig {
    fn clone(&self) -> (r: Self)
        ensures
            r@ == self@,
    {
        WebhookClientConfig {
            ca_bundle: self.ca_bundle.clone(),
            service: self.service.clone(),
            url: self.url.clone(),
        }
    }
}

/// One admission webhook of a configuration.
#[derive(Debug, PartialEq, Eq)]
pub struct Webhook {
    /// Name of the webhook.
    pub name: String,
    /// How errors of the endpoint are treated.
    pub failure_policy: Option<String>,
    /// Selects the namespaces whose objects the webhook is called for.
    pub namespace_selector: Option<LabelSelector>,
    /// Selects the objects that the webhook is called for.
    pub object_selector: Option<LabelSelector>,
    /// The operations on resources that the webhook is called for.
    pub rules: Option<Vec<RuleWithOperations>>,
    /// Timeout of a call in seconds.
    pub timeout_seconds: Option<i32>,
    /// How the webhook server is reached.
    pub client_config: WebhookClientConfig,
    /// The versions of admission reviews that the server takes.
    pub admission_review_versions: Vec<String>,
    /// Whether a call has side effects.
    pub side_effects: String,
}

/// The view of [`Webhook`]: strings as sequences of characters, lists as sequences.
pub struct WebhookView {
    pub name: Seq<char>,
    pub failure_policy: Option<Seq<char>>,
    pub namespace_selector: Option<LabelSelectorView>,
    pub object_selector: Option<LabelSelectorView>,
    pub rules: Option<Seq<RuleWithOperationsView>>,
    pub timeout_seconds: Option<i32>,
    pub client_config: WebhookClientConfigView,
    pub admission_review_versions: Seq<Seq<char>>,
    pub side_effects: Seq<char>,
}

impl DeepView for Webhook {
    type V = WebhookView;

    open spec fn deep_view(&self) -> WebhookView {
        WebhookView {
            name: self.name.deep_view(),
            failure_policy: self.failure_policy.deep_view(),
            namespace_selector: self.namespace_selector.deep_view(),
            object_selector: self.object_selector.deep_view(),
            rules: self.rules.deep_view(),
            timeout_seconds: self.timeout_seconds,
            client_config: self.client_config.deep_view(),
            admission_review_versions: self.admission_review_versions.deep_view(),
            side_effects: self.side_effects.deep_view(),
        }
    }
}

impl View for Webhook {
    type V = WebhookView;

    open spec fn view(&self) -> WebhookView {
        self.deep_view()
    }
}

impl Clone for Webhook {
    fn clone(&self) -> (r: Self)
        ensures
            r@ == self@,
    {
        let admission_review_versions = self.admission_review_versions.clone();
        assert(admission_review_versions.deep_view() =~= self.admission_review_versions.deep_view());
        Webhook {
            name: self.name.clone(),
            failure_policy: self.failure_policy.clone(),
            namespace_selector: self.namespace_selector.clone(),
            object_selector: self.object_selector.clone(),
            rules: self.rules.clone(),
            timeout_seconds: self.timeout_seconds,
            client_config: self.client_config.clone(),
            admission_review_versions,
            side_effects: self.side_effects.clone(),
        }
    }
}

/// The admission webhook configuration that is kept for one rule.
#[derive(Debug, PartialEq, Eq)]
pub struct WebhookConfiguration {
    /// Whether the configuration is a validating or a mutating one.
    pub kind: RuleKind,
    /// Metadata of the configuration.
    pub metadata: ObjectMeta,
    /// The webhooks of the configuration.
    pub webhooks: Option<Vec<Webhook>>,
}

/// The view of [`WebhookConfiguration`]: strings as sequences of characters, lists as sequences.
pub struct WebhookConfigurationView {
    pub kind: RuleKind,
    pub metadata: ObjectMetaView,
    pub webhooks: Option<Seq<WebhookView>>,
}

impl DeepView for WebhookConfiguration {
    type V = WebhookConfigurationView;

    open spec fn deep_view(&self) -> WebhookConfigurationView {
        WebhookConfigurationView {
            kind: self.kind,
            metadata: self.metadata.deep_view(),
            webhooks: self.webhooks.deep_view(),
        }
    }
}

impl View for WebhookConfiguration {
    type V = WebhookConfigurationView;

    open spec fn view(&self) -> WebhookConfigurationView {
        self.deep_view()
    }
}

impl Clone for WebhookConfiguration {
    fn clone(&self) -> (r: Self)
        ensures
            r@ == self@,
    {
        WebhookConfiguration {
            kind: self.kind,
            metadata: self.metadata.clone(),
            webhooks: self.webhooks.clone(),
        }
    }
}

/// A request to apply a webhook configuration on the server side.
#[derive(Debug, PartialEq, Eq)]
pub struct ApplyWebhookConfiguration {
    /// The field manager under which it is applied.
    pub field_manager: String,
    /// Name of the configuration.
    pub name: String,
    /// The configuration to apply.
    pub configuration: WebhookConfiguration,
}

/// The view of [`ApplyWebhookConfiguration`]: strings as sequences of characters, lists as sequences.
pub struct ApplyWebhookConfigurationView {
    pub field_manager: Seq<char>,
    pub name: Seq<char>,
    pub configuration: WebhookConfigurationView,
}

impl DeepView for ApplyWebhookConfiguration {
    type V = ApplyWebhookConfigurationView;

    open spec fn deep_view(&self) -> ApplyWebhookConfigurationView {
        ApplyWebhookConfigurationView {
            field_manager: self.field_manager.deep_view(),
            name: self.name.deep_view(),
            configuration: self.configuration.deep_view(),
        }
    }
}

impl View for ApplyWebhookConfiguration {
    type V = ApplyWebhookConfigurationView;

    open spec fn view(&self) -> ApplyWebhookConfigurationView {
        self.deep_view()
    }
}

impl Clone for ApplyWebhookConfiguration {
    fn clone(&self) -> (r: Self)
        ensures
            r@ == self@,
    {
        ApplyWebhookConfiguration {
            field_manager: self.field_manager.clone(),
            name: self.name.clone(),
            configuration: self.configuration.clone(),
        }
    }
}

/// What can go wrong while a rule is reconciled.
#[derive(Debug, PartialEq, Eq)]
pub enum Error {
    /// The rule lacks the key that the variant names.
    MissingObjectKey(String),
    /// The validating configuration could not be applied; the variant holds
    /// the message of the cluster.
    ValidatingWebhookConfigurationCreationFailed(String),
    /// The mutating configuration could not be applied; the variant holds
    /// the message of the cluster.
    MutatingWebhookConfigurationCreationFailed(String),
}

/// The view of [`Error`].
pub enum ErrorView {
    MissingObjectKey(Seq<char>),
    ValidatingWebhookConfigurationCreationFailed(Seq<char>),
    MutatingWebhookConfigurationCreationFailed(Seq<char>),
}

impl DeepView for Error {
    type V = ErrorView;

    open spec fn deep_view(&self) -> ErrorView {
        match self {
            Error::MissingObjectKey(k) => ErrorView::MissingObjectKey(k@),
            Error::ValidatingWebhookConfigurationCreationFailed(m) =>
                ErrorView::ValidatingWebhookConfigurationCreationFailed(m@),
            Error::MutatingWebhookConfigurationCreationFailed(m) =>
                ErrorView::MutatingWebhookConfigurationCreationFailed(m@),
        }
    }
}

impl View for Error {
    type V = ErrorView;

    open spec fn view(&self) -> ErrorView {
        self.deep_view()
    }
}

impl ErrorView {
    /// The message of the error.
    pub open spec fn message(self) -> Seq<char> {
        match self {
            ErrorView::MissingObjectKey(k) => "MissingObjectKey: "@ + k,
            ErrorView::ValidatingWebhookConfigurationCreationFailed(m) =>
                "Failed to create ValidatingWebhookConfiguration: "@ + m,
            ErrorView::MutatingWebhookConfigurationCreationFailed(m) =>
                "Failed to create MutatingWebhookConfiguration: "@ + m,
        }
    }
}

impl Error {
    /// The message of the error.
    pub fn to_string(&self) -> (r: String)
        ensures
            r@ == self@.message(),
    {
        match self {
            Error::MissingObjectKey(k) => String::from_str("MissingObjectKey: ").concat(k.as_str()),
            Error::ValidatingWebhookConfigurationCreationFailed(m) => String::from_str(
                "Failed to create ValidatingWebhookConfiguration: ",
            ).concat(m.as_str()),
            Error::MutatingWebhookConfigurationCreationFailed(m) => String::from_str(
                "Failed to create MutatingWebhookConfiguration: ",
            ).concat(m.as_str()),
        }
    }
}

/// How the orchestrator reaches the webhook server for the rule `rule_name`:
/// through the configured service, under the path of the rule's kind and
/// name, checking the server with `ca_bundle`.
pub open spec fn client_config_of(
    config: ControllerConfigView,
    ca_bundle: Seq<u8>,
    path: Seq<char>,
    rule_name: Seq<char>,
) -> WebhookClientConfigView {
    WebhookClientConfigView {
        ca_bundle: Some(ca_bundle),
        service: Some(
            ServiceReferenceView {
                namespace: config.service_namespace,
                name: config.service_name,
                path: Some("/"@ + path + "/"@ + rule_name),
                port: Some(config.service_port),
            },
        ),
        url: None,
    }
}

/// How the orchestrator reaches the webhook server for the rule `rule_name`.
pub fn webhook_client_config(
    config: &ControllerConfig,
    ca_bundle: Vec<u8>,
    path: &str,
    rule_name: &str,
) -> (r: WebhookClientConfig)
    ensures
        r@ == client_config_of(config@, ca_bundle@, path@, rule_name@),
{
    let url_path = String::from_str("/").concat(path).concat("/").concat(rule_name);
    assert(ca_bundle.deep_view() =~= ca_bundle@);
    WebhookClientConfig {
        ca_bundle: Some(ca_bundle),
        service: Some(
            ServiceReference {
                namespace: config.service_namespace.clone(),
                name: config.service_name.clone(),
                path: Some(url_path),
                port: Some(config.service_port),
            },
        ),
        url: None,
    }
}

/// The name of a failure policy, where there is one.
pub open spec fn failure_policy_name(p: Option<crate::types::rule::FailurePolicy>) -> Option<Seq<char>> {
    match p {
        Some(p) => Some(p.name()),
        None => None,
    }
}

/// The configuration that the cluster is to hold for the rule `name` of the
/// kind `kind`: it has the rule's name, the rule as its one owner and the
/// ownership label of the kind, and one webhook, which mirrors the rule's
/// selectors, operations, failure policy and timeout and points at the
/// webhook server with the CA bundle `ca_bundle`.
pub open spec fn webhook_configuration_of(
    kind: RuleKind,
    name: Seq<char>,
    oref: OwnerReferenceView,
    spec: RuleSpecView,
    config: ControllerConfigView,
    ca_bundle: Seq<u8>,
) -> WebhookConfigurationView {
    WebhookConfigurationView {
        kind,
        metadata: ObjectMetaView {
            name: Some(name),
            namespace: None,
            owner_references: Some(seq![oref]),
            labels: Some(Map::<Seq<char>, Seq<char>>::empty().insert(kind.label_key(), name)),
            annotations: None,
        },
        webhooks: Some(
            seq![
                WebhookView {
                    name: name + "."@ + kind.webhook_word() + ".checkpoint.devsisters.com"@,
                    failure_policy: failure_policy_name(spec.failure_policy),
                    namespace_selector: spec.namespace_selector,
                    object_selector: spec.object_selector,
                    rules: spec.object_rules,
                    timeout_seconds: spec.timeout_seconds,
                    client_config: client_config_of(config, ca_bundle, kind.path(), name),
                    admission_review_versions: seq!["v1"@],
                    side_effects: "None"@,
                },
            ],
        ),
    }
}

/// The configuration that the cluster is to hold for the rule `name`.
pub fn webhook_configuration(
    kind: RuleKind,
    name: String,
    oref: OwnerReference,
    spec: &RuleSpec,
    config: &ControllerConfig,
    ca_bundle: Vec<u8>,
) -> (r: WebhookConfiguration)
    ensures
        r@ == webhook_configuration_of(kind, name@, oref@, spec@, config@, ca_bundle@),
{
    let labels = Labels::single(String::from_str(kind.owned_label_key()), name.clone());
    let mut orefs: Vec<OwnerReference> = Vec::new();
    orefs.push(oref);
    assert(orefs.deep_view() =~= seq![oref@]);
    let failure_policy = match &spec.failure_policy {
        Some(p) => Some(p.to_string()),
        None => None,
    };
    let mut versions: Vec<String> = Vec::new();
    versions.push(String::from_str("v1"));
    assert(versions.deep_view() =~= seq!["v1"@]);
    let webhook = Webhook {
        name: name.clone().concat(".").concat(kind.webhook_type()).concat(
            ".checkpoint.devsisters.com",
        ),
        failure_policy,
        namespace_selector: spec.namespace_selector.clone(),
        object_selector: spec.object_selector.clone(),
        rules: spec.object_rules.clone(),
        timeout_seconds: spec.timeout_seconds,
        client_config: webhook_client_config(config, ca_bundle, kind.url_path(), name.as_str()),
        admission_review_versions: versions,
        side_effects: String::from_str("None"),
    };
    let mut webhooks: Vec<Webhook> = Vec::new();
    webhooks.push(webhook);
    assert(webhooks.deep_view() =~= seq![webhook@]);
    WebhookConfiguration {
        kind,
        metadata: ObjectMeta {
            name: Some(name),
            namespace: None,
            owner_references: Some(orefs),
            labels: Some(labels),
            annotations: None,
        },
        webhooks: Some(webhooks),
    }
}

/// What reconciling a rule of the kind `kind` asks of the cluster: to apply,
/// under the kind's field manager, the configuration of the rule; or the
/// error that the rule has no name.
pub open spec fn reconciled(
    kind: RuleKind,
    metadata: ObjectMetaView,
    oref: OwnerReferenceView,
    spec: RuleSpecView,
    config: ControllerConfigView,
    ca_bundle: Seq<u8>,
) -> Result<ApplyWebhookConfigurationView, ErrorView> {
    match metadata.name {
        None => Err(ErrorView::MissingObjectKey(".metadata.name"@)),
        Some(name) => Ok(
            ApplyWebhookConfigurationView {
                field_manager: kind.field_manager(),
                name,
                configuration: webhook_configuration_of(kind, name, oref, spec, config, ca_bundle),
            },
        ),
    }
}

/// What reconciling a rule asks of the cluster.
fn reconcile_rule(
    kind: RuleKind,
    metadata: &ObjectMeta,
    oref: OwnerReference,
    spec: &RuleSpec,
    config: &ControllerConfig,
    ca_bundle: Vec<u8>,
) -> (r: Result<ApplyWebhookConfiguration, Error>)
    ensures
        result_view(r) == reconciled(kind, metadata@, oref@, spec@, config@, ca_bundle@),
{
    match &metadata.name {
        None => Err(Error::MissingObjectKey(String::from_str(".metadata.name"))),
        Some(name) => Ok(
            ApplyWebhookConfiguration {
                field_manager: String::from_str(kind.manager()),
                name: name.clone(),
                configuration: webhook_configuration(
                    kind,
                    name.clone(),
                    oref,
                    spec,
                    config,
                    ca_bundle,
                ),
            },
        ),
    }
}

/// What reconciling a validating rule asks of the cluster: to apply the
/// rule's validating webhook configuration, which carries `ca_bundle`, the
/// active CA bundle. `oref` is the reference by which the rule owns it.
pub fn reconcile_validatingrule(
    validating_rule: &ValidatingRule,
    oref: OwnerReference,
    config: &ControllerConfig,
    ca_bundle: Vec<u8>,
) -> (r: Result<ApplyWebhookConfiguration, Error>)
    ensures
        result_view(r) == reconciled(
            RuleKind::Validating,
            validating_rule.metadata@,
            oref@,
            validating_rule.spec.0@,
            config@,
            ca_bundle@,
        ),
{
    reconcile_rule(
        RuleKind::Validating,
        &validating_rule.metadata,
        oref,
        &validating_rule.spec.0,
        config,
        ca_bundle,
    )
}

/// What reconciling a mutating rule asks of the cluster: to apply the rule's
/// mutating webhook configuration, which carries `ca_bundle`, the active CA
/// bundle. `oref` is the reference by which the rule owns it.
pub fn reconcile_mutatingrule(
    mutating_rule: &MutatingRule,
    oref: OwnerReference,
    config: &ControllerConfig,
    ca_bundle: Vec<u8>,
) -> (r: Result<ApplyWebhookConfiguration, Error>)
    ensures
        result_view(r) == reconciled(
            RuleKind::Mutating,
            mutating_rule.metadata@,
            oref@,
            mutating_rule.spec.0@,
            config@,
            ca_bundle@,
        ),
{
    reconcile_rule(
        RuleKind::Mutating,
        &mutating_rule.metadata,
        oref,
        &mutating_rule.spec.0,
        config,
        ca_bundle,
    )
}

/// The active CA bundle: the bytes that were last read from the PEM file.
#[derive(Debug, PartialEq, Eq)]
pub struct CaBundle {
    /// The bytes of the bundle.
    pub bytes: Vec<u8>,
}

impl View for CaBundle {
    type V = Seq<u8>;

    open spec fn view(&self) -> Seq<u8> {
        self.bytes@
    }
}

/// Whether two byte strings are the same.
pub fn bytes_eq(a: &Vec<u8>, b: &Vec<u8>) -> (r: bool)
    ensures
        r == (a@ == b@),
{
    if a.len() != b.len() {
        return false;
    }
    let mut i: usize = 0;
    while i < a.len()
        invariant
            i <= a.len(),
            a.len() == b.len(),
            forall|k: int| 0 <= k < i ==> a@[k] == b@[k],
        decreases a.len() - i,
    {
        if a[i] != b[i] {
            return false;
        }
        i += 1;
    }
    assert(a@ =~= b@);
    true
}

impl CaBundle {
    /// The bundle with the bytes `bytes`.
    pub fn new(bytes: Vec<u8>) -> (r: Self)
        ensures
            r@ == bytes@,
    {
        CaBundle { bytes }
    }

    /// Takes in what was read from the PEM file. Where it is what the bundle
    /// holds already, nothing changes and the result is `false`; else the
    /// bundle holds `content` from now on, and the result is `true`: the
    /// managed configurations are then to be written anew.
    pub fn reload(&mut self, content: Vec<u8>) -> (changed: bool)
        ensures
            changed == (old(self)@ != content@),
            final(self)@ == content@,
    {
        if bytes_eq(&self.bytes, &content) {
            false
        } else {
            self.bytes = content;
            true
        }
    }
}

/// The annotations of a configuration that is marked to be written anew:
/// those it had, with the mark.
pub open spec fn marked_annotations(a: Option<Map<Seq<char>, Seq<char>>>) -> Map<
    Seq<char>,
    Seq<char>,
> {
    match a {
        Some(m) => m.insert(SHOULD_UPDATE_ANNOTATION_KEY@, "true"@),
        None => Map::<Seq<char>, Seq<char>>::empty().insert(SHOULD_UPDATE_ANNOTATION_KEY@, "true"@),
    }
}

/// A configuration with the mark that asks for it to be written anew.
pub open spec fn marked(c: WebhookConfigurationView) -> WebhookConfigurationView {
    WebhookConfigurationView {
        metadata: ObjectMetaView {
            annotations: Some(marked_annotations(c.metadata.annotations)),
            ..c.metadata
        },
        ..c
    }
}

/// Marks a configuration to be written anew: the reconciler that owns it
/// sees the change and writes it with the active CA bundle.
pub fn mark_for_update(configuration: WebhookConfiguration) -> (r: WebhookConfiguration)
    ensures
        r@ == marked(configuration@),
{
    let WebhookConfiguration { kind, metadata, webhooks } = configuration;
    let ObjectMeta { name, namespace, owner_references, labels, annotations } = metadata;
    let mut annotations = match annotations {
        Some(a) => a,
        None => Labels::new(),
    };
    annotations.insert(String::from_str(SHOULD_UPDATE_ANNOTATION_KEY), String::from_str("true"));
    WebhookConfiguration {
        kind,
        metadata: ObjectMeta { name, namespace, owner_references, labels, annotations: Some(annotations) },
        webhooks,
    }
}

/// The name by which a configuration is addressed: its name, or the empty
/// one where it has none.
pub open spec fn name_of(c: WebhookConfigurationView) -> Seq<char> {
    match c.metadata.name {
        Some(n) => n,
        None => Seq::empty(),
    }
}

/// The request that writes one managed configuration anew.
pub open spec fn restamp_of(c: WebhookConfigurationView) -> ApplyWebhookConfigurationView {
    ApplyWebhookConfigurationView {
        field_manager: c.kind.field_manager(),
        name: name_of(c),
        configuration: marked(c),
    }
}

/// After the CA bundle has changed: the requests that mark the managed
/// configurations `managed` to be written anew, one for each and in their
/// order, each under the field manager of its kind.
pub fn reload_ca_bundle(managed: Vec<WebhookConfiguration>) -> (requests: Vec<
    ApplyWebhookConfiguration,
>)
    ensures
        requests.deep_view() == managed.deep_view().map_values(
            |c: WebhookConfigurationView| restamp_of(c),
        ),
{
    let ghost all = managed.deep_view();
    let mut managed = managed;
    let mut requests: Vec<ApplyWebhookConfiguration> = Vec::new();
    let n = managed.len();
    let mut k: usize = 0;
    while k < n
        invariant
            k <= n,
            n == all.len(),
            managed.len() == n - k,
            managed.deep_view() == all.skip(k as int),
            requests.len() == k,
            forall|m: int| 0 <= m < k ==> (#[trigger] requests.deep_view()[m]) == restamp_of(all[m]),
        decreases n - k,
    {
        let ghost left = managed.deep_view();
        let ghost before = requests.deep_view();
        let c = managed.remove(0);
        assert(managed.deep_view() =~= left.remove(0));
        assert(left.remove(0) =~= all.skip(k + 1));
        assert(c@ == left[0]);
        let name = match &c.metadata.name {
            Some(n) => n.clone(),
            None => String::new(),
        };
        let request = ApplyWebhookConfiguration {
            field_manager: String::from_str(c.kind.manager()),
            name,
            configuration: mark_for_update(c),
        };
        requests.push(request);
        assert(requests.deep_view() =~= before.push(request@));
        k += 1;
    }
    assert(requests.deep_view() =~= all.map_values(|c: WebhookConfigurationView| restamp_of(c)));
    requests
}

/// The configurations that the cluster holds, by kind and name.
pub type Store = Map<(RuleKind, Seq<char>), WebhookConfigurationView>;

/// The store after a request has been applied: the configuration stands
/// under its kind and name, in place of what was there.
pub open spec fn applied(store: Store, request: ApplyWebhookConfigurationView) -> Store {
    store.insert((request.configuration.kind, request.name), request.configuration)
}

/// Whether applying `request` writes anything that the store does not hold.
pub open spec fn changes(store: Store, request: ApplyWebhookConfigurationView) -> bool {
    applied(store, request) != store
}

/// Reconciling is idempotent: once a rule has been reconciled, reconciling
/// it again with the same rule, configuration and CA bundle asks for the same
/// configuration, and applying that changes nothing in the store.
pub proof fn lemma_reconcile_idempotent(
    store: Store,
    kind: RuleKind,
    metadata: ObjectMetaView,
    oref: OwnerReferenceView,
    spec: RuleSpecView,
    config: ControllerConfigView,
    ca_bundle: Seq<u8>,
)
    requires
        reconciled(kind, metadata, oref, spec, config, ca_bundle) is Ok,
    ensures
        ({
            let request = reconciled(kind, metadata, oref, spec, config, ca_bundle)->Ok_0;
            &&& !changes(applied(store, request), request)
            &&& applied(applied(store, request), request) == applied(store, request)
            &&& applied(store, request)[(kind, metadata.name.unwrap())] == webhook_configuration_of(
                kind,
                metadata.name.unwrap(),
                oref,
                spec,
                config,
                ca_bundle,
            )
        }),
{
    let request = reconciled(kind, metadata, oref, spec, config, ca_bundle)->Ok_0;
    assert(applied(applied(store, request), request) =~= applied(store, request));
}

/// A rule's configuration has exactly one webhook, and that webhook carries
/// the CA bundle with which the configuration was made. So after the bundle
/// has been reloaded with `content`, every configuration that is reconciled
/// with the bundle carries `content`.
pub proof fn lemma_configuration_carries_bundle(
    kind: RuleKind,
    name: Seq<char>,
    oref: OwnerReferenceView,
    spec: RuleSpecView,
    config: ControllerConfigView,
    ca_bundle: Seq<u8>,
)
    ensures
        ({
            let c = webhook_configuration_of(kind, name, oref, spec, config, ca_bundle);
            &&& c.webhooks is Some
            &&& c.webhooks.unwrap().len() == 1
            &&& c.webhooks.unwrap()[0].client_config.ca_bundle == Some(ca_bundle)
            &&& c.metadata.name == Some(name)
            &&& c.metadata.owner_references == Some(seq![oref])
            &&& c.metadata.labels.unwrap().dom().contains(kind.label_key())
            &&& c.metadata.labels.unwrap()[kind.label_key()] == name
        }),
{
}

/// A rule as the reconciler sees it: its kind, its metadata, the reference
/// by which it owns its configuration, and what it specifies.
pub struct ObservedRule {
    pub kind: RuleKind,
    pub metadata: ObjectMetaView,
    pub oref: OwnerReferenceView,
    pub spec: RuleSpecView,
}

impl ObservedRule {
    /// The configuration of the rule, given that it has a name.
    pub open spec fn configuration(self, config: ControllerConfigView, ca_bundle: Seq<u8>) -> WebhookConfigurationView {
        webhook_configuration_of(
            self.kind,
            self.metadata.name.unwrap(),
            self.oref,
            self.spec,
            config,
            ca_bundle,
        )
    }

    /// The kind and name under which the rule's configuration stands.
    pub open spec fn key(self) -> (RuleKind, Seq<char>) {
        (self.kind, self.metadata.name.unwrap())
    }
}

/// The store after each of the rules has been reconciled once, in their
/// order, with the CA bundle `ca_bundle`. A rule without a name leaves the
/// store as it is.
pub open spec fn reconciled_all(
    store: Store,
    rules: Seq<ObservedRule>,
    config: ControllerConfigView,
    ca_bundle: Seq<u8>,
) -> Store
    decreases rules.len(),
{
    if rules.len() == 0 {
        store
    } else {
        let before = reconciled_all(store, rules.drop_last(), config, ca_bundle);
        let r = rules.last();
        match reconciled(r.kind, r.metadata, r.oref, r.spec, config, ca_bundle) {
            Ok(request) => applied(before, request),
            Err(_) => before,
        }
    }
}

/// Whether no two of the rules have the same kind and name.
pub open spec fn distinct_rules(rules: Seq<ObservedRule>) -> bool {
    forall|i: int, j: int|
        0 <= i < j < rules.len() && (#[trigger] rules[i]).metadata.name is Some && (
        #[trigger] rules[j]).metadata.name is Some ==> rules[i].key() != rules[j].key()
}

/// Once every rule has been reconciled with the active CA bundle, the
/// store holds for every rule its configuration, and that carries the
/// bundle: after the bundle has changed and the reconciler has gone through
/// the rules, no configuration is left with an older one.
pub proof fn lemma_bundle_reaches_every_configuration(
    store: Store,
    rules: Seq<ObservedRule>,
    config: ControllerConfigView,
    ca_bundle: Seq<u8>,
    i: int,
)
    requires
        distinct_rules(rules),
        0 <= i < rules.len(),
        rules[i].metadata.name is Some,
    ensures
        ({
            let after = reconciled_all(store, rules, config, ca_bundle);
            &&& after.dom().contains(rules[i].key())
            &&& after[rules[i].key()] == rules[i].configuration(config, ca_bundle)
            &&& after[rules[i].key()].webhooks.unwrap().len() == 1
            &&& after[rules[i].key()].webhooks.unwrap()[0].client_config.ca_bundle == Some(
                ca_bundle,
            )
        }),
    decreases rules.len(),
{
    if i < rules.len() - 1 {
        assert(rules.drop_last()[i] == rules[i]);
        assert(distinct_rules(rules.drop_last())) by {
            assert forall|a: int, b: int|
                0 <= a < b < rules.drop_last().len() && (
                #[trigger] rules.drop_last()[a]).metadata.name is Some && (
                #[trigger] rules.drop_last()[b]).metadata.name is Some implies rules.drop_last()[a].key()
                != rules.drop_last()[b].key() by {
                assert(rules.drop_last()[a] == rules[a] && rules.drop_last()[b] == rules[b]);
            }
        }
        lemma_bundle_reaches_every_configuration(store, rules.drop_last(), config, ca_bundle, i);
        let last = rules[rules.len() - 1];
        assert(rules.last() == last);
        if last.metadata.name is Some {
            assert(rules[i].key() != last.key());
        }
    }
}

/// A store that holds the configuration of every rule does not change when
/// the first `n` of the rules are reconciled.
proof fn lemma_reconcile_absorbed(
    store: Store,
    rules: Seq<ObservedRule>,
    n: int,
    config: ControllerConfigView,
    ca_bundle: Seq<u8>,
)
    requires
        0 <= n <= rules.len(),
        forall|i: int|
            0 <= i < rules.len() && (#[trigger] rules[i]).metadata.name is Some
                ==> store.dom().contains(rules[i].key()) && store[rules[i].key()]
                == rules[i].configuration(config, ca_bundle),
    ensures
        reconciled_all(store, rules.take(n), config, ca_bundle) == store,
    decreases n,
{
    if n == 0 {
        assert(rules.take(0) =~= Seq::empty());
    } else {
        lemma_reconcile_absorbed(store, rules, n - 1, config, ca_bundle);
        assert(rules.take(n).drop_last() =~= rules.take(n - 1));
        let r = rules[n - 1];
        assert(rules.take(n).last() == r);
        match reconciled(r.kind, r.metadata, r.oref, r.spec, config, ca_bundle) {
            Ok(request) => {
                assert(applied(store, request) =~= store);
            },
            Err(_) => {},
        }
    }
}

/// Reconciling is idempotent over all rules: once every rule has been
/// reconciled, reconciling every rule again, with unchanged rules,
/// configuration and CA bundle, changes nothing in the store.
pub proof fn lemma_reconcile_all_idempotent(
    store: Store,
    rules: Seq<ObservedRule>,
    config: ControllerConfigView,
    ca_bundle: Seq<u8>,
)
    requires
        distinct_rules(rules),
    ensures
        reconciled_all(reconciled_all(store, rules, config, ca_bundle), rules, config, ca_bundle)
            == reconciled_all(store, rules, config, ca_bundle),
{
    let once = reconciled_all(store, rules, config, ca_bundle);
    assert forall|i: int|
        0 <= i < rules.len() && (#[trigger] rules[i]).metadata.name is Some implies once.dom().contains(
        rules[i].key(),
    ) && once[rules[i].key()] == rules[i].configuration(config, ca_bundle) by {
        lemma_bundle_reaches_every_configuration(store, rules, config, ca_bundle, i);
    }
    lemma_reconcile_absorbed(once, rules, rules.len() as int, config, ca_bundle);
    assert(rules.take(rules.len() as int) =~= rules);
}

} // verus!
