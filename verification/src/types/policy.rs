//! Cron policies: resources that a script checks on a schedule.

use crate::types::labels::Labels;
use crate::types::object::{ObjectMeta, ObjectMetaView};
use vstd::prelude::*;
use vstd::string::*;

verus! {

/// Parameters that restrict a listing of resources.
#[derive(Debug, PartialEq, Eq)]
pub struct CronPolicyResourceListParams {
    /// Restricts the resources by their labels; all where none is given.
    pub label_selector: Option<String>,
    /// Restricts the resources by their fields; all where none is given.
    pub field_selector: Option<String>,
}

/// The view of [`CronPolicyResourceListParams`]: strings as sequences of characters, lists as sequences.
pub struct CronPolicyResourceListParamsView {
    pub label_selector: Option<Seq<char>>,
    pub field_selector: Option<Seq<char>>,
}

impl DeepView for CronPolicyResourceListParams {
    type V = CronPolicyResourceListParamsView;

    open spec fn deep_view(&self) -> CronPolicyResourceListParamsView {
        CronPolicyResourceListParamsView {
            label_selector: self.label_selector.deep_view(),
            field_selector: self.field_selector.deep_view(),
        }
    }
}

impl View for CronPolicyResourceListParams {
    type V = CronPolicyResourceListParamsView;

    open spec fn view(&self) -> CronPolicyResourceListParamsView {
        self.deep_view()
    }
}

impl Clone for CronPolicyResourceListParams {
    fn clone(&self) -> (r: Self)
        ensures
            r@ == self@,
    {
        CronPolicyResourceListParams {
            label_selector: self.label_selector.clone(),
            field_selector: self.field_selector.clone(),
        }
    }
}

/// Selects the resources that a policy checks.
#[derive(Debug, PartialEq, Eq)]
pub struct CronPolicyResource {
    /// API group of the resources; found by discovery where none is given.
    pub group: Option<String>,
    /// API version of the resources; found by discovery where none is given.
    pub version: Option<String>,
    /// Kind of the resources.
    pub kind: String,
    /// Plural name; derived from the kind where none is given.
    pub plural: Option<String>,
    /// Namespace of the resources; all namespaces where none is given.
    pub namespace: Option<String>,
    /// Name of one resource; with it the script gets that object, without it a list.
    pub name: Option<String>,
    /// Parameters of the listing.
    pub list_params: Option<CronPolicyResourceListParams>,
}

/// The view of [`CronPolicyResource`]: strings as sequences of characters, lists as sequences.
pub struct CronPolicyResourceView {
    pub group: Option<Seq<char>>,
    pub version: Option<Seq<char>>,
    pub kind: Seq<char>,
    pub plural: Option<Seq<char>>,
    pub namespace: Option<Seq<char>>,
    pub name: Option<Seq<char>>,
    pub list_params: Option<CronPolicyResourceListParamsView>,
}

impl DeepView for CronPolicyResource {
    type V = CronPolicyResourceView;

    open spec fn deep_view(&self) -> CronPolicyResourceView {
        CronPolicyResourceView {
            group: self.group.deep_view(),
            version: self.version.deep_view(),
            kind: self.kind.deep_view(),
            plural: self.plural.deep_view(),
            namespace: self.namespace.deep_view(),
            name: self.name.deep_view(),
            list_params: self.list_params.deep_view(),
        }
    }
}

impl View for CronPolicyResource {
    type V = CronPolicyResourceView;

    open spec fn view(&self) -> CronPolicyResourceView {
        self.deep_view()
    }
}

impl Clone for CronPolicyResource {
    fn clone(&self) -> (r: Self)
        ensures
            r@ == self@,
    {
        CronPolicyResource {
            group: self.group.clone(),
            version: self.version.clone(),
            kind: self.kind.clone(),
            plural: self.plural.clone(),
            namespace: self.namespace.clone(),
            name: self.name.clone(),
            list_params: self.list_params.clone(),
        }
    }
}

/// Restart policy of the containers of the audit job.
#[derive(Clone, Copy, Debug, PartialEq, Eq, Structural)]
pub enum RestartPolicy {
    OnFailure,
    Never,
}

impl DeepView for RestartPolicy {
    type V = RestartPolicy;

    open spec fn deep_view(&self) -> RestartPolicy {
        *self
    }
}

impl View for RestartPolicy {
    type V = RestartPolicy;

    open spec fn view(&self) -> RestartPolicy {
        *self
    }
}

/// HTTP method of a webhook notification.
#[derive(Clone, Copy, Debug, PartialEq, Eq, Structural)]
pub enum CronPolicyNotificationWebhookMethod {
    Get,
    Head,
    Post,
    Put,
    Delete,
    Connect,
    Options,
    Trace,
    Patch,
}

impl DeepView for CronPolicyNotificationWebhookMethod {
    type V = CronPolicyNotificationWebhookMethod;

    open spec fn deep_view(&self) -> CronPolicyNotificationWebhookMethod {
        *self
    }
}

impl View for CronPolicyNotificationWebhookMethod {
    type V = CronPolicyNotificationWebhookMethod;

    open spec fn view(&self) -> CronPolicyNotificationWebhookMethod {
        *self
    }
}

/// A webhook to call when a policy check fails.
#[derive(Debug, PartialEq, Eq)]
pub struct CronPolicyNotificationWebhook {
    /// URL of the webhook.
    pub url: String,
    /// HTTP method of the request; `Post` where none is given.
    pub method: CronPolicyNotificationWebhookMethod,
    /// Further HTTP headers of the request.
    pub headers: Labels,
    /// Template of the request body.
    pub body: String,
}

/// The view of [`CronPolicyNotificationWebhook`]: strings as sequences of characters, lists as sequences.
pub struct CronPolicyNotificationWebhookView {
    pub url: Seq<char>,
    pub method: CronPolicyNotificationWebhookMethod,
    pub headers: Map<Seq<char>, Seq<char>>,
    pub body: Seq<char>,
}

impl DeepView for CronPolicyNotificationWebhook {
    type V = CronPolicyNotificationWebhookView;

    open spec fn deep_view(&self) -> CronPolicyNotificationWebhookView {
        CronPolicyNotificationWebhookView {
            url: self.url.deep_view(),
            method: self.method,
            headers: self.headers.deep_view(),
            body: self.body.deep_view(),
        }
    }
}

impl View for CronPolicyNotificationWebhook {
    type V = CronPolicyNotificationWebhookView;

    open spec fn view(&self) -> CronPolicyNotificationWebhookView {
        self.deep_view()
    }
}

impl Clone for CronPolicyNotificationWebhook {
    fn clone(&self) -> (r: Self)
        ensures
            r@ == self@,
    {
        CronPolicyNotificationWebhook {
            url: self.url.clone(),
            method: self.method,
            headers: self.headers.clone(),
            body: self.body.clone(),
        }
    }
}

/// A Slack incoming webhook to notify when a policy check fails.
#[derive(Debug, PartialEq, Eq)]
pub struct CronPolicyNotificationSlack {
    /// URL of the Slack incoming webhook.
    pub webhook_url: String,
    /// Template of the message.
    pub message: String,
}

/// The view of [`CronPolicyNotificationSlack`]: strings as sequences of characters, lists as sequences.
pub struct CronPolicyNotificationSlackView {
    pub webhook_url: Seq<char>,
    pub message: Seq<char>,
}

impl DeepView for CronPolicyNotificationSlack {
    type V = CronPolicyNotificationSlackView;

    open spec fn deep_view(&self) -> CronPolicyNotificationSlackView {
        CronPolicyNotificationSlackView {
            webhook_url: self.webhook_url.deep_view(),
            message: self.message.deep_view(),
        }
    }
}

impl View for CronPolicyNotificationSlack {
    type V = CronPolicyNotificationSlackView;

    open spec fn view(&self) -> CronPolicyNotificationSlackView {
        self.deep_view()
    }
}

impl Clone for CronPolicyNotificationSlack {
    fn clone(&self) -> (r: Self)
        ensures
            r@ == self@,
    {
        CronPolicyNotificationSlack {
            webhook_url: self.webhook_url.clone(),
            message: self.message.clone(),
        }
    }
}

/// The notifications to send when a policy check fails.
#[derive(Debug, PartialEq, Eq)]
pub struct CronPolicyNotification {
    /// A Slack webhook.
    pub slack: Option<CronPolicyNotificationSlack>,
    /// A custom webhook.
    pub webhook: Option<CronPolicyNotificationWebhook>,
}

/// The view of [`CronPolicyNotification`]: strings as sequences of characters, lists as sequences.
pub struct CronPolicyNotificationView {
    pub slack: Option<CronPolicyNotificationSlackView>,
    pub webhook: Option<CronPolicyNotificationWebhookView>,
}

impl DeepView for CronPolicyNotification {
    type V = CronPolicyNotificationView;

    open spec fn deep_view(&self) -> CronPolicyNotificationView {
        CronPolicyNotificationView {
            slack: self.slack.deep_view(),
            webhook: self.webhook.deep_view(),
        }
    }
}

impl View for CronPolicyNotification {
    type V = CronPolicyNotificationView;

    open spec fn view(&self) -> CronPolicyNotificationView {
        self.deep_view()
    }
}

impl Clone for CronPolicyNotification {
    fn clone(&self) -> (r: Self)
        ensures
            r@ == self@,
    {
        CronPolicyNotification {
            slack: self.slack.clone(),
            webhook: self.webhook.clone(),
        }
    }
}

/// What a cron policy specifies: resources that a script checks on a schedule.
#[derive(Debug, PartialEq, Eq)]
pub struct CronPolicySpec {
    /// Whether later runs are suspended.
    pub suspend: bool,
    /// The schedule, in cron format.
    pub schedule: String,
    /// The resources to check.
    pub resources: Vec<CronPolicyResource>,
    /// The script to evaluate on the resources.
    pub code: String,
    /// The notifications to send when the check fails.
    pub notifications: CronPolicyNotification,
    /// Namespace of the scheduled job; "default" where none is given.
    pub namespace: String,
    /// Restart policy of the job's containers.
    pub restart_policy: RestartPolicy,
}

/// The view of [`CronPolicySpec`]: strings as sequences of characters, lists as sequences.
pub struct CronPolicySpecView {
    pub suspend: bool,
    pub schedule: Seq<char>,
    pub resources: Seq<CronPolicyResourceView>,
    pub code: Seq<char>,
    pub notifications: CronPolicyNotificationView,
    pub namespace: Seq<char>,
    pub restart_policy: RestartPolicy,
}

impl DeepView for CronPolicySpec {
    type V = CronPolicySpecView;

    open spec fn deep_view(&self) -> CronPolicySpecView {
        CronPolicySpecView {
            suspend: self.suspend,
            schedule: self.schedule.deep_view(),
            resources: self.resources.deep_view(),
            code: self.code.deep_view(),
            notifications: self.notifications.deep_view(),
            namespace: self.namespace.deep_view(),
            restart_policy: self.restart_policy,
        }
    }
}

impl View for CronPolicySpec {
    type V = CronPolicySpecView;

    open spec fn view(&self) -> CronPolicySpecView {
        self.deep_view()
    }
}

impl Clone for CronPolicySpec {
    fn clone(&self) -> (r: Self)
        ensures
            r@ == self@,
    {
        let resources = self.resources.clone();
        assert(resources.deep_view() =~= self.resources.deep_view());
        CronPolicySpec {
            suspend: self.suspend,
            schedule: self.schedule.clone(),
            resources,
            code: self.code.clone(),
            notifications: self.notifications.clone(),
            namespace: self.namespace.clone(),
            restart_policy: self.restart_policy,
        }
    }
}

/// A cron policy as the cluster holds it.
#[derive(Debug, PartialEq, Eq)]
pub struct CronPolicy {
    /// Metadata of the policy.
    pub metadata: ObjectMeta,
    /// What the policy specifies.
    pub spec: CronPolicySpec,
}

/// The view of [`CronPolicy`]: strings as sequences of characters, lists as sequences.
pub struct CronPolicyView {
    pub metadata: ObjectMetaView,
    pub spec: CronPolicySpecView,
}

impl DeepView for CronPolicy {
    type V = CronPolicyView;

    open spec fn deep_view(&self) -> CronPolicyView {
        CronPolicyView {
            metadata: self.metadata.deep_view(),
            spec: self.spec.deep_view(),
        }
    }
}

impl View for CronPolicy {
    type V = CronPolicyView;

    open spec fn view(&self) -> CronPolicyView {
        self.deep_view()
    }
}

impl Clone for CronPolicy {
    fn clone(&self) -> (r: Self)
        ensures
            r@ == self@,
    {
        CronPolicy {
            metadata: self.metadata.clone(),
            spec: self.spec.clone(),
        }
    }
}

/// The status of a cron policy; it holds nothing.
#[derive(Clone, Copy, Debug, PartialEq, Eq)]
pub struct CronPolicyStatus {}

/// The namespace of the scheduled job where a policy names none.
pub fn default_cronpolicyspec_namespace() -> (r: String)
    ensures
        r@ == "default"@,
{
    String::from_str("default")
}

impl RestartPolicy {
    /// The name of the policy as the orchestrator writes it.
    pub open spec fn name(self) -> Seq<char> {
        match self {
            RestartPolicy::OnFailure => "OnFailure"@,
            RestartPolicy::Never => "Never"@,
        }
    }

    /// The name of the policy as the orchestrator writes it.
    pub fn to_string(&self) -> (r: String)
        ensures
            r@ == self.name(),
    {
        match self {
            RestartPolicy::OnFailure => String::from_str("OnFailure"),
            RestartPolicy::Never => String::from_str("Never"),
        }
    }
}

impl CronPolicyNotificationWebhookMethod {
    /// The name of the method as HTTP writes it.
    pub open spec fn name(self) -> Seq<char> {
        match self {
            CronPolicyNotificationWebhookMethod::Get => "GET"@,
            CronPolicyNotificationWebhookMethod::Head => "HEAD"@,
            CronPolicyNotificationWebhookMethod::Post => "POST"@,
            CronPolicyNotificationWebhookMethod::Put => "PUT"@,
            CronPolicyNotificationWebhookMethod::Delete => "DELETE"@,
            CronPolicyNotificationWebhookMethod::Connect => "CONNECT"@,
            CronPolicyNotificationWebhookMethod::Options => "OPTIONS"@,
            CronPolicyNotificationWebhookMethod::Trace => "TRACE"@,
            CronPolicyNotificationWebhookMethod::Patch => "PATCH"@,
        }
    }

    /// The name of the method as HTTP writes it.
    pub fn to_string(&self) -> (r: String)
        ensures
            r@ == self.name(),
    {
        match self {
            CronPolicyNotificationWebhookMethod::Get => String::from_str("GET"),
            CronPolicyNotificationWebhookMethod::Head => String::from_str("HEAD"),
            CronPolicyNotificationWebhookMethod::Post => String::from_str("POST"),
            CronPolicyNotificationWebhookMethod::Put => String::from_str("PUT"),
            CronPolicyNotificationWebhookMethod::Delete => String::from_str("DELETE"),
            CronPolicyNotificationWebhookMethod::Connect => String::from_str("CONNECT"),
            CronPolicyNotificationWebhookMethod::Options => String::from_str("OPTIONS"),
            CronPolicyNotificationWebhookMethod::Trace => String::from_str("TRACE"),
            CronPolicyNotificationWebhookMethod::Patch => String::from_str("PATCH"),
        }
    }
}

impl Default for CronPolicyNotificationWebhookMethod {
    fn default() -> (r: Self)
        ensures
            r == CronPolicyNotificationWebhookMethod::Post,
    {
        CronPolicyNotificationWebhookMethod::Post
    }
}

impl Default for CronPolicyResourceListParams {
    fn default() -> (r: Self)
        ensures
            r@ == (CronPolicyResourceListParamsView { label_selector: None, field_selector: None }),
    {
        CronPolicyResourceListParams { label_selector: None, field_selector: None }
    }
}

} // verus!
