//! Configuration of the three processes.

use crate::types::policy::{
    CronPolicyNotification, CronPolicyNotificationView, CronPolicyResource, CronPolicyResourceView,
};
use vstd::prelude::*;
use vstd::string::*;

verus! {

/// The address that the webhook server listens on where none is configured.
pub fn default_listen_addr() -> (r: String)
    ensures
        r@ == "[::]:3000"@,
{
    String::from_str("[::]:3000")
}

/// Configuration of the controller.
#[derive(Debug, PartialEq, Eq)]
pub struct ControllerConfig {
    /// Namespace of the service in front of the webhook server.
    pub service_namespace: String,
    /// Name of that service.
    pub service_name: String,
    /// Port of that service.
    pub service_port: i32,
    /// Path of the PEM file with the CA bundle of the webhook server.
    pub ca_bundle_path: String,
    /// Container image of the audit worker.
    pub checker_image: String,
}

/// The view of [`ControllerConfig`]: strings as sequences of characters, lists as sequences.
pub struct ControllerConfigView {
    pub service_namespace: Seq<char>,
    pub service_name: Seq<char>,
    pub service_port: i32,
    pub ca_bundle_path: Seq<char>,
    pub checker_image: Seq<char>,
}

impl DeepView for ControllerConfig {
    type V = ControllerConfigView;

    open spec fn deep_view(&self) -> ControllerConfigView {
        ControllerConfigView {
            service_namespace: self.service_namespace.deep_view(),
            service_name: self.service_name.deep_view(),
            service_port: self.service_port,
            ca_bundle_path: self.ca_bundle_path.deep_view(),
            checker_image: self.checker_image.deep_view(),
        }
    }
}

impl View for ControllerConfig {
    type V = ControllerConfigView;

    open spec fn view(&self) -> ControllerConfigView {
        self.deep_view()
    }
}

impl Clone for ControllerConfig {
    fn clone(&self) -> (r: Self)
        ensures
            r@ == self@,
    {
        ControllerConfig {
            service_namespace: self.service_namespace.clone(),
            service_name: self.service_name.clone(),
            service_port: self.service_port,
            ca_bundle_path: self.ca_bundle_path.clone(),
            checker_image: self.checker_image.clone(),
        }
    }
}

/// Configuration of the webhook server.
#[derive(Debug, PartialEq, Eq)]
pub struct WebhookConfig {
    /// Path of the certificate for HTTPS.
    pub cert_path: String,
    /// Path of the certificate's key.
    pub key_path: String,
    /// Address to listen on.
    pub listen_addr: String,
}

/// The view of [`WebhookConfig`]: strings as sequences of characters, lists as sequences.
pub struct WebhookConfigView {
    pub cert_path: Seq<char>,
    pub key_path: Seq<char>,
    pub listen_addr: Seq<char>,
}

impl DeepView for WebhookConfig {
    type V = WebhookConfigView;

    open spec fn deep_view(&self) -> WebhookConfigView {
        WebhookConfigView {
            cert_path: self.cert_path.deep_view(),
            key_path: self.key_path.deep_view(),
            listen_addr: self.listen_addr.deep_view(),
        }
    }
}

impl View for WebhookConfig {
    type V = WebhookConfigView;

    open spec fn view(&self) -> WebhookConfigView {
        self.deep_view()
    }
}

impl Clone for WebhookConfig {
    fn clone(&self) -> (r: Self)
        ensures
            r@ == self@,
    {
        WebhookConfig {
            cert_path: self.cert_path.clone(),
            key_path: self.key_path.clone(),
            listen_addr: self.listen_addr.clone(),
        }
    }
}

/// Configuration of the audit worker.
#[derive(Debug, PartialEq, Eq)]
pub struct CheckerConfig {
    /// Name of the policy.
    pub policy_name: String,
    /// The resources to check.
    pub resources: Vec<CronPolicyResource>,
    /// The script to evaluate on the resources.
    pub code: String,
    /// The notifications to send when the check fails.
    pub notifications: CronPolicyNotification,
}

/// The view of [`CheckerConfig`]: strings as sequences of characters, lists as sequences.
pub struct CheckerConfigView {
    pub policy_name: Seq<char>,
    pub resources: Seq<CronPolicyResourceView>,
    pub code: Seq<char>,
    pub notifications: CronPolicyNotificationView,
}

impl DeepView for CheckerConfig {
    type V = CheckerConfigView;

    open spec fn deep_view(&self) -> CheckerConfigView {
        CheckerConfigView {
            policy_name: self.policy_name.deep_view(),
            resources: self.resources.deep_view(),
            code: self.code.deep_view(),
            notifications: self.notifications.deep_view(),
        }
    }
}

impl View for CheckerConfig {
    type V = CheckerConfigView;

    open spec fn view(&self) -> CheckerConfigView {
        self.deep_view()
    }
}

impl Clone for CheckerConfig {
    fn clone(&self) -> (r: Self)
        ensures
            r@ == self@,
    {
        let resources = self.resources.clone();
        assert(resources.deep_view() =~= self.resources.deep_view());
        CheckerConfig {
            policy_name: self.policy_name.clone(),
            resources,
            code: self.code.clone(),
            notifications: self.notifications.clone(),
        }
    }
}

} // verus!
