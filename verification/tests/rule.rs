use checkpoint::config::ControllerConfig;
use checkpoint::reconcile::rule::{
    bytes_eq, mark_for_update, reconcile_mutatingrule, reconcile_validatingrule,
    reload_ca_bundle, webhook_client_config, webhook_configuration, CaBundle, Error, RuleKind,
    WebhookConfiguration, MUTATINGRULE_OWNED_LABEL_KEY, SHOULD_UPDATE_ANNOTATION_KEY,
    VALIDATINGRULE_OWNED_LABEL_KEY,
};
use checkpoint::types::labels::Labels;
use checkpoint::types::object::{ObjectMeta, OwnerReference};
use checkpoint::types::rule::{
    FailurePolicy, LabelSelector, LabelSelectorRequirement, MutatingRule, MutatingRuleSpec,
    RuleSpec, RuleWithOperations, ServiceAccountInfo, ValidatingRule, ValidatingRuleSpec,
};

fn config() -> ControllerConfig {
    ControllerConfig {
        service_namespace: "checkpoint".to_string(),
        service_name: "webhook".to_string(),
        service_port: 8443,
        ca_bundle_path: "/tls/ca.crt".to_string(),
        checker_image: "registry/checker:1".to_string(),
    }
}

fn owner(kind: &str) -> OwnerReference {
    OwnerReference {
        api_version: "checkpoint.devsisters.com/v1".to_string(),
        kind: kind.to_string(),
        name: "team-label".to_string(),
        uid: "u-1".to_string(),
        controller: Some(true),
        block_owner_deletion: None,
    }
}

fn rule_spec() -> RuleSpec {
    RuleSpec {
        failure_policy: Some(FailurePolicy::Ignore),
        namespace_selector: Some(LabelSelector {
            match_expressions: Some(vec![LabelSelectorRequirement {
                key: "env".to_string(),
                operator: "In".to_string(),
                values: Some(vec!["prod".to_string()]),
            }]),
            match_labels: None,
        }),
        object_selector: Some(LabelSelector {
            match_expressions: None,
            match_labels: Some(Labels::single("app".to_string(), "web".to_string())),
        }),
        object_rules: Some(vec![RuleWithOperations {
            api_groups: Some(vec!["".to_string()]),
            api_versions: Some(vec!["v1".to_string()]),
            operations: Some(vec!["CREATE".to_string()]),
            resources: Some(vec!["pods".to_string()]),
            scope: None,
        }]),
        timeout_seconds: Some(7),
        service_account: Some(ServiceAccountInfo {
            namespace: "checkpoint".to_string(),
            name: "reader".to_string(),
        }),
        code: "return {}".to_string(),
    }
}

fn meta(name: Option<&str>) -> ObjectMeta {
    ObjectMeta {
        name: name.map(|n| n.to_string()),
        namespace: None,
        owner_references: None,
        labels: None,
        annotations: None,
    }
}

#[test]
fn client_config_points_at_the_service_with_the_bundle() {
    let c = webhook_client_config(&config(), vec![1, 2, 3], "validate", "team-label");
    assert_eq!(c.ca_bundle, Some(vec![1, 2, 3]));
    assert_eq!(c.url, None);
    let s = c.service.unwrap();
    assert_eq!(s.namespace, "checkpoint");
    assert_eq!(s.name, "webhook");
    assert_eq!(s.port, Some(8443));
    assert_eq!(s.path, Some("/validate/team-label".to_string()));
}

#[test]
fn validating_configuration_mirrors_the_rule() {
    let c = webhook_configuration(
        RuleKind::Validating,
        "team-label".to_string(),
        owner("ValidatingRule"),
        &rule_spec(),
        &config(),
        b"BUNDLE".to_vec(),
    );
    assert_eq!(c.kind, RuleKind::Validating);
    assert_eq!(c.metadata.name, Some("team-label".to_string()));
    assert_eq!(c.metadata.namespace, None);
    assert_eq!(c.metadata.owner_references, Some(vec![owner("ValidatingRule")]));
    let labels = c.metadata.labels.unwrap();
    assert_eq!(labels.len(), 1);
    assert_eq!(labels.get(VALIDATINGRULE_OWNED_LABEL_KEY), Some("team-label".to_string()));
    let hooks = c.webhooks.unwrap();
    assert_eq!(hooks.len(), 1);
    let h = &hooks[0];
    assert_eq!(h.name, "team-label.validatingwebhook.checkpoint.devsisters.com");
    assert_eq!(h.failure_policy, Some("Ignore".to_string()));
    assert_eq!(h.namespace_selector, rule_spec().namespace_selector);
    assert_eq!(h.object_selector, rule_spec().object_selector);
    assert_eq!(h.rules, rule_spec().object_rules);
    assert_eq!(h.timeout_seconds, Some(7));
    assert_eq!(h.admission_review_versions, vec!["v1".to_string()]);
    assert_eq!(h.side_effects, "None");
    assert_eq!(h.client_config.ca_bundle, Some(b"BUNDLE".to_vec()));
    assert_eq!(
        h.client_config.service.as_ref().unwrap().path,
        Some("/validate/team-label".to_string())
    );
}

#[test]
fn mutating_configuration_has_its_own_label_path_and_name() {
    let mut spec = rule_spec();
    spec.failure_policy = None;
    let c = webhook_configuration(
        RuleKind::Mutating,
        "tier".to_string(),
        owner("MutatingRule"),
        &spec,
        &config(),
        Vec::new(),
    );
    assert_eq!(c.kind, RuleKind::Mutating);
    assert_eq!(
        c.metadata.labels.unwrap().get(MUTATINGRULE_OWNED_LABEL_KEY),
        Some("tier".to_string())
    );
    let hooks = c.webhooks.unwrap();
    assert_eq!(hooks[0].name, "tier.mutatingwebhook.checkpoint.devsisters.com");
    assert_eq!(hooks[0].failure_policy, None);
    assert_eq!(
        hooks[0].client_config.service.as_ref().unwrap().path,
        Some("/mutate/tier".to_string())
    );
    assert_eq!(hooks[0].client_config.ca_bundle, Some(Vec::new()));
}

#[test]
fn failure_policy_names_and_default() {
    assert_eq!(FailurePolicy::Fail.to_string(), "Fail");
    assert_eq!(FailurePolicy::Ignore.to_string(), "Ignore");
    assert_eq!(FailurePolicy::default(), FailurePolicy::Fail);
}

#[test]
fn reconcile_asks_to_apply_under_the_kinds_field_manager() {
    let vr = ValidatingRule { metadata: meta(Some("team-label")), spec: ValidatingRuleSpec(rule_spec()) };
    let req = reconcile_validatingrule(&vr, owner("ValidatingRule"), &config(), b"B".to_vec()).unwrap();
    assert_eq!(req.field_manager, "validatingrule.checkpoint.devsisters.com");
    assert_eq!(req.name, "team-label");
    assert_eq!(
        req.configuration,
        webhook_configuration(
            RuleKind::Validating,
            "team-label".to_string(),
            owner("ValidatingRule"),
            &rule_spec(),
            &config(),
            b"B".to_vec()
        )
    );
    let mr = MutatingRule { metadata: meta(Some("tier")), spec: MutatingRuleSpec(rule_spec()) };
    let req = reconcile_mutatingrule(&mr, owner("MutatingRule"), &config(), b"B".to_vec()).unwrap();
    assert_eq!(req.field_manager, "mutatingrule.checkpoint.devsisters.com");
    assert_eq!(req.name, "tier");
    assert_eq!(req.configuration.kind, RuleKind::Mutating);
}

#[test]
fn reconcile_twice_asks_for_the_same_configuration() {
    let vr = ValidatingRule { metadata: meta(Some("team-label")), spec: ValidatingRuleSpec(rule_spec()) };
    let a = reconcile_validatingrule(&vr, owner("ValidatingRule"), &config(), b"B".to_vec()).unwrap();
    let b = reconcile_validatingrule(&vr, owner("ValidatingRule"), &config(), b"B".to_vec()).unwrap();
    assert_eq!(a, b);
}

#[test]
fn reconcile_fails_for_a_rule_without_a_name() {
    let vr = ValidatingRule { metadata: meta(None), spec: ValidatingRuleSpec(rule_spec()) };
    let err = reconcile_validatingrule(&vr, owner("ValidatingRule"), &config(), Vec::new()).unwrap_err();
    assert_eq!(err, Error::MissingObjectKey(".metadata.name".to_string()));
    assert_eq!(err.to_string(), "MissingObjectKey: .metadata.name");
    let mr = MutatingRule { metadata: meta(None), spec: MutatingRuleSpec(rule_spec()) };
    let err = reconcile_mutatingrule(&mr, owner("MutatingRule"), &config(), Vec::new()).unwrap_err();
    assert_eq!(err, Error::MissingObjectKey(".metadata.name".to_string()));
}

#[test]
fn rule_error_messages() {
    assert_eq!(
        Error::ValidatingWebhookConfigurationCreationFailed("x".to_string()).to_string(),
        "Failed to create ValidatingWebhookConfiguration: x"
    );
    assert_eq!(
        Error::MutatingWebhookConfigurationCreationFailed("x".to_string()).to_string(),
        "Failed to create MutatingWebhookConfiguration: x"
    );
}

fn managed(kind: RuleKind, name: &str, bundle: &[u8]) -> WebhookConfiguration {
    webhook_configuration(kind, name.to_string(), owner("Rule"), &rule_spec(), &config(), bundle.to_vec())
}

#[test]
fn bundle_reload_swaps_only_on_change() {
    let mut bundle = CaBundle::new(b"B1".to_vec());
    assert!(!bundle.reload(b"B1".to_vec()));
    assert_eq!(bundle.bytes, b"B1".to_vec());
    assert!(bundle.reload(b"B2".to_vec()));
    assert_eq!(bundle.bytes, b"B2".to_vec());
    assert!(!bundle.reload(b"B2".to_vec()));
    assert!(bundle.reload(Vec::new()));
    assert_eq!(bundle.bytes, Vec::<u8>::new());
}

#[test]
fn bytes_are_compared_by_value() {
    assert!(bytes_eq(&vec![], &vec![]));
    assert!(bytes_eq(&vec![1, 2], &vec![1, 2]));
    assert!(!bytes_eq(&vec![1, 2], &vec![1, 3]));
    assert!(!bytes_eq(&vec![1, 2], &vec![1]));
}

#[test]
fn ca_rotation_writes_every_configuration_once_with_the_new_bundle() {
    let mut bundle = CaBundle::new(b"B1".to_vec());
    let store = vec![
        managed(RuleKind::Validating, "a", &bundle.bytes),
        managed(RuleKind::Mutating, "b", &bundle.bytes),
        managed(RuleKind::Validating, "c", &bundle.bytes),
    ];
    for c in &store {
        assert_eq!(c.webhooks.as_ref().unwrap()[0].client_config.ca_bundle, Some(b"B1".to_vec()));
    }
    assert!(bundle.reload(b"B2".to_vec()));
    let requests = reload_ca_bundle(store);
    assert_eq!(requests.len(), 3);
    let names: Vec<&str> = requests.iter().map(|r| r.name.as_str()).collect();
    assert_eq!(names, vec!["a", "b", "c"]);
    assert_eq!(requests[0].field_manager, "validatingrule.checkpoint.devsisters.com");
    assert_eq!(requests[1].field_manager, "mutatingrule.checkpoint.devsisters.com");
    for r in &requests {
        let a = r.configuration.metadata.annotations.as_ref().unwrap();
        assert_eq!(a.get(SHOULD_UPDATE_ANNOTATION_KEY), Some("true".to_string()));
    }
    for r in requests {
        let again = managed(r.configuration.kind, &r.name, &bundle.bytes);
        assert_eq!(again.webhooks.unwrap()[0].client_config.ca_bundle, Some(b"B2".to_vec()));
    }
}

#[test]
fn mark_keeps_other_annotations_and_the_rest() {
    let mut c = managed(RuleKind::Validating, "a", b"B");
    let mut annotations = Labels::new();
    annotations.insert("note".to_string(), "kept".to_string());
    annotations.insert(SHOULD_UPDATE_ANNOTATION_KEY.to_string(), "false".to_string());
    c.metadata.annotations = Some(annotations);
    let marked = mark_for_update(c);
    let a = marked.metadata.annotations.clone().unwrap();
    assert_eq!(a.len(), 2);
    assert_eq!(a.get("note"), Some("kept".to_string()));
    assert_eq!(a.get("checkpoint.devsisters.com/should-update"), Some("true".to_string()));
    let mut plain = managed(RuleKind::Validating, "a", b"B");
    plain.metadata.annotations = marked.metadata.annotations.clone();
    assert_eq!(marked, plain);
}

#[test]
fn rule_kinds_have_their_constants() {
    assert_eq!(RuleKind::Validating.owned_label_key(), "checkpoint.devsisters.com/validatingrule");
    assert_eq!(RuleKind::Mutating.owned_label_key(), "checkpoint.devsisters.com/mutatingrule");
    assert_eq!(RuleKind::Validating.url_path(), "validate");
    assert_eq!(RuleKind::Mutating.url_path(), "mutate");
    assert_eq!(RuleKind::Validating.webhook_type(), "validatingwebhook");
    assert_eq!(RuleKind::Mutating.webhook_type(), "mutatingwebhook");
    assert_eq!(RuleKind::Validating.manager(), "validatingrule.checkpoint.devsisters.com");
    assert_eq!(RuleKind::Mutating.manager(), "mutatingrule.checkpoint.devsisters.com");
}
