use checkpoint::config::ControllerConfig;
use checkpoint::reconcile::objects::{PolicyRule, Role, RoleBinding};
use checkpoint::reconcile::policy::{
    make_clusterrole, make_clusterrolebinding, make_cronjob, make_labels, make_role,
    make_role_rules, make_rolebinding, make_roles_and_clusterroles, make_serviceaccount,
    needs_discovery,
    reconcile_cronpolicy, to_plural, Error, OwnedObject, CRONPOLICY_OWNED_LABEL_KEY,
};
use checkpoint::reconcile::{error_policy, success_policy, Action};
use checkpoint::types::object::OwnerReference;
use checkpoint::types::policy::{
    default_cronpolicyspec_namespace, CronPolicyNotification, CronPolicyResource, CronPolicySpec,
    RestartPolicy,
};
use checkpoint::util::{ApiGroupResources, ApiVersionResources, Discovery};

fn no_discovery() -> Discovery {
    Discovery { groups: Vec::new(), core_versions: Vec::new() }
}

fn version(group: &str, version: &str, kinds: &[&str]) -> ApiVersionResources {
    ApiVersionResources {
        group_version: if group.is_empty() {
            version.to_string()
        } else {
            format!("{}/{}", group, version)
        },
        version: version.to_string(),
        kinds: kinds.iter().map(|k| k.to_string()).collect(),
    }
}

fn resource(group: Option<&str>, kind: &str, namespace: Option<&str>, name: Option<&str>) -> CronPolicyResource {
    CronPolicyResource {
        group: group.map(|g| g.to_string()),
        version: Some("v1".to_string()),
        kind: kind.to_string(),
        plural: None,
        namespace: namespace.map(|n| n.to_string()),
        name: name.map(|n| n.to_string()),
        list_params: None,
    }
}

#[test]
fn test_make_roles_and_clusterroles() {
    let cp_name = "cron-policy-name".to_string();
    let cronjob_namespace = "cron-policy-namespace".to_string();
    let oref = OwnerReference::default();
    let resources = Vec::new();

    let (roles, clusterrole) = make_roles_and_clusterroles(
        cp_name.clone(),
        cronjob_namespace.clone(),
        oref.clone(),
        &resources,
        &no_discovery(),
    )
    .unwrap();
    assert_eq!(roles, Vec::new());
    assert_eq!(clusterrole, None);

    let some_namespace = "some-namespace".to_string();
    let other_namespace = "other-namespace".to_string();
    let resources = vec![
        CronPolicyResource {
            group: Some("".to_string()),
            version: Some("v1".to_string()),
            kind: "Namespace".to_string(),
            plural: None,
            namespace: None,
            name: None,
            list_params: None,
        },
        CronPolicyResource {
            group: Some("".to_string()),
            version: Some("v1".to_string()),
            kind: "Pod".to_string(),
            plural: None,
            namespace: Some(some_namespace.clone()),
            name: None,
            list_params: None,
        },
        CronPolicyResource {
            group: Some("apps".to_string()),
            version: Some("v1".to_string()),
            kind: "Deployment".to_string(),
            plural: None,
            namespace: None,
            name: None,
            list_params: None,
        },
        CronPolicyResource {
            group: Some("apps".to_string()),
            version: Some("v1".to_string()),
            kind: "StatefulSet".to_string(),
            plural: None,
            namespace: Some(some_namespace.clone()),
            name: None,
            list_params: None,
        },
        CronPolicyResource {
            group: Some("apps".to_string()),
            version: Some("v1".to_string()),
            kind: "DaemonSet".to_string(),
            plural: None,
            namespace: Some(other_namespace.clone()),
            name: None,
            list_params: None,
        },
    ];

    let (roles, clusterrole) = make_roles_and_clusterroles(
        cp_name.clone(),
        cronjob_namespace,
        oref,
        &resources,
        &no_discovery(),
    )
    .unwrap();
    assert_eq!(roles.len(), 2);
    let role = &roles[0].0;
    assert_eq!(role.metadata.name.clone().unwrap_or_default(), cp_name);
    assert_eq!(role.metadata.namespace, Some(other_namespace));
    let rules = role.rules.clone().unwrap();
    assert_eq!(rules.len(), 1);
    let rule = &rules[0];
    assert_eq!(rule.api_groups, Some(vec!["apps".to_string()]));
    assert_eq!(rule.resources, Some(vec!["daemonsets".to_string()]));
    let role = &roles[1];
    assert_eq!(role.0.metadata.name.clone().unwrap_or_default(), cp_name);
    assert_eq!(role.0.metadata.namespace, Some(some_namespace));
    let rules = role.0.rules.clone().unwrap();
    assert_eq!(rules.len(), 2);
    let rule = &rules[0];
    assert_eq!(rule.api_groups, Some(vec!["".to_string()]));
    assert_eq!(rule.resources, Some(vec!["pods".to_string()]));
    let rule = &rules[1];
    assert_eq!(rule.api_groups, Some(vec!["apps".to_string()]));
    assert_eq!(rule.resources, Some(vec!["statefulsets".to_string()]));
    let clusterrole = clusterrole.unwrap().0;
    assert_eq!(clusterrole.metadata.name.clone().unwrap_or_default(), cp_name);
    assert_eq!(clusterrole.metadata.namespace, None);
    let rules = clusterrole.rules.unwrap();
    assert_eq!(rules.len(), 2);
    let rule = &rules[0];
    assert_eq!(rule.api_groups, Some(vec!["".to_string()]));
    assert_eq!(rule.resources, Some(vec!["namespaces".to_string()]));
    let rule = &rules[1];
    assert_eq!(rule.api_groups, Some(vec!["apps".to_string()]));
    assert_eq!(rule.resources, Some(vec!["deployments".to_string()]));
}

#[test]
fn plural_follows_the_three_rules() {
    assert_eq!(to_plural("pod"), "pods");
    assert_eq!(to_plural("class"), "classes");
    assert_eq!(to_plural("proxy"), "proxies");
    assert_eq!(to_plural("daemonset"), "daemonsets");
    assert_eq!(to_plural("quota"), "quotas");
    assert_eq!(to_plural("fox"), "foxes");
    assert_eq!(to_plural("quiz"), "quizes");
    assert_eq!(to_plural("batch"), "batches");
    assert_eq!(to_plural("mesh"), "meshes");
    assert_eq!(to_plural("day"), "days");
    assert_eq!(to_plural("ingress"), "ingresses");
    assert_eq!(to_plural("networkpolicy"), "networkpolicies");
}

#[test]
fn plural_of_short_and_odd_words() {
    assert_eq!(to_plural(""), "s");
    assert_eq!(to_plural("y"), "ys");
    assert_eq!(to_plural("h"), "hs");
    assert_eq!(to_plural("ay"), "ays");
    assert_eq!(to_plural("by"), "bies");
    assert_eq!(to_plural("\u{e9}y"), "\u{e9}ies");
}

#[test]
fn rules_use_the_plural_of_the_lower_case_kind() {
    let kinds = ["Pod", "Class", "Proxy", "DaemonSet", "Quota"];
    let plurals = ["pods", "classes", "proxies", "daemonsets", "quotas"];
    let resources: Vec<CronPolicyResource> =
        kinds.iter().map(|k| resource(Some(""), k, None, None)).collect();
    let rules = make_role_rules(&resources, &no_discovery()).unwrap();
    assert_eq!(rules.len(), 5);
    for i in 0..5 {
        assert_eq!(rules[i].resources, Some(vec![plurals[i].to_string()]));
        assert_eq!(rules[i].verbs, vec!["list".to_string()]);
        assert_eq!(rules[i].resource_names, None);
    }
}

#[test]
fn rule_of_a_named_object_allows_get_on_it_alone() {
    let mut r = resource(Some("apps"), "Deployment", Some("web"), Some("front"));
    r.plural = Some("deployz".to_string());
    let rules = make_role_rules(&vec![r], &no_discovery()).unwrap();
    assert_eq!(
        rules,
        vec![PolicyRule {
            api_groups: Some(vec!["apps".to_string()]),
            resources: Some(vec!["deployz".to_string()]),
            verbs: vec!["get".to_string()],
            resource_names: Some(vec!["front".to_string()]),
        }]
    );
}

#[test]
fn rule_without_group_asks_discovery() {
    let discovery = Discovery {
        groups: vec![ApiGroupResources {
            name: "apps".to_string(),
            preferred_version: Some(version("apps", "v1", &["Deployment", "StatefulSet"])),
            versions: vec![
                version("apps", "v1beta1", &["Deployment"]),
                version("apps", "v1", &["Deployment", "StatefulSet"]),
            ],
        }],
        core_versions: vec![version("", "v1", &["Pod"])],
    };
    let rules =
        make_role_rules(&vec![resource(None, "Deployment", None, None)], &discovery).unwrap();
    assert_eq!(rules[0].api_groups, Some(vec!["apps".to_string()]));
    let rules = make_role_rules(&vec![resource(None, "Pod", None, None)], &discovery).unwrap();
    assert_eq!(rules[0].api_groups, Some(vec!["".to_string()]));
}

#[test]
fn rule_without_group_fails_where_discovery_finds_none_or_several() {
    let discovery = Discovery {
        groups: vec![
            ApiGroupResources {
                name: "apps".to_string(),
                preferred_version: None,
                versions: vec![version("apps", "v1", &["Deployment"])],
            },
            ApiGroupResources {
                name: "extensions".to_string(),
                preferred_version: None,
                versions: vec![version("extensions", "v1beta1", &["Deployment"])],
            },
        ],
        core_versions: vec![version("", "v1", &["Pod"])],
    };
    let err = make_role_rules(&vec![resource(None, "Widget", None, None)], &discovery).unwrap_err();
    assert_eq!(err, Error::GroupVersionNotExists("Widget".to_string()));
    assert_eq!(
        err.to_string(),
        "Specifed kind (`Widget`) does not have matching group/versions"
    );
    let err = make_role_rules(
        &vec![resource(Some("x"), "Pod", None, None), resource(None, "Deployment", None, None)],
        &discovery,
    )
    .unwrap_err();
    assert_eq!(err, Error::MultipleGroupVersion("Deployment".to_string()));
    assert_eq!(
        err.to_string(),
        "Specifed kind (`Deployment`) has multiple matching group/versions"
    );
    let err = make_roles_and_clusterroles(
        "p".to_string(),
        "default".to_string(),
        OwnerReference::default(),
        &vec![resource(None, "Deployment", Some("a"), None), resource(None, "Widget", None, None)],
        &discovery,
    )
    .unwrap_err();
    assert_eq!(err, Error::MultipleGroupVersion("Deployment".to_string()));
}

#[test]
fn error_messages_name_what_failed() {
    let m = "boom".to_string();
    assert_eq!(Error::PatchServiceAccount(m.clone()).to_string(), "Failed to patch ServiceAccount: boom");
    assert_eq!(Error::PatchRole(m.clone()).to_string(), "Failed to patch Role: boom");
    assert_eq!(Error::PatchRoleBinding(m.clone()).to_string(), "Failed to patch RoleBinding: boom");
    assert_eq!(Error::PatchClusterRole(m.clone()).to_string(), "Failed to patch ClusterRole: boom");
    assert_eq!(
        Error::PatchClusterRoleBinding(m.clone()).to_string(),
        "Failed to patch ClusterRoleBinding: boom"
    );
    assert_eq!(Error::PatchCronJob(m.clone()).to_string(), "Failed to patch CronJob: boom");
    assert_eq!(
        Error::SerializeResources(m.clone()).to_string(),
        "Failed to serialize resources (This is a bug): boom"
    );
    assert_eq!(
        Error::SerializeNotifications(m.clone()).to_string(),
        "Failed to serialize notifications (This is a bug): boom"
    );
    assert_eq!(Error::Kubernetes(m).to_string(), "Kubernetes error: boom");
}

#[test]
fn labels_mark_the_owner() {
    let labels = make_labels("audit".to_string());
    assert_eq!(labels.len(), 1);
    assert_eq!(labels.get(CRONPOLICY_OWNED_LABEL_KEY), Some("audit".to_string()));
    assert_eq!(labels.get("other"), None);
    assert_eq!(CRONPOLICY_OWNED_LABEL_KEY, "checkpoint.devsisters.com/cronpolicy");
}

fn owner() -> OwnerReference {
    OwnerReference {
        api_version: "checkpoint.devsisters.com/v1".to_string(),
        kind: "CronPolicy".to_string(),
        name: "audit".to_string(),
        uid: "1234".to_string(),
        controller: Some(true),
        block_owner_deletion: None,
    }
}

#[test]
fn serviceaccount_is_owned_and_labelled() {
    let sa = make_serviceaccount("audit".to_string(), "jobs".to_string(), owner());
    assert_eq!(sa.metadata.name, Some("audit".to_string()));
    assert_eq!(sa.metadata.namespace, Some("jobs".to_string()));
    assert_eq!(sa.metadata.owner_references, Some(vec![owner()]));
    assert_eq!(sa.metadata.labels, Some(make_labels("audit".to_string())));
    assert_eq!(sa.metadata.annotations, None);
}

#[test]
fn bindings_grant_the_role_to_the_service_account() {
    let rb = make_rolebinding("audit".to_string(), owner(), "web".to_string(), "jobs".to_string());
    assert_eq!(rb.metadata.name, Some("audit".to_string()));
    assert_eq!(rb.metadata.namespace, Some("web".to_string()));
    assert_eq!(rb.role_ref.api_group, "rbac.authorization.k8s.io");
    assert_eq!(rb.role_ref.kind, "Role");
    assert_eq!(rb.role_ref.name, "audit");
    let subjects = rb.subjects.unwrap();
    assert_eq!(subjects.len(), 1);
    assert_eq!(subjects[0].api_group, Some("".to_string()));
    assert_eq!(subjects[0].kind, "ServiceAccount");
    assert_eq!(subjects[0].name, "audit");
    assert_eq!(subjects[0].namespace, Some("jobs".to_string()));

    let crb = make_clusterrolebinding("audit".to_string(), owner(), "jobs".to_string());
    assert_eq!(crb.metadata.namespace, None);
    assert_eq!(crb.role_ref.api_group, "rbac.authorization.k8s.io");
    assert_eq!(crb.role_ref.kind, "ClusterRole");
    assert_eq!(crb.role_ref.name, "audit");
    let subjects = crb.subjects.unwrap();
    assert_eq!(subjects[0].kind, "ServiceAccount");
    assert_eq!(subjects[0].namespace, Some("jobs".to_string()));
}

#[test]
fn role_and_clusterrole_hold_the_rules_of_their_resources() {
    let resources = vec![resource(Some("apps"), "Deployment", None, None)];
    let role = make_role("audit".to_string(), owner(), "web".to_string(), &resources, &no_discovery())
        .unwrap();
    assert_eq!(role.metadata.namespace, Some("web".to_string()));
    assert_eq!(role.rules.as_ref().unwrap().len(), 1);
    assert_eq!(role.rules.unwrap()[0].resources, Some(vec!["deployments".to_string()]));
    let cr = make_clusterrole("audit".to_string(), owner(), &resources, &no_discovery()).unwrap();
    assert_eq!(cr.metadata.namespace, None);
    assert_eq!(cr.rules.unwrap()[0].api_groups, Some(vec!["apps".to_string()]));
    let err = make_role(
        "audit".to_string(),
        owner(),
        "web".to_string(),
        &vec![resource(None, "Widget", None, None)],
        &no_discovery(),
    )
    .unwrap_err();
    assert_eq!(err, Error::GroupVersionNotExists("Widget".to_string()));
}

fn spec() -> CronPolicySpec {
    CronPolicySpec {
        suspend: true,
        schedule: "*/5 * * * *".to_string(),
        resources: vec![
            resource(Some(""), "Pod", None, None),
            resource(Some("apps"), "Deployment", Some("web"), None),
            resource(Some(""), "ConfigMap", Some("app"), Some("settings")),
            resource(Some("apps"), "StatefulSet", Some("web"), None),
        ],
        code: "return 1".to_string(),
        notifications: CronPolicyNotification { slack: None, webhook: None },
        namespace: default_cronpolicyspec_namespace(),
        restart_policy: RestartPolicy::OnFailure,
    }
}

fn config() -> ControllerConfig {
    ControllerConfig {
        service_namespace: "checkpoint".to_string(),
        service_name: "webhook".to_string(),
        service_port: 443,
        ca_bundle_path: "/tls/ca.crt".to_string(),
        checker_image: "registry/checker:1".to_string(),
    }
}

#[test]
fn cronjob_runs_the_checker_with_the_policy_in_its_environment() {
    let cj = make_cronjob(
        "audit".to_string(),
        "default".to_string(),
        owner(),
        &spec(),
        &config(),
        "[{\"kind\":\"Pod\"}]".to_string(),
        "{}".to_string(),
    );
    assert_eq!(cj.metadata.name, Some("audit".to_string()));
    assert_eq!(cj.metadata.namespace, Some("default".to_string()));
    assert_eq!(cj.schedule, "*/5 * * * *");
    assert_eq!(cj.suspend, Some(true));
    assert_eq!(cj.service_account_name, Some("audit".to_string()));
    assert_eq!(cj.restart_policy, Some("OnFailure".to_string()));
    assert_eq!(cj.containers.len(), 1);
    let c = &cj.containers[0];
    assert_eq!(c.name, "checkpoint-checker");
    assert_eq!(c.image, Some("registry/checker:1".to_string()));
    assert_eq!(c.command, Some(vec!["checkpoint-checker".to_string()]));
    let env: Vec<(String, Option<String>)> =
        c.env.clone().unwrap().into_iter().map(|e| (e.name, e.value)).collect();
    assert_eq!(
        env,
        vec![
            ("RUST_LOG".to_string(), Some("info".to_string())),
            ("CONF_POLICY_NAME".to_string(), Some("audit".to_string())),
            ("CONF_RESOURCES".to_string(), Some("[{\"kind\":\"Pod\"}]".to_string())),
            ("CONF_CODE".to_string(), Some("return 1".to_string())),
            ("CONF_NOTIFICATIONS".to_string(), Some("{}".to_string())),
        ]
    );
}

fn plan() -> Vec<OwnedObject> {
    reconcile_cronpolicy(
        "audit".to_string(),
        &spec(),
        owner(),
        &config(),
        &no_discovery(),
        "[]".to_string(),
        "{}".to_string(),
    )
    .unwrap()
}

#[test]
fn reconcile_applies_account_roles_and_job_in_order() {
    let objects = plan();
    assert_eq!(objects.len(), 8);
    assert!(matches!(&objects[0], OwnedObject::ServiceAccount(sa) if sa.metadata.namespace == Some("default".to_string())));
    assert!(matches!(&objects[1], OwnedObject::Role(r) if r.metadata.namespace == Some("app".to_string())));
    assert!(matches!(&objects[2], OwnedObject::RoleBinding(r) if r.metadata.namespace == Some("app".to_string())));
    assert!(matches!(&objects[3], OwnedObject::Role(r) if r.metadata.namespace == Some("web".to_string()) && r.rules.as_ref().unwrap().len() == 2));
    assert!(matches!(&objects[4], OwnedObject::RoleBinding(r) if r.metadata.namespace == Some("web".to_string())));
    assert!(matches!(&objects[5], OwnedObject::ClusterRole(r) if r.rules.as_ref().unwrap().len() == 1));
    assert!(matches!(&objects[6], OwnedObject::ClusterRoleBinding(_)));
    assert!(matches!(&objects[7], OwnedObject::CronJob(cj) if cj.metadata.namespace == Some("default".to_string())));
}

#[test]
fn reconcile_twice_asks_for_the_same_objects() {
    assert_eq!(plan(), plan());
}

#[test]
fn roles_grant_nothing_beyond_the_policy() {
    let objects = plan();
    let mut granted: Vec<(Option<String>, PolicyRule)> = Vec::new();
    for o in objects {
        match o {
            OwnedObject::Role(Role { metadata, rules }) => {
                for r in rules.unwrap() {
                    granted.push((metadata.namespace.clone(), r));
                }
            }
            OwnedObject::ClusterRole(cr) => {
                for r in cr.rules.unwrap() {
                    granted.push((None, r));
                }
            }
            _ => {}
        }
    }
    let mut named: Vec<(Option<String>, PolicyRule)> = Vec::new();
    for r in spec().resources {
        let rule = make_role_rules(&vec![r.clone()], &no_discovery()).unwrap().remove(0);
        named.push((r.namespace, rule));
    }
    assert_eq!(granted.len(), named.len());
    for g in &granted {
        assert!(named.contains(g));
    }
}

#[test]
fn reconcile_fails_with_the_first_resource_that_has_no_rule() {
    let mut s = spec();
    s.resources.push(resource(None, "Widget", None, None));
    s.resources.push(resource(None, "Gadget", None, None));
    let err = reconcile_cronpolicy(
        "audit".to_string(),
        &s,
        owner(),
        &config(),
        &no_discovery(),
        "[]".to_string(),
        "{}".to_string(),
    )
    .unwrap_err();
    assert_eq!(err, Error::GroupVersionNotExists("Widget".to_string()));
}

#[test]
fn failed_reconciliation_is_tried_again_after_three_seconds() {
    assert_eq!(error_policy("any error"), Action::Requeue(3));
    assert_eq!(error_policy(""), Action::Requeue(3));
    assert_eq!(success_policy(), Action::AwaitChange);
}

#[test]
fn role_pairs_compare_by_value() {
    let a: Vec<(Role, RoleBinding)> = Vec::new();
    assert_eq!(a, Vec::new());
}

#[test]
fn discovery_is_needed_only_for_resources_without_group() {
    assert!(!needs_discovery(&Vec::new()));
    assert!(!needs_discovery(&vec![resource(Some(""), "Pod", None, None)]));
    assert!(needs_discovery(&vec![resource(Some(""), "Pod", None, None), resource(None, "Pod", None, None)]));
}
