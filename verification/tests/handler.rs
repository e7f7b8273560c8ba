use checkpoint::handler::helper::{
    api_resource, default_kube_list_argument_list_params_bookmarks, ends_with,
    evaluation_deadline_seconds, jsonpatch_diff, kube_get, kube_list, prepare_kube_client,
    starts_with, token_expiration_seconds, token_from_response,
    KubeGetArgument, KubeListArgument, KubeListArgumentListParams,
    KubeListArgumentListParamsVersionMatch, TokenResponse,
};
use checkpoint::handler::internal::{
    mutate_cronpolicy, normalize_resource, normalize_resources, respond_with_diff,
    respond_with_patch, Admission, Error as InternalError,
};
use checkpoint::handler::{mutate, reject_review, validate, AdmissionResponse, Error, PatchType, ScriptOutput};
use checkpoint::types::object::ObjectMeta;
use checkpoint::types::policy::{
    CronPolicy, CronPolicyNotification, CronPolicyResource, CronPolicySpec, RestartPolicy,
};
use checkpoint::types::rule::ServiceAccountInfo;
use checkpoint::util::{ApiGroupResources, ApiVersionResources, Discovery};

fn output(deny_reason: Option<&str>, patch: Option<&str>) -> ScriptOutput {
    ScriptOutput {
        deny_reason: deny_reason.map(|r| r.to_string()),
        patch: patch.map(|p| serde_json::from_str::<json_patch::Patch>(p).unwrap()),
    }
}

#[test]
fn deny_on_missing_label() {
    let resp = validate("uid-1", &output(Some("missing team label"), None));
    assert_eq!(resp.uid, "uid-1");
    assert!(!resp.allowed);
    assert_eq!(resp.message, Some("missing team label".to_string()));
    assert_eq!(resp.patch, None);
    assert_eq!(resp.patch_type, None);
}

#[test]
fn allow_untouched() {
    let resp = validate("uid-2", &output(None, None));
    assert_eq!(resp, AdmissionResponse::allow("uid-2"));
    assert!(resp.allowed);
    assert_eq!(resp.message, None);
    assert_eq!(resp.patch, None);
    let resp = mutate("uid-2", &output(None, None)).unwrap();
    assert!(resp.allowed);
    assert_eq!(resp.patch, None);
    assert_eq!(resp.uid, "uid-2");
}

#[test]
fn validating_rules_never_patch() {
    let patch = "[{\"op\":\"add\",\"path\":\"/a\",\"value\":1}]";
    let resp = validate("u", &output(None, Some(patch)));
    assert_eq!(resp.patch, None);
    assert_eq!(resp.patch_type, None);
    assert!(resp.allowed);
}

#[test]
fn a_denial_with_an_empty_reason_still_has_a_message() {
    let resp = validate("u", &output(Some(""), None));
    assert!(!resp.allowed);
    assert_eq!(resp.message, Some("denied without a reason".to_string()));
}

#[test]
fn mutate_to_add_default() {
    let patch = "[{\"op\":\"add\",\"path\":\"/metadata/labels/tier\",\"value\":\"std\"}]";
    let resp = mutate("uid-3", &output(None, Some(patch))).unwrap();
    assert_eq!(resp.uid, "uid-3");
    assert!(resp.allowed);
    assert_eq!(resp.patch_type, Some(PatchType::JsonPatch));
    let bytes = resp.patch.unwrap();
    let sent: json_patch::Patch = serde_json::from_slice(&bytes).unwrap();
    assert_eq!(sent, serde_json::from_str::<json_patch::Patch>(patch).unwrap());
    let mut object: serde_json::Value = serde_json::from_str("{\"metadata\":{\"labels\":{}}}").unwrap();
    json_patch::patch(&mut object, &sent).unwrap();
    let expected: serde_json::Value =
        serde_json::from_str("{\"metadata\":{\"labels\":{\"tier\":\"std\"}}}").unwrap();
    assert_eq!(object, expected);
}

#[test]
fn a_patch_without_operations_is_not_sent() {
    let resp = mutate("u", &output(None, Some("[]"))).unwrap();
    assert_eq!(resp.patch, None);
    assert_eq!(resp.patch_type, None);
    assert_eq!(resp, AdmissionResponse::allow("u"));
}

#[test]
fn a_mutating_rule_may_deny_and_patch() {
    let patch = "[{\"op\":\"remove\",\"path\":\"/a\"}]";
    let resp = mutate("u", &output(Some("no"), Some(patch))).unwrap();
    assert!(!resp.allowed);
    assert_eq!(resp.message, Some("no".to_string()));
    assert_eq!(resp.patch, Some(patch.as_bytes().to_vec()));
}

#[test]
fn serialised_patches_are_attached_and_failures_reported() {
    let resp = AdmissionResponse::allow("u").with_serialized_patch(Ok(vec![1, 2])).unwrap();
    assert_eq!(resp.patch, Some(vec![1, 2]));
    assert_eq!(resp.patch_type, Some(PatchType::JsonPatch));
    let err = AdmissionResponse::allow("u").with_serialized_patch(Err("bad".to_string())).unwrap_err();
    assert_eq!(err, Error::SerializePatch("bad".to_string()));
    assert_eq!(err.status_code(), 500);
}

#[test]
fn unreadable_reviews_are_rejected_as_invalid() {
    let resp = reject_review("", "missing field `request`".to_string());
    assert_eq!(resp.uid, "");
    assert!(!resp.allowed);
    assert_eq!(resp.reason, Some("InvalidRequest".to_string()));
    assert_eq!(resp.message, Some("missing field `request`".to_string()));
    let resp = reject_review("uid-9", String::new());
    assert_eq!(resp.uid, "uid-9");
    assert!(!resp.allowed);
    assert_eq!(resp.message, Some("invalid request".to_string()));
    let resp = AdmissionResponse::invalid("uid-9", "x".to_string());
    assert_eq!(resp.uid, "uid-9");
    assert_eq!(resp.reason, Some("InvalidRequest".to_string()));
    let resp = AdmissionResponse::allow("u").deny("because".to_string());
    assert_eq!(resp.uid, "u");
    assert!(!resp.allowed);
    assert_eq!(resp.message, Some("because".to_string()));
}

#[test]
fn errors_map_to_statuses_and_messages() {
    assert_eq!(Error::RuleNotFound.status_code(), 404);
    assert_eq!(Error::RuleNotFound.to_string(), "Rule is not found");
    let all = vec![
        (Error::Kubernetes("x".to_string()), "Kubernetes error: x"),
        (Error::KubernetesKubeconfig("x".to_string()), "Kubernetes Kubeconfig error: x"),
        (Error::ServiceAccountNotFound, "provided ServiceAccount is not found"),
        (Error::RequestServiceAccountToken, "failed to request ServiceAccount token"),
        (Error::CreateRuntime("x".to_string()), "failed to create runtime: x"),
        (Error::RecvThread("x".to_string()), "failed to receive from script thread: x"),
        (Error::SerializePatch("x".to_string()), "failed to serialize Patch object: x"),
        (Error::PrepareRuntime("x".to_string()), "failed to prepare script runtime: x"),
        (Error::Eval("x".to_string()), "failed to evaluate code: x"),
        (Error::Timeout, "evaluation of the code timed out"),
        (Error::DeserializeValue("x".to_string()), "failed to deserialize script value: x"),
    ];
    for (e, m) in all {
        assert_eq!(e.status_code(), 500);
        assert_eq!(e.to_string(), m);
    }
    assert!(Error::ServiceAccountInfoNotProvided.to_string().starts_with("serviceAccount field is not provided."));
    assert_eq!(Error::ServiceAccountInfoNotProvided.status_code(), 500);
    assert_eq!(InternalError::ObjectNotExists.status_code(), 400);
    assert_eq!(
        InternalError::ObjectNotExists.to_string(),
        "object field in admission request does not exists"
    );
    assert_eq!(InternalError::Kubernetes("x".to_string()).status_code(), 500);
    assert_eq!(InternalError::Kubernetes("x".to_string()).to_string(), "Kubernetes error: x");
    assert_eq!(
        InternalError::SerializeToJson("x".to_string()).to_string(),
        "failed to serialize to JSON value: x"
    );
    assert_eq!(
        InternalError::SerializePatch("x".to_string()).to_string(),
        "failed to serialize JSON patch: x"
    );
}

fn sa() -> Option<ServiceAccountInfo> {
    Some(ServiceAccountInfo { namespace: "checkpoint".to_string(), name: "reader".to_string() })
}

fn get_arg(kind: &str, plural: Option<&str>) -> KubeGetArgument {
    KubeGetArgument {
        group: "apps".to_string(),
        version: "v1".to_string(),
        kind: kind.to_string(),
        plural: plural.map(|p| p.to_string()),
        namespace: Some("web".to_string()),
        name: "front".to_string(),
    }
}

#[test]
fn helpers_without_service_account_have_no_capability() {
    let err = kube_get(&None, Some(5), &get_arg("Deployment", None)).unwrap_err();
    assert_eq!(err, Error::ServiceAccountInfoNotProvided);
    let list = KubeListArgument {
        group: "".to_string(),
        version: "v1".to_string(),
        kind: "Pod".to_string(),
        plural: None,
        namespace: None,
        list_params: None,
    };
    let err = kube_list(&None, None, &list).unwrap_err();
    assert_eq!(err, Error::ServiceAccountInfoNotProvided);
    assert_eq!(prepare_kube_client(&None, None).unwrap_err(), Error::ServiceAccountInfoNotProvided);
}

#[test]
fn helpers_ask_under_a_token_of_the_service_account() {
    let req = kube_get(&sa(), Some(5), &get_arg("Deployment", None)).unwrap();
    assert_eq!(req.token.namespace, "checkpoint");
    assert_eq!(req.token.name, "reader");
    assert_eq!(req.token.audiences, vec!["https://kubernetes.default.svc.cluster.local".to_string()]);
    assert_eq!(req.token.expiration_seconds, 600);
    assert_eq!(req.api_resource.group, "apps");
    assert_eq!(req.api_resource.version, "v1");
    assert_eq!(req.api_resource.api_version, "apps/v1");
    assert_eq!(req.api_resource.kind, "Deployment");
    assert_eq!(req.api_resource.plural, "deployments");
    assert_eq!(req.namespace, Some("web".to_string()));
    assert_eq!(req.name, "front");
    let params = KubeListArgumentListParams {
        label_selector: Some("app=web".to_string()),
        field_selector: None,
        timeout: Some(3),
        bookmarks: default_kube_list_argument_list_params_bookmarks(),
        limit: Some(10),
        continue_token: None,
        version_match: Some(KubeListArgumentListParamsVersionMatch::Exact),
        resource_version: Some("7".to_string()),
    };
    let list = KubeListArgument {
        group: "".to_string(),
        version: "v1".to_string(),
        kind: "Pod".to_string(),
        plural: Some("podz".to_string()),
        namespace: None,
        list_params: Some(params.clone()),
    };
    let req = kube_list(&sa(), Some(1000), &list).unwrap();
    assert_eq!(req.token.expiration_seconds, 1000);
    assert_eq!(req.api_resource.api_version, "v1");
    assert_eq!(req.api_resource.plural, "podz");
    assert_eq!(req.namespace, None);
    assert_eq!(req.list_params, Some(params));
    assert!(default_kube_list_argument_list_params_bookmarks());
}

#[test]
fn api_resources_guess_the_plural_as_kube_does() {
    assert_eq!(api_resource("", "v1", "Endpoints", &None).plural, "endpoints");
    assert_eq!(api_resource("metrics.k8s.io", "v1", "PodMetrics", &None).plural, "pods");
    assert_eq!(api_resource("", "v1", "Y", &None).plural, "ys");
    assert_eq!(api_resource("", "v1", "y", &None).plural, "ys");
    assert_eq!(api_resource("g", "v2", "NetworkPolicy", &None).plural, "networkpolicies");
    let ar = api_resource("g", "v2", "Thing", &Some("thingz".to_string()));
    assert_eq!(ar.plural, "thingz");
    assert_eq!(ar.api_version, "g/v2");
    assert_eq!(ar.kind, "Thing");
}

#[test]
fn deadlines_and_token_lifetimes() {
    assert_eq!(evaluation_deadline_seconds(None), 10);
    assert_eq!(evaluation_deadline_seconds(Some(3)), 3);
    assert_eq!(evaluation_deadline_seconds(Some(10)), 10);
    assert_eq!(evaluation_deadline_seconds(Some(30)), 10);
    assert_eq!(evaluation_deadline_seconds(Some(-1)), -1);
    assert_eq!(token_expiration_seconds(None), 600);
    assert_eq!(token_expiration_seconds(Some(10)), 600);
    assert_eq!(token_expiration_seconds(Some(600)), 600);
    assert_eq!(token_expiration_seconds(Some(601)), 601);
    assert_eq!(token_expiration_seconds(Some(i32::MAX)), i32::MAX as i64);
    assert_eq!(token_expiration_seconds(Some(i32::MIN)), 600);
}

#[test]
fn token_responses() {
    assert_eq!(token_from_response(TokenResponse::Answered(Some("t".to_string()))), Ok("t".to_string()));
    assert_eq!(token_from_response(TokenResponse::Answered(None)), Err(Error::RequestServiceAccountToken));
    assert_eq!(
        token_from_response(TokenResponse::Refused(404, "gone".to_string())),
        Err(Error::ServiceAccountNotFound)
    );
    assert_eq!(
        token_from_response(TokenResponse::Refused(403, "no".to_string())),
        Err(Error::Kubernetes("no".to_string()))
    );
    assert_eq!(
        token_from_response(TokenResponse::Failed("down".to_string())),
        Err(Error::Kubernetes("down".to_string()))
    );
}

fn version(group: &str, version: &str, kinds: &[&str]) -> ApiVersionResources {
    ApiVersionResources {
        group_version: format!("{}/{}", group, version),
        version: version.to_string(),
        kinds: kinds.iter().map(|k| k.to_string()).collect(),
    }
}

fn group(name: &str, preferred: &str, versions: &[(&str, &[&str])]) -> ApiGroupResources {
    let vs: Vec<ApiVersionResources> = versions.iter().map(|(v, k)| version(name, v, k)).collect();
    ApiGroupResources {
        name: name.to_string(),
        preferred_version: vs.iter().find(|v| v.version == preferred).cloned(),
        versions: vs,
    }
}

fn cluster() -> Discovery {
    Discovery {
        groups: vec![
            group("apps", "v1", &[("v1", &["Deployment", "Deployment", "StatefulSet"]), ("v1beta1", &["Deployment"])]),
            group("batch", "v1", &[("v1", &["Job", "CronJob"])]),
        ],
        core_versions: vec![ApiVersionResources {
            group_version: "v1".to_string(),
            version: "v1".to_string(),
            kinds: vec!["Pod".to_string(), "Pod".to_string(), "Service".to_string()],
        }],
    }
}

fn two_groups() -> Discovery {
    let mut d = cluster();
    d.groups.push(group("extensions", "v1beta1", &[("v1beta1", &["Deployment"])]));
    d
}

fn res(group: Option<&str>, version: Option<&str>, kind: &str) -> CronPolicyResource {
    CronPolicyResource {
        group: group.map(|g| g.to_string()),
        version: version.map(|v| v.to_string()),
        kind: kind.to_string(),
        plural: None,
        namespace: None,
        name: None,
        list_params: None,
    }
}

#[test]
fn gvr_normalization() {
    let n = normalize_resource(&res(None, None, "Deployment"), &cluster()).unwrap();
    assert_eq!(n.group, Some("apps".to_string()));
    assert_eq!(n.version, Some("v1".to_string()));
    assert_eq!(n.kind, "Deployment");
    let denial = normalize_resource(&res(None, None, "Deployment"), &two_groups()).unwrap_err();
    assert!(denial.contains("multiple matching group/versions"));
    assert_eq!(
        denial,
        "specified kind (Deployment) has multiple matching group/versions: `apps/v1`,`extensions/v1beta1`"
    );
    let n = normalize_resource(&res(None, None, "Pod"), &cluster()).unwrap();
    assert_eq!(n.group, Some("".to_string()));
    assert_eq!(n.version, Some("v1".to_string()));
}

#[test]
fn named_group_and_version_are_checked_against_every_version() {
    let r = res(Some("apps"), Some("v1beta1"), "Deployment");
    assert_eq!(normalize_resource(&r, &cluster()), Ok(r.clone()));
    let r = res(Some("apps"), Some("v2"), "Deployment");
    assert_eq!(
        normalize_resource(&r, &cluster()),
        Err("specified group, version, and kind (`apps`, `v2`, `Deployment`) do not exists".to_string())
    );
    let r = res(Some(""), Some("v1"), "Service");
    assert_eq!(normalize_resource(&r, &cluster()), Ok(r.clone()));
}

#[test]
fn a_version_alone_is_denied() {
    assert_eq!(
        normalize_resource(&res(None, Some("v1"), "Pod"), &cluster()),
        Err("only specifying version is not allowed".to_string())
    );
}

#[test]
fn a_group_alone_gets_its_preferred_version() {
    let n = normalize_resource(&res(Some("extensions"), None, "Deployment"), &two_groups()).unwrap();
    assert_eq!(n.group, Some("extensions".to_string()));
    assert_eq!(n.version, Some("v1beta1".to_string()));
    assert_eq!(
        normalize_resource(&res(Some("batch"), None, "Deployment"), &cluster()),
        Err("specified group and kind (batch, Deployment) does not have matching group/versions".to_string())
    );
    assert_eq!(
        normalize_resource(&res(Some("batch"), None, "Widget"), &cluster()),
        Err("specified kind (Widget) does not have matching group/versions".to_string())
    );
    assert_eq!(
        normalize_resource(&res(None, None, "Widget"), &cluster()),
        Err("specified kind (Widget) does not have matching group/versions".to_string())
    );
}

#[test]
fn the_first_denial_counts() {
    let rs = vec![res(None, None, "Pod"), res(None, Some("v1"), "Pod"), res(None, None, "Widget")];
    assert_eq!(
        normalize_resources(&rs, &cluster()),
        Err("only specifying version is not allowed".to_string())
    );
    let rs = vec![res(None, None, "Pod"), res(None, None, "Job")];
    let n = normalize_resources(&rs, &cluster()).unwrap();
    assert_eq!(n.len(), 2);
    assert_eq!(n[1].group, Some("batch".to_string()));
    assert_eq!(normalize_resources(&Vec::new(), &cluster()), Ok(Vec::new()));
}

fn policy(resources: Vec<CronPolicyResource>) -> CronPolicy {
    CronPolicy {
        metadata: ObjectMeta {
            name: Some("audit".to_string()),
            namespace: None,
            owner_references: None,
            labels: None,
            annotations: None,
        },
        spec: CronPolicySpec {
            suspend: false,
            schedule: "* * * * *".to_string(),
            resources,
            code: "x".to_string(),
            notifications: CronPolicyNotification { slack: None, webhook: None },
            namespace: "default".to_string(),
            restart_policy: RestartPolicy::Never,
        },
    }
}

#[test]
fn admitting_a_policy() {
    assert_eq!(mutate_cronpolicy("u", None, &cluster()), Err(InternalError::ObjectNotExists));
    let admitted = mutate_cronpolicy("u", Some(policy(vec![res(None, None, "Deployment")])), &cluster()).unwrap();
    assert_eq!(
        admitted,
        Admission::Normalized(policy(vec![res(Some("apps"), Some("v1"), "Deployment")]))
    );
    let denied = mutate_cronpolicy("u", Some(policy(vec![res(None, None, "Deployment")])), &two_groups()).unwrap();
    match denied {
        Admission::Denied(resp) => {
            assert_eq!(resp.uid, "u");
            assert!(!resp.allowed);
            assert!(resp.message.unwrap().contains("multiple matching group/versions"));
            assert_eq!(resp.patch, None);
        }
        other => panic!("unexpected {:?}", other),
    }
}

#[test]
fn the_response_carries_the_difference_as_a_patch() {
    let before: serde_json::Value =
        serde_json::from_str("{\"spec\":{\"resources\":[{\"kind\":\"Deployment\"}]}}").unwrap();
    let after: serde_json::Value = serde_json::from_str(
        "{\"spec\":{\"resources\":[{\"kind\":\"Deployment\",\"group\":\"apps\",\"version\":\"v1\"}]}}",
    )
    .unwrap();
    let resp = respond_with_diff("u", &before, &after).unwrap();
    assert!(resp.allowed);
    assert_eq!(resp.uid, "u");
    assert_eq!(resp.patch_type, Some(PatchType::JsonPatch));
    let patch: json_patch::Patch = serde_json::from_slice(&resp.patch.unwrap()).unwrap();
    let mut doc = before.clone();
    json_patch::patch(&mut doc, &patch).unwrap();
    assert_eq!(doc, after);
    let same = respond_with_diff("u", &after, &after).unwrap();
    assert_eq!(same, AdmissionResponse::allow("u"));
    let empty: json_patch::Patch = serde_json::from_str("[]").unwrap();
    assert_eq!(respond_with_patch("u", &empty).unwrap(), AdmissionResponse::allow("u"));
}

#[test]
fn script_helpers() {
    assert!(starts_with("kube-system", "kube-"));
    assert!(!starts_with("kube", "kube-"));
    assert!(ends_with("web-prod", "-prod"));
    assert!(!ends_with("web-prod", "-dev"));
    let before: serde_json::Value = serde_json::from_str("{\"a\":1,\"b\":2}").unwrap();
    let after: serde_json::Value = serde_json::from_str("{\"a\":1,\"c\":3}").unwrap();
    let patch = jsonpatch_diff(&before, &after);
    assert_eq!(patch.0.len(), 2);
    let mut doc = before.clone();
    json_patch::patch(&mut doc, &patch).unwrap();
    assert_eq!(doc, after);
    assert_eq!(jsonpatch_diff(&after, &after).0.len(), 0);
}
