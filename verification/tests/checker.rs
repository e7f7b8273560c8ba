use checkpoint::checker::{
    exit_code, fetch_request, fetch_resources, get_group_version_from_resource, interpolate,
    is_plain_template, needs_discovery, notification_context, notify, notify_slack,
    notify_webhook, rendering,
    Error, SingleOrList, TemplateError,
};
use checkpoint::types::labels::Labels;
use checkpoint::types::policy::{
    CronPolicyNotification, CronPolicyNotificationSlack, CronPolicyNotificationWebhook,
    CronPolicyNotificationWebhookMethod, CronPolicyResource, CronPolicyResourceListParams,
    RestartPolicy,
};
use checkpoint::util::{ApiGroupResources, ApiVersionResources, Discovery};

fn pairs(kv: &[(&str, &str)]) -> Vec<(String, String)> {
    kv.iter().map(|(k, v)| (k.to_string(), v.to_string())).collect()
}

#[test]
fn template_safety() {
    let context = pairs(&[("policy.name", "x"), ("output.foo", "y")]);
    assert_eq!(interpolate("{policy.name} {output.foo}", &context), Ok("x y".to_string()));
    assert_eq!(
        interpolate("{policy.name} {output.bar}", &context),
        Err(TemplateError::MissingValue("output.bar".to_string()))
    );
    assert_eq!(interpolate("{policy.name", &context).is_err(), true);
}

#[test]
fn templates_copy_text_and_doubled_braces() {
    let context = pairs(&[("a", "1")]);
    assert_eq!(interpolate("", &context), Ok(String::new()));
    assert_eq!(interpolate("no placeholders: here", &context), Ok("no placeholders: here".to_string()));
    assert_eq!(interpolate("{{a}} is {a}", &context), Ok("{a} is 1".to_string()));
    assert_eq!(interpolate("{a}{a}", &context), Ok("11".to_string()));
    assert_eq!(interpolate("\u{e9}{a}\u{e9}", &context), Ok("\u{e9}1\u{e9}".to_string()));
}

#[test]
fn of_two_entries_with_one_key_the_later_counts() {
    let context = pairs(&[("a", "1"), ("a", "2")]);
    assert_eq!(interpolate("{a}", &context), Ok("2".to_string()));
}

#[test]
fn format_specs_are_refused() {
    let context = pairs(&[("a", "1")]);
    assert_eq!(interpolate("{a:>5}", &context), Err(TemplateError::FormatSpec));
    assert_eq!(interpolate("{a:+#", &context), Err(TemplateError::FormatSpec));
    assert_eq!(interpolate("{a:99999999999999}", &context), Err(TemplateError::FormatSpec));
    assert!(is_plain_template("time: 10:30 {a}"));
    assert!(is_plain_template("{{a:b}}"));
    assert!(is_plain_template("{a"));
    assert!(is_plain_template("a}:{b}"));
    assert!(!is_plain_template("{{{a:b}"));
    assert!(!is_plain_template("{a}{b:}"));
    assert!(!is_plain_template("{:"));
}

#[test]
fn renderings_map_what_the_formatter_reports() {
    assert_eq!(rendering(Ok("t".to_string())), Ok("t".to_string()));
    assert_eq!(
        rendering(Err((true, "k".to_string()))),
        Err(TemplateError::MissingValue("k".to_string()))
    );
    assert_eq!(
        rendering(Err((false, "m".to_string()))),
        Err(TemplateError::Invalid("m".to_string()))
    );
}

#[test]
fn audit_violation() {
    let output = pairs(&[("bad", "p1")]);
    let context = notification_context("no-host-network", &output);
    assert_eq!(context, pairs(&[("output.bad", "p1"), ("policy.name", "no-host-network")]));
    assert_eq!(exit_code(&Some(output.clone())), 1);
    let notifications = CronPolicyNotification {
        slack: Some(CronPolicyNotificationSlack {
            webhook_url: "https://hooks.slack.example/T".to_string(),
            message: "{policy.name}: pod {output.bad}".to_string(),
        }),
        webhook: None,
    };
    let sent = notify("no-host-network", &output, &notifications);
    assert!(sent.webhook.is_none());
    let slack = sent.slack.unwrap().unwrap();
    assert_eq!(slack.url, "https://hooks.slack.example/T");
    assert_eq!(slack.text, "no-host-network is firing");
    assert_eq!(slack.message, "no-host-network: pod p1");
}

#[test]
fn exit_code_is_zero_without_violation() {
    assert_eq!(exit_code(&None), 0);
    assert_eq!(exit_code(&Some(Vec::new())), 0);
    assert_eq!(exit_code(&Some(pairs(&[("a", "b")]))), 1);
}

#[test]
fn one_failed_notification_does_not_stop_the_other() {
    let mut headers = Labels::new();
    headers.insert("X-Token".to_string(), "t".to_string());
    let notifications = CronPolicyNotification {
        slack: Some(CronPolicyNotificationSlack {
            webhook_url: "https://slack".to_string(),
            message: "{output.missing}".to_string(),
        }),
        webhook: Some(CronPolicyNotificationWebhook {
            url: "https://hook".to_string(),
            method: CronPolicyNotificationWebhookMethod::Put,
            headers: headers.clone(),
            body: "{{\"policy\":\"{policy.name}\"}}".to_string(),
        }),
    };
    let sent = notify("p", &Vec::new(), &notifications);
    assert_eq!(sent.slack.unwrap(), Err(TemplateError::MissingValue("output.missing".to_string())));
    let hook = sent.webhook.unwrap().unwrap();
    assert_eq!(hook.url, "https://hook");
    assert_eq!(hook.method, CronPolicyNotificationWebhookMethod::Put);
    assert_eq!(hook.headers, headers);
    assert_eq!(hook.body, "{\"policy\":\"p\"}");
    let none = notify("p", &Vec::new(), &CronPolicyNotification { slack: None, webhook: None });
    assert!(none.slack.is_none() && none.webhook.is_none());
}

#[test]
fn single_notifications() {
    let context = pairs(&[("policy.name", "p")]);
    let slack = CronPolicyNotificationSlack { webhook_url: "u".to_string(), message: "{x:}".to_string() };
    assert_eq!(notify_slack("p", &context, &slack), Err(TemplateError::FormatSpec));
    let hook = CronPolicyNotificationWebhook {
        url: "u".to_string(),
        method: CronPolicyNotificationWebhookMethod::default(),
        headers: Labels::new(),
        body: "{nope}".to_string(),
    };
    assert_eq!(notify_webhook(&context, &hook), Err(TemplateError::MissingValue("nope".to_string())));
    assert_eq!(CronPolicyNotificationWebhookMethod::default(), CronPolicyNotificationWebhookMethod::Post);
}

#[test]
fn method_and_policy_names() {
    let names = [
        (CronPolicyNotificationWebhookMethod::Get, "GET"),
        (CronPolicyNotificationWebhookMethod::Head, "HEAD"),
        (CronPolicyNotificationWebhookMethod::Post, "POST"),
        (CronPolicyNotificationWebhookMethod::Put, "PUT"),
        (CronPolicyNotificationWebhookMethod::Delete, "DELETE"),
        (CronPolicyNotificationWebhookMethod::Connect, "CONNECT"),
        (CronPolicyNotificationWebhookMethod::Options, "OPTIONS"),
        (CronPolicyNotificationWebhookMethod::Trace, "TRACE"),
        (CronPolicyNotificationWebhookMethod::Patch, "PATCH"),
    ];
    for (m, n) in names {
        assert_eq!(m.to_string(), n);
    }
    assert_eq!(RestartPolicy::OnFailure.to_string(), "OnFailure");
    assert_eq!(RestartPolicy::Never.to_string(), "Never");
}

fn discovery() -> Discovery {
    Discovery {
        groups: vec![ApiGroupResources {
            name: "apps".to_string(),
            preferred_version: None,
            versions: vec![ApiVersionResources {
                group_version: "apps/v1".to_string(),
                version: "v1".to_string(),
                kinds: vec!["Deployment".to_string()],
            }],
        }],
        core_versions: vec![ApiVersionResources {
            group_version: "v1".to_string(),
            version: "v1".to_string(),
            kinds: vec!["Pod".to_string(), "Deployment".to_string()],
        }],
    }
}

fn res(group: Option<&str>, version: Option<&str>, kind: &str, name: Option<&str>) -> CronPolicyResource {
    CronPolicyResource {
        group: group.map(|g| g.to_string()),
        version: version.map(|v| v.to_string()),
        kind: kind.to_string(),
        plural: None,
        namespace: Some("web".to_string()),
        name: name.map(|n| n.to_string()),
        list_params: Some(CronPolicyResourceListParams {
            label_selector: Some("a=b".to_string()),
            field_selector: None,
        }),
    }
}

#[test]
fn group_and_version_of_a_resource() {
    let d = discovery();
    assert_eq!(
        get_group_version_from_resource(&res(Some("g"), Some("v9"), "Anything", None), &d),
        Ok(("g".to_string(), "v9".to_string()))
    );
    assert_eq!(
        get_group_version_from_resource(&res(None, None, "Pod", None), &d),
        Ok(("".to_string(), "v1".to_string()))
    );
    assert_eq!(
        get_group_version_from_resource(&res(Some("apps"), None, "Pod", None), &d),
        Ok(("".to_string(), "v1".to_string()))
    );
    let e = get_group_version_from_resource(&res(None, None, "Widget", None), &d).unwrap_err();
    assert_eq!(e, Error::GroupVersionNotExists("Widget".to_string()));
    assert_eq!(e.to_string(), "specifed kind (`Widget`) does not have matching group/versions");
    let e = get_group_version_from_resource(&res(None, None, "Deployment", None), &d).unwrap_err();
    assert_eq!(e, Error::MultipleGroupVersion("Deployment".to_string()));
    assert_eq!(e.to_string(), "specifed kind (`Deployment`) has multiple matching group/versions");
}

#[test]
fn resources_are_fetched_in_their_order() {
    let d = discovery();
    let rs = vec![res(None, None, "Pod", None), res(Some("apps"), Some("v1"), "Deployment", Some("front"))];
    let requests = fetch_resources(&rs, &d).unwrap();
    assert_eq!(requests.len(), 2);
    assert_eq!(requests[0].api_resource.kind, "Pod");
    assert_eq!(requests[0].api_resource.plural, "pods");
    assert_eq!(requests[0].api_resource.api_version, "v1");
    assert_eq!(requests[0].namespace, Some("web".to_string()));
    assert_eq!(requests[0].name, None);
    assert_eq!(requests[0].list_params.label_selector, Some("a=b".to_string()));
    assert_eq!(requests[1].api_resource.api_version, "apps/v1");
    assert_eq!(requests[1].name, Some("front".to_string()));
    let mut plain = res(None, None, "Pod", None);
    plain.list_params = None;
    plain.namespace = None;
    let r = fetch_request(&plain, &d).unwrap();
    assert_eq!(r.list_params, CronPolicyResourceListParams::default());
    assert_eq!(r.namespace, None);
    let rs = vec![res(None, None, "Pod", None), res(None, None, "Widget", None), res(None, None, "Deployment", None)];
    assert_eq!(fetch_resources(&rs, &d), Err(Error::GroupVersionNotExists("Widget".to_string())));
}

#[test]
fn fetched_values_are_one_or_many() {
    let one: SingleOrList<u8> = SingleOrList::Single(Some(1));
    let many: SingleOrList<u8> = SingleOrList::List(vec![1, 2]);
    assert_ne!(one, many);
    assert_eq!(SingleOrList::<u8>::Single(None), SingleOrList::Single(None));
}

#[test]
fn discovery_is_needed_for_resources_without_group_or_version() {
    assert!(!needs_discovery(&Vec::new()));
    assert!(!needs_discovery(&vec![res(Some("g"), Some("v"), "K", None)]));
    assert!(needs_discovery(&vec![res(Some("g"), None, "K", None)]));
    assert!(needs_discovery(&vec![res(Some("g"), Some("v"), "K", None), res(None, Some("v"), "K", None)]));
}
