use checkpoint::config::{default_listen_addr, CheckerConfig, WebhookConfig};
use checkpoint::crdgen::{
    add_label_placeholder, replace_placeholder, split_lines, LABEL_PLACEHOLDER, LABEL_REPLACE_TARGET,
};
use checkpoint::filewatcher::{paths_to_rewatch, FileWatcher};
use checkpoint::text::{
    chars_of, ends_with_str, starts_with_str, string_eq, string_lt, string_of,
    to_ascii_lowercase, vec_contains,
};
use checkpoint::types::labels::Labels;
use checkpoint::types::object::{ObjectMeta, OwnerReference};
use checkpoint::types::policy::CronPolicyNotification;
use checkpoint::types::rule::{MutatingRuleStatus, RuleStatus, ValidatingRuleStatus};
use checkpoint::types::policy::CronPolicyStatus;
use checkpoint::types::testcase::{
    join_or_absolute, judge, CaseResult, FilePathOrObject, Mismatch, StubSpec,
};
use checkpoint::util::{find_group_version_pairs_by_kind, ApiGroupResources, ApiVersionResources, Discovery};

#[test]
fn labels_are_a_map_in_key_order() {
    let mut l = Labels::new();
    assert_eq!(l.len(), 0);
    l.insert("b".to_string(), "2".to_string());
    l.insert("a".to_string(), "1".to_string());
    l.insert("c".to_string(), "3".to_string());
    l.insert("b".to_string(), "two".to_string());
    assert_eq!(l.len(), 3);
    assert_eq!(l.get("a"), Some("1".to_string()));
    assert_eq!(l.get("b"), Some("two".to_string()));
    assert_eq!(l.get("d"), None);
    assert_eq!(
        l.to_vec(),
        vec![
            ("a".to_string(), "1".to_string()),
            ("b".to_string(), "two".to_string()),
            ("c".to_string(), "3".to_string())
        ]
    );
    let mut m = Labels::single("c".to_string(), "3".to_string());
    m.insert("a".to_string(), "1".to_string());
    m.insert("b".to_string(), "two".to_string());
    assert_eq!(l, m);
    assert_eq!(l.clone(), m);
}

#[test]
fn strings_are_ordered_by_code_points() {
    assert!(string_lt("", "a"));
    assert!(!string_lt("a", ""));
    assert!(!string_lt("a", "a"));
    assert!(string_lt("a", "ab"));
    assert!(string_lt("ab", "b"));
    assert!(string_lt("other-namespace", "some-namespace"));
    assert!(string_lt("Z", "a"));
    assert!(string_lt("z", "\u{e9}"));
    assert_eq!(string_lt("x\u{10000}", "x\u{ffff}"), "x\u{10000}" < "x\u{ffff}");
    assert!(string_eq("abc", "abc"));
    assert!(!string_eq("abc", "abd"));
    assert!(!string_eq("abc", "ab"));
}

#[test]
fn text_helpers() {
    assert_eq!(string_of(&chars_of("h\u{e9}llo")), "h\u{e9}llo");
    assert_eq!(chars_of("ab"), vec!['a', 'b']);
    assert!(starts_with_str("checkpoint", "check"));
    assert!(starts_with_str("checkpoint", ""));
    assert!(!starts_with_str("check", "checkpoint"));
    assert!(ends_with_str("checkpoint", "point"));
    assert!(!ends_with_str("checkpoint", "check"));
    assert!(ends_with_str("", ""));
    assert!(vec_contains(&chars_of("a needle b"), &chars_of("needle")));
    assert!(vec_contains(&chars_of("needle"), &chars_of("")));
    assert!(!vec_contains(&chars_of("needl"), &chars_of("needle")));
    assert!(vec_contains(&chars_of("xxneedle"), &chars_of("needle")));
    assert_eq!(string_of(&to_ascii_lowercase("DaemonSet \u{c9}Z")), "daemonset \u{c9}z");
}

fn version(v: &str, kinds: &[&str]) -> ApiVersionResources {
    ApiVersionResources {
        group_version: v.to_string(),
        version: v.to_string(),
        kinds: kinds.iter().map(|k| k.to_string()).collect(),
    }
}

#[test]
fn discovery_pairs_in_order() {
    let d = Discovery {
        groups: vec![
            ApiGroupResources {
                name: "apps".to_string(),
                preferred_version: Some(version("v1", &["Deployment", "Deployment"])),
                versions: vec![version("v1beta1", &["Deployment"]), version("v1", &["Deployment", "Deployment"])],
            },
            ApiGroupResources {
                name: "none".to_string(),
                preferred_version: None,
                versions: Vec::new(),
            },
            ApiGroupResources {
                name: "first".to_string(),
                preferred_version: None,
                versions: vec![version("v2", &["Deployment"]), version("v1", &["Other"])],
            },
        ],
        core_versions: vec![version("v1", &["Pod", "Pod"]), version("v2", &["Pod", "Deployment"])],
    };
    let p = |g: &str, v: &str| (g.to_string(), v.to_string());
    assert_eq!(
        find_group_version_pairs_by_kind("Deployment", true, &d),
        vec![p("apps", "v1"), p("first", "v2")]
    );
    assert_eq!(
        find_group_version_pairs_by_kind("Deployment", false, &d),
        vec![p("apps", "v1beta1"), p("apps", "v1"), p("first", "v2"), p("", "v2")]
    );
    assert_eq!(find_group_version_pairs_by_kind("Pod", true, &d), vec![p("", "v1")]);
    assert_eq!(find_group_version_pairs_by_kind("Pod", false, &d), vec![p("", "v1"), p("", "v2")]);
    assert_eq!(find_group_version_pairs_by_kind("Other", true, &d), Vec::new());
    assert_eq!(find_group_version_pairs_by_kind("Other", false, &d), vec![p("first", "v1")]);
    assert!(!d.check_versions());
    let empty = Discovery { groups: Vec::new(), core_versions: Vec::new() };
    assert_eq!(find_group_version_pairs_by_kind("Pod", true, &empty), Vec::new());
    assert!(!empty.check_versions());
    let core = Discovery { groups: Vec::new(), core_versions: vec![version("v1", &[])] };
    assert!(core.check_versions());
}

#[test]
fn placeholder_lines_are_replaced() {
    let yaml = format!(
        "metadata:\n  labels:\n    {}: {}\n  name: x\n\nspec: {}\n",
        LABEL_PLACEHOLDER, LABEL_PLACEHOLDER, "{}"
    );
    let expected = format!(
        "metadata:\n  labels:\n{}\n  name: x\n\nspec: {}\n",
        LABEL_REPLACE_TARGET, "{}"
    );
    assert_eq!(replace_placeholder(yaml), expected);
    assert_eq!(replace_placeholder(String::new()), "");
    assert_eq!(replace_placeholder("a\n".to_string()), "a\n");
    assert_eq!(replace_placeholder("\n\n".to_string()), "\n\n");
    assert_eq!(
        replace_placeholder(LABEL_PLACEHOLDER.to_string()),
        "    {{- include \"checkpoint.labels\" . | nindent 4 }}"
    );
    assert_eq!(LABEL_PLACEHOLDER, "CHECKPOINT_LABEL_PLACEHOLDER");
}

#[test]
fn lines_are_what_stands_between_line_feeds() {
    let lines: Vec<String> = split_lines("a\n\nbc\n").iter().map(|l| l.iter().collect()).collect();
    assert_eq!(lines, vec!["a", "", "bc", ""]);
    assert_eq!(split_lines("").len(), 1);
}

#[test]
fn placeholder_label_is_added() {
    let meta = ObjectMeta {
        name: Some("x".to_string()),
        namespace: None,
        owner_references: Some(vec![OwnerReference::default()]),
        labels: Some(Labels::single("keep".to_string(), "me".to_string())),
        annotations: None,
    };
    let out = add_label_placeholder(meta);
    let labels = out.labels.unwrap();
    assert_eq!(labels.len(), 2);
    assert_eq!(labels.get("keep"), Some("me".to_string()));
    assert_eq!(labels.get(LABEL_PLACEHOLDER), Some(LABEL_PLACEHOLDER.to_string()));
    assert_eq!(out.name, Some("x".to_string()));
    assert_eq!(out.owner_references, Some(vec![OwnerReference::default()]));
    let bare = ObjectMeta { name: None, namespace: None, owner_references: None, labels: None, annotations: None };
    assert_eq!(add_label_placeholder(bare).labels.unwrap().len(), 1);
}

#[test]
fn watcher_watches_each_path_once() {
    let mut w = FileWatcher::new(10);
    assert_eq!(w.buffer(), 10);
    assert_eq!(w.paths(), Vec::<String>::new());
    w.watch("/tls/tls.crt".to_string());
    w.watch("/tls/tls.key".to_string());
    w.watch("/tls/tls.crt".to_string());
    assert_eq!(w.paths(), vec!["/tls/tls.crt".to_string(), "/tls/tls.key".to_string()]);
    assert_eq!(w.buffer(), 10);
}

#[test]
fn removed_files_are_watched_anew() {
    let paths = vec!["/a".to_string(), "/b".to_string()];
    assert_eq!(paths_to_rewatch(true, &paths), paths);
    assert_eq!(paths_to_rewatch(false, &paths), Vec::<String>::new());
    assert_eq!(paths_to_rewatch(true, &Vec::new()), Vec::<String>::new());
}

#[test]
fn paths_are_taken_from_the_base_unless_absolute() {
    assert_eq!(join_or_absolute("/cases", "rule.yaml"), "/cases/rule.yaml");
    assert_eq!(join_or_absolute("/cases/", "rule.yaml"), "/cases/rule.yaml");
    assert_eq!(join_or_absolute("/cases", "/etc/rule.yaml"), "/etc/rule.yaml");
    assert_eq!(join_or_absolute("", "rule.yaml"), "rule.yaml");
    assert_eq!(join_or_absolute("cases", ""), "cases/");
    assert_eq!(
        join_or_absolute("/cases", "rule.yaml"),
        std::path::Path::new("/cases").join("rule.yaml").to_str().unwrap()
    );
    let f: FilePathOrObject<u8> = FilePathOrObject::FilePath("x.yaml".to_string());
    assert_eq!(f.path_to_read("/b"), Some("/b/x.yaml".to_string()));
    let o: FilePathOrObject<u8> = FilePathOrObject::Object(1);
    assert_eq!(o.path_to_read("/b"), None);
    let s = StubSpec { parameter: 1u8, output: o.clone() };
    assert_eq!(s.output, o);
}

#[test]
fn defaults_and_plain_types() {
    assert_eq!(default_listen_addr(), "[::]:3000");
    let w = WebhookConfig {
        cert_path: "/c".to_string(),
        key_path: "/k".to_string(),
        listen_addr: default_listen_addr(),
    };
    assert_eq!(w.clone(), w);
    let c = CheckerConfig {
        policy_name: "p".to_string(),
        resources: Vec::new(),
        code: String::new(),
        notifications: CronPolicyNotification { slack: None, webhook: None },
    };
    assert_eq!(c.clone(), c);
    assert_eq!(ValidatingRuleStatus(RuleStatus {}), ValidatingRuleStatus(RuleStatus {}));
    assert_eq!(MutatingRuleStatus(RuleStatus {}), MutatingRuleStatus(RuleStatus {}));
    assert_eq!(CronPolicyStatus {}, CronPolicyStatus {});
}

#[test]
fn cases_are_judged_by_the_first_difference() {
    let r = |allowed: bool, message: &str| CaseResult { allowed, message: message.to_string() };
    assert_eq!(judge(&r(true, ""), &r(true, ""), true), Ok(()));
    assert_eq!(judge(&r(true, ""), &r(false, ""), false), Err(Mismatch::Allowed(true, false)));
    assert_eq!(
        judge(&r(false, "no"), &r(false, "nope"), false),
        Err(Mismatch::Message("no".to_string(), "nope".to_string()))
    );
    assert_eq!(judge(&r(false, "no"), &r(false, "no"), false), Err(Mismatch::FinalObject));
}
