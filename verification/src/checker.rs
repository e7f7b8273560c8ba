//! The audit worker: what it asks of the cluster for a policy's resources,
//! and what it sends when the policy's script reports a violation.

use crate::handler::helper::{api_resource, api_resource_of, ApiResource, ApiResourceView};
use crate::text::chars_of;
use crate::types::labels::Labels;
use crate::types::policy::{
    CronPolicyNotification, CronPolicyNotificationSlack, CronPolicyNotificationSlackView,
    CronPolicyNotificationWebhook, CronPolicyNotificationWebhookMethod,
    CronPolicyNotificationWebhookView, CronPolicyResource, CronPolicyResourceListParams,
    CronPolicyResourceListParamsView, CronPolicyResourceView,
};
use crate::types::views::result_view;
use crate::util::{find_group_version_pairs_by_kind, group_version_pairs, Discovery, DiscoveryView, GroupVersion};
use vstd::prelude::*;
use vstd::string::*;

verus! {

/// What the cluster is asked for one resource of a policy.
#[derive(Debug, PartialEq, Eq)]
pub struct FetchRequest {
    /// The kind of resource.
    pub api_resource: ApiResource,
    /// Namespace of the resource; all namespaces where none is given.
    pub namespace: Option<String>,
    /// Name of the one object to get; a listing where none is given.
    pub name: Option<String>,
    /// Parameters of the listing.
    pub list_params: CronPolicyResourceListParams,
}

/// The view of [`FetchRequest`]: strings as sequences of characters, lists as sequences.
pub struct FetchRequestView {
    pub api_resource: ApiResourceView,
    pub namespace: Option<Seq<char>>,
    pub name: Option<Seq<char>>,
    pub list_params: CronPolicyResourceListParamsView,
}

impl DeepView for FetchRequest {
    type V = FetchRequestView;

    open spec fn deep_view(&self) -> FetchRequestView {
        FetchRequestView {
            api_resource: self.api_resource.deep_view(),
            namespace: self.namespace.deep_view(),
            name: self.name.deep_view(),
            list_params: self.list_params.deep_view(),
        }
    }
}

impl View for FetchRequest {
    type V = FetchRequestView;

    open spec fn view(&self) -> FetchRequestView {
        self.deep_view()
    }
}

impl Clone for FetchRequest {
    fn clone(&self) -> (r: Self)
        ensures
            r@ == self@,
    {
        FetchRequest {
            api_resource: self.api_resource.clone(),
            namespace: self.namespace.clone(),
            name: self.name.clone(),
            list_params: self.list_params.clone(),
        }
    }
}

/// A message to a Slack incoming webhook.
#[derive(Debug, PartialEq, Eq)]
pub struct SlackRequest {
    /// URL of the webhook.
    pub url: String,
    /// The text of the message, which says that the policy is firing.
    pub text: String,
    /// The body of the message, made from the policy's template.
    pub message: String,
}

/// The view of [`SlackRequest`]: strings as sequences of characters, lists as sequences.
pub struct SlackRequestView {
    pub url: Seq<char>,
    pub text: Seq<char>,
    pub message: Seq<char>,
}

impl DeepView for SlackRequest {
    type V = SlackRequestView;

    open spec fn deep_view(&self) -> SlackRequestView {
        SlackRequestView {
            url: self.url.deep_view(),
            text: self.text.deep_view(),
            message: self.message.deep_view(),
        }
    }
}

impl View for SlackRequest {
    type V = SlackRequestView;

    open spec fn view(&self) -> SlackRequestView {
        self.deep_view()
    }
}

impl Clone for SlackRequest {
    fn clone(&self) -> (r: Self)
        ensures
            r@ == self@,
    {
        SlackRequest {
            url: self.url.clone(),
            text: self.text.clone(),
            message: self.message.clone(),
        }
    }
}

/// A request to a custom webhook.
#[derive(Debug, PartialEq, Eq)]
pub struct WebhookRequest {
    /// URL of the webhook.
    pub url: String,
    /// HTTP method of the request.
    pub method: CronPolicyNotificationWebhookMethod,
    /// HTTP headers of the request.
    pub headers: Labels,
    /// Body of the request, made from the policy's template.
    pub body: String,
}

/// The view of [`WebhookRequest`]: strings as sequences of characters, lists as sequences.
pub struct WebhookRequestView {
    pub url: Seq<char>,
    pub method: CronPolicyNotificationWebhookMethod,
    pub headers: Map<Seq<char>, Seq<char>>,
    pub body: Seq<char>,
}

impl DeepView for WebhookRequest {
    type V = WebhookRequestView;

    open spec fn deep_view(&self) -> WebhookRequestView {
        WebhookRequestView {
            url: self.url.deep_view(),
            method: self.method,
            headers: self.headers.deep_view(),
            body: self.body.deep_view(),
        }
    }
}

impl View for WebhookRequest {
    type V = WebhookRequestView;

    open spec fn view(&self) -> WebhookRequestView {
        self.deep_view()
    }
}

impl Clone for WebhookRequest {
    fn clone(&self) -> (r: Self)
        ensures
            r@ == self@,
    {
        WebhookRequest {
            url: self.url.clone(),
            method: self.method,
            headers: self.headers.clone(),
            body: self.body.clone(),
        }
    }
}

/// What the cluster gave for one resource of a policy: one object or none
/// where the resource names an object, else a list.
#[derive(Debug, PartialEq, Eq)]
pub enum SingleOrList<T> {
    /// The object of the name, where there is one.
    Single(Option<T>),
    /// The objects of the listing.
    List(Vec<T>),
}

/// What can go wrong in the audit worker.
#[derive(Debug, PartialEq, Eq)]
pub enum Error {
    /// No group and version serves the kind, which the variant holds.
    GroupVersionNotExists(String),
    /// More than one group and version serve the kind, which the variant holds.
    MultipleGroupVersion(String),
}

/// The view of [`Error`].
pub enum ErrorView {
    GroupVersionNotExists(Seq<char>),
    MultipleGroupVersion(Seq<char>),
}

impl DeepView for Error {
    type V = ErrorView;

    open spec fn deep_view(&self) -> ErrorView {
        match self {
            Error::GroupVersionNotExists(k) => ErrorView::GroupVersionNotExists(k@),
            Error::MultipleGroupVersion(k) => ErrorView::MultipleGroupVersion(k@),
        }
    }
}

impl View for Error {
    type V = ErrorView;

    open spec fn view(&self) -> ErrorView {
        self.deep_view()
    }
}

impl ErrorView {
    /// The message of the error.
    pub open spec fn message(self) -> Seq<char> {
        match self {
            ErrorView::GroupVersionNotExists(k) => "specifed kind (`"@ + k
                + "`) does not have matching group/versions"@,
            ErrorView::MultipleGroupVersion(k) => "specifed kind (`"@ + k
                + "`) has multiple matching group/versions"@,
        }
    }
}

impl Error {
    /// The message of the error.
    pub fn to_string(&self) -> (r: String)
        ensures
            r@ == self@.message(),
    {
        match self {
            Error::GroupVersionNotExists(k) => String::from_str("specifed kind (`").concat(
                k.as_str(),
            ).concat("`) does not have matching group/versions"),
            Error::MultipleGroupVersion(k) => String::from_str("specifed kind (`").concat(
                k.as_str(),
            ).concat("`) has multiple matching group/versions"),
        }
    }
}

/// The group and version of a resource: those it names, or the only pair
/// that discovery finds for its kind.
pub open spec fn group_version_of(r: CronPolicyResourceView, d: DiscoveryView) -> Result<
    GroupVersion,
    ErrorView,
> {
    if r.group is Some && r.version is Some {
        Ok((r.group.unwrap(), r.version.unwrap()))
    } else {
        let gvs = group_version_pairs(d, r.kind, true);
        if gvs.len() == 0 {
            Err(ErrorView::GroupVersionNotExists(r.kind))
        } else if gvs.len() > 1 {
            Err(ErrorView::MultipleGroupVersion(r.kind))
        } else {
            Ok(gvs[0])
        }
    }
}

/// The group and version of a resource: those it names, or the only pair
/// that discovery finds for its kind. It fails where discovery finds none,
/// and where it finds several.
pub fn get_group_version_from_resource(resource: &CronPolicyResource, discovery: &Discovery) -> (r:
    Result<(String, String), Error>)
    ensures
        result_view(r) == group_version_of(resource@, discovery@),
{
    match (&resource.group, &resource.version) {
        (Some(group), Some(version)) => {
            return Ok((group.clone(), version.clone()));
        },
        _ => {},
    }
    let mut gvs = find_group_version_pairs_by_kind(resource.kind.as_str(), true, discovery);
    if gvs.len() == 0 {
        Err(Error::GroupVersionNotExists(resource.kind.clone()))
    } else if gvs.len() > 1 {
        Err(Error::MultipleGroupVersion(resource.kind.clone()))
    } else {
        assert(gvs.deep_view()[0] == (gvs@[0].0@, gvs@[0].1@));
        let gv = gvs.remove(0);
        Ok(gv)
    }
}

/// Whether the resources cannot be fetched without discovery: they cannot
/// where a resource names no group or no version.
pub open spec fn needs_group_versions(rs: Seq<CronPolicyResourceView>) -> bool {
    exists|i: int|
        0 <= i < rs.len() && ((#[trigger] rs[i]).group is None || rs[i].version is None)
}

/// Whether the resources cannot be fetched without discovery.
pub fn needs_discovery(resources: &Vec<CronPolicyResource>) -> (r: bool)
    ensures
        r == needs_group_versions(resources.deep_view()),
{
    let mut i: usize = 0;
    while i < resources.len()
        invariant
            i <= resources.len(),
            forall|k: int|
                0 <= k < i ==> (#[trigger] resources.deep_view()[k]).group is Some
                    && resources.deep_view()[k].version is Some,
        decreases resources.len() - i,
    {
        if resources[i].group.is_none() || resources[i].version.is_none() {
            assert(resources.deep_view()[i as int].group is None
                || resources.deep_view()[i as int].version is None);
            return true;
        }
        i += 1;
    }
    false
}

/// The parameters of a listing, where the resource names none.
pub open spec fn list_params_of(p: Option<CronPolicyResourceListParamsView>) -> CronPolicyResourceListParamsView {
    match p {
        Some(p) => p,
        None => CronPolicyResourceListParamsView { label_selector: None, field_selector: None },
    }
}

/// What the cluster is asked for one resource of a policy.
pub open spec fn fetch_request_of(r: CronPolicyResourceView, d: DiscoveryView) -> Result<
    FetchRequestView,
    ErrorView,
> {
    match group_version_of(r, d) {
        Err(e) => Err(e),
        Ok(gv) => Ok(
            FetchRequestView {
                api_resource: api_resource_of(gv.0, gv.1, r.kind, r.plural),
                namespace: r.namespace,
                name: r.name,
                list_params: list_params_of(r.list_params),
            },
        ),
    }
}

/// What the cluster is asked for one resource of a policy: the object of
/// the name where the resource names one, else a listing, in the resource's
/// namespace or in all.
pub fn fetch_request(resource: &CronPolicyResource, discovery: &Discovery) -> (r: Result<
    FetchRequest,
    Error,
>)
    ensures
        result_view(r) == fetch_request_of(resource@, discovery@),
{
    let (group, version) = match get_group_version_from_resource(resource, discovery) {
        Ok(gv) => gv,
        Err(e) => {
            return Err(e);
        },
    };
    let list_params = match &resource.list_params {
        Some(p) => p.clone(),
        None => CronPolicyResourceListParams { label_selector: None, field_selector: None },
    };
    Ok(
        FetchRequest {
            api_resource: api_resource(
                group.as_str(),
                version.as_str(),
                resource.kind.as_str(),
                &resource.plural,
            ),
            namespace: resource.namespace.clone(),
            name: resource.name.clone(),
            list_params,
        },
    )
}

/// What the cluster is asked for the resources of a policy, one request for
/// each in their order, or the error of the first resource that has none.
pub open spec fn fetch_requests_of(rs: Seq<CronPolicyResourceView>, d: DiscoveryView) -> Result<
    Seq<FetchRequestView>,
    ErrorView,
>
    decreases rs.len(),
{
    if rs.len() == 0 {
        Ok(Seq::empty())
    } else {
        match fetch_requests_of(rs.drop_last(), d) {
            Err(e) => Err(e),
            Ok(done) => match fetch_request_of(rs.last(), d) {
                Err(e) => Err(e),
                Ok(r) => Ok(done.push(r)),
            },
        }
    }
}

/// Where the resources before `i` have requests and the one at `i` has
/// none, the whole list has the error of that one.
pub proof fn lemma_first_fetch_error(rs: Seq<CronPolicyResourceView>, d: DiscoveryView, i: int)
    requires
        0 <= i < rs.len(),
        fetch_requests_of(rs.take(i), d) is Ok,
        fetch_request_of(rs[i], d) is Err,
    ensures
        fetch_requests_of(rs, d) is Err,
        fetch_requests_of(rs, d)->Err_0 == fetch_request_of(rs[i], d)->Err_0,
    decreases rs.len(),
{
    if i == rs.len() - 1 {
        assert(rs.drop_last() =~= rs.take(i));
    } else {
        assert(rs.drop_last().take(i) =~= rs.take(i));
        lemma_first_fetch_error(rs.drop_last(), d, i);
    }
}

/// What the cluster is asked for the resources of a policy: one request for
/// each resource, in their order, so that the script gets its inputs in the
/// order of the policy's resources.
pub fn fetch_resources(resources: &Vec<CronPolicyResource>, discovery: &Discovery) -> (r: Result<
    Vec<FetchRequest>,
    Error,
>)
    ensures
        result_view(r) == fetch_requests_of(resources.deep_view(), discovery@),
        r matches Ok(requests) ==> requests.len() == resources.len(),
{
    let ghost rs = resources.deep_view();
    let mut out: Vec<FetchRequest> = Vec::new();
    let mut i: usize = 0;
    assert(rs.take(0) =~= Seq::empty());
    assert(out.deep_view() =~= Seq::empty());
    while i < resources.len()
        invariant
            i <= resources.len(),
            out.len() == i,
            rs == resources.deep_view(),
            fetch_requests_of(rs.take(i as int), discovery@) == Ok::<
                Seq<FetchRequestView>,
                ErrorView,
            >(out.deep_view()),
        decreases resources.len() - i,
    {
        assert(rs.take(i + 1).drop_last() =~= rs.take(i as int));
        assert(rs.take(i + 1).last() == resources[i as int]@);
        let ghost before = out.deep_view();
        match fetch_request(&resources[i], discovery) {
            Ok(r) => {
                out.push(r);
                assert(out.deep_view() =~= before.push(r@));
            },
            Err(e) => {
                proof {
                    lemma_first_fetch_error(rs, discovery@, i as int);
                }
                return Err(e);
            },
        }
        i += 1;
    }
    assert(rs.take(rs.len() as int) =~= rs);
    Ok(out)
}

/// Why a template gave no text.
#[derive(Debug, PartialEq, Eq)]
pub enum TemplateError {
    /// The template asks for a value that the context does not hold; the
    /// variant holds the key.
    MissingValue(String),
    /// The template is not well formed; the variant holds what is wrong.
    Invalid(String),
    /// A placeholder of the template holds a colon. How a value is to be
    /// shown cannot be chosen in the templates of a policy.
    FormatSpec,
}

/// The view of [`TemplateError`].
pub enum TemplateErrorView {
    MissingValue(Seq<char>),
    Invalid(Seq<char>),
    FormatSpec,
}

impl DeepView for TemplateError {
    type V = TemplateErrorView;

    open spec fn deep_view(&self) -> TemplateErrorView {
        match self {
            TemplateError::MissingValue(k) => TemplateErrorView::MissingValue(k@),
            TemplateError::Invalid(m) => TemplateErrorView::Invalid(m@),
            TemplateError::FormatSpec => TemplateErrorView::FormatSpec,
        }
    }
}

impl View for TemplateError {
    type V = TemplateErrorView;

    open spec fn view(&self) -> TemplateErrorView {
        self.deep_view()
    }
}

/// The place of the first colon or closing brace of `t` at or after `k`, or
/// the length of `t` where there is none.
pub open spec fn first_stop(t: Seq<char>, k: int) -> int
    decreases t.len() - k,
{
    if k < 0 || k >= t.len() {
        t.len() as int
    } else if t[k] == ':' || t[k] == '}' {
        k
    } else {
        first_stop(t, k + 1)
    }
}

/// The first stop lies at or after where the search begins.
pub proof fn lemma_first_stop_bounds(t: Seq<char>, k: int)
    requires
        0 <= k <= t.len(),
    ensures
        k <= first_stop(t, k) <= t.len(),
    decreases t.len() - k,
{
    if k < t.len() && !(t[k] == ':' || t[k] == '}') {
        lemma_first_stop_bounds(t, k + 1);
    }
}

/// Whether no placeholder of `t` from `i` on holds a colon. Doubled braces
/// stand for a brace and open no placeholder; a placeholder reaches from an
/// opening brace to the next closing one.
pub open spec fn plain_from(t: Seq<char>, i: int) -> bool
    decreases t.len() - i,
{
    if i < 0 || i >= t.len() {
        true
    } else if t[i] == '{' {
        if i + 1 < t.len() && t[i + 1] == '{' {
            plain_from(t, i + 2)
        } else {
            let j = first_stop(t, i + 1);
            if j >= t.len() {
                true
            } else if t[j] == ':' {
                false
            } else {
                proof {
                    lemma_first_stop_bounds(t, i + 1);
                }
                plain_from(t, j + 1)
            }
        }
    } else if t[i] == '}' && i + 1 < t.len() && t[i + 1] == '}' {
        plain_from(t, i + 2)
    } else {
        plain_from(t, i + 1)
    }
}

/// Whether no placeholder of the template holds a colon.
pub open spec fn is_plain(t: Seq<char>) -> bool {
    plain_from(t, 0)
}

/// Whether no placeholder of the template holds a colon.
pub fn is_plain_template(template: &str) -> (r: bool)
    ensures
        r == is_plain(template@),
{
    let t = chars_of(template);
    let n = t.len();
    let mut i: usize = 0;
    while i < n
        invariant
            i <= n + 1,
            n == t.len(),
            t@ == template@,
            is_plain(t@) == plain_from(t@, i as int),
        decreases n + 1 - i,
    {
        if t[i] == '{' {
            if i + 1 < n && t[i + 1] == '{' {
                i += 2;
            } else {
                let mut j: usize = i + 1;
                while j < n && !(t[j] == ':' || t[j] == '}')
                    invariant
                        i + 1 <= j <= n,
                        n == t.len(),
                        first_stop(t@, i + 1) == first_stop(t@, j as int),
                    decreases n - j,
                {
                    j += 1;
                }
                if j >= n {
                    return true;
                }
                if t[j] == ':' {
                    return false;
                }
                i = j + 1;
            }
        } else if t[i] == '}' && i + 1 < n && t[i + 1] == '}' {
            i += 2;
        } else {
            i += 1;
        }
    }
    true
}

/// What `interpolator` makes of a template and a context of keys and
/// values: the text, or why there is none: with `true` the key that the
/// context lacks, with `false` what is wrong with the template.
pub uninterp spec fn interpolated(template: Seq<char>, context: Seq<(Seq<char>, Seq<char>)>) -> Result<
    Seq<char>,
    (bool, Seq<char>),
>;

/// `interpolator::format` with a context in which each key shows its value
/// as it is; of two entries with one key the later counts. The result
/// depends on the template and the context alone, and a key is reported as
/// missing only where the context does not hold it. Templates with a colon
/// in a placeholder are left out: `interpolator` may fail on them or pad
/// without bound.
#[verifier::external_body]
fn format_template(template: &str, context: &Vec<(String, String)>) -> (r: Result<
    String,
    (bool, String),
>)
    requires
        is_plain(template@),
    ensures
        result_view(r) == interpolated(template@, context.deep_view()),
        r matches Err((true, key)) ==> forall|i: int|
            0 <= i < context.len() ==> (#[trigger] context.deep_view()[i]).0 != key@,
{
    let map: std::collections::HashMap<&str, interpolator::Formattable<'_>> = context.iter().map(
        |kv| (kv.0.as_str(), interpolator::Formattable::display(&kv.1)),
    ).collect();
    interpolator::format(template, &map).map_err(
        |e| match e {
            interpolator::Error::MissingValue(key, _) => (true, key),
            other => (false, other.to_string()),
        },
    )
}

/// Why a template gave no text, given what `interpolator` reports.
pub open spec fn template_error_of(e: (bool, Seq<char>)) -> TemplateErrorView {
    if e.0 {
        TemplateErrorView::MissingValue(e.1)
    } else {
        TemplateErrorView::Invalid(e.1)
    }
}

/// The text that a template gives in a context.
pub open spec fn interpolation(template: Seq<char>, context: Seq<(Seq<char>, Seq<char>)>) -> Result<
    Seq<char>,
    TemplateErrorView,
> {
    if !is_plain(template) {
        Err(TemplateErrorView::FormatSpec)
    } else {
        match interpolated(template, context) {
            Ok(text) => Ok(text),
            Err(e) => Err(template_error_of(e)),
        }
    }
}

/// What a rendering comes to, given what `interpolator` made of it.
pub fn rendering(formatted: Result<String, (bool, String)>) -> (r: Result<String, TemplateError>)
    ensures
        match formatted {
            Ok(text) => (r matches Ok(t) && t@ == text@),
            Err((missing, m)) => (r matches Err(e) && e@ == template_error_of((missing, m@))),
        },
{
    match formatted {
        Ok(text) => Ok(text),
        Err((missing, m)) => if missing {
            Err(TemplateError::MissingValue(m))
        } else {
            Err(TemplateError::Invalid(m))
        },
    }
}

/// The text that a template gives in a context: each placeholder `{key}`
/// stands for the value of `key`. A key that the context does not hold is
/// an error; nothing is put in its place.
pub fn interpolate(template: &str, context: &Vec<(String, String)>) -> (r: Result<
    String,
    TemplateError,
>)
    ensures
        result_view(r) == interpolation(template@, context.deep_view()),
        r matches Err(TemplateError::MissingValue(key)) ==> forall|i: int|
            0 <= i < context.len() ==> (#[trigger] context.deep_view()[i]).0 != key@,
{
    if !is_plain_template(template) {
        return Err(TemplateError::FormatSpec);
    }
    rendering(format_template(template, context))
}

/// The context of a policy's templates: under `output.` and its key each
/// value that the script put out, and the policy's name under `policy.name`.
pub open spec fn context_of(policy_name: Seq<char>, output: Seq<(Seq<char>, Seq<char>)>) -> Seq<
    (Seq<char>, Seq<char>),
> {
    output.map_values(|kv: (Seq<char>, Seq<char>)| ("output."@ + kv.0, kv.1)).push(
        ("policy.name"@, policy_name),
    )
}

/// The context of a policy's templates.
pub fn notification_context(policy_name: &str, output: &Vec<(String, String)>) -> (r: Vec<
    (String, String),
>)
    ensures
        r.deep_view() == context_of(policy_name@, output.deep_view()),
{
    let mut context: Vec<(String, String)> = Vec::new();
    let mut i: usize = 0;
    while i < output.len()
        invariant
            i <= output.len(),
            context.len() == i,
            forall|k: int|
                0 <= k < i ==> (#[trigger] context.deep_view()[k]) == ("output."@
                    + output.deep_view()[k].0, output.deep_view()[k].1),
        decreases output.len() - i,
    {
        let ghost before = context.deep_view();
        let key = String::from_str("output.").concat(output[i].0.as_str());
        let value = output[i].1.clone();
        context.push((key, value));
        assert(context.deep_view() =~= before.push((key@, value@)));
        i += 1;
    }
    let ghost before = context.deep_view();
    let name = String::from_str(policy_name);
    context.push((String::from_str("policy.name"), name));
    assert(context.deep_view() =~= before.push(("policy.name"@, policy_name@)));
    assert(context.deep_view() =~= context_of(policy_name@, output.deep_view()));
    context
}

/// The message to Slack for a policy that is firing.
pub open spec fn slack_request_of(
    policy_name: Seq<char>,
    context: Seq<(Seq<char>, Seq<char>)>,
    config: CronPolicyNotificationSlackView,
) -> Result<SlackRequestView, TemplateErrorView> {
    match interpolation(config.message, context) {
        Err(e) => Err(e),
        Ok(message) => Ok(
            SlackRequestView { url: config.webhook_url, text: policy_name + " is firing"@, message },
        ),
    }
}

/// The message to Slack for a policy that is firing: its text names the
/// policy, its body is the policy's template in the context.
pub fn notify_slack(
    policy_name: &str,
    context: &Vec<(String, String)>,
    config: &CronPolicyNotificationSlack,
) -> (r: Result<SlackRequest, TemplateError>)
    ensures
        result_view(r) == slack_request_of(policy_name@, context.deep_view(), config@),
{
    match interpolate(config.message.as_str(), context) {
        Err(e) => Err(e),
        Ok(message) => Ok(
            SlackRequest {
                url: config.webhook_url.clone(),
                text: String::from_str(policy_name).concat(" is firing"),
                message,
            },
        ),
    }
}

/// The request to the custom webhook for a policy that is firing.
pub open spec fn webhook_request_of(
    context: Seq<(Seq<char>, Seq<char>)>,
    config: CronPolicyNotificationWebhookView,
) -> Result<WebhookRequestView, TemplateErrorView> {
    match interpolation(config.body, context) {
        Err(e) => Err(e),
        Ok(body) => Ok(
            WebhookRequestView {
                url: config.url,
                method: config.method,
                headers: config.headers,
                body,
            },
        ),
    }
}

/// The request to the custom webhook for a policy that is firing: method,
/// URL and headers are the policy's, the body is the policy's template in
/// the context.
pub fn notify_webhook(context: &Vec<(String, String)>, config: &CronPolicyNotificationWebhook) -> (r:
    Result<WebhookRequest, TemplateError>)
    ensures
        result_view(r) == webhook_request_of(context.deep_view(), config@),
{
    match interpolate(config.body.as_str(), context) {
        Err(e) => Err(e),
        Ok(body) => Ok(
            WebhookRequest {
                url: config.url.clone(),
                method: config.method,
                headers: config.headers.clone(),
                body,
            },
        ),
    }
}

/// What is sent for a policy that is firing: for each notification that the
/// policy enables, the request or why there is none.
pub struct Notifications {
    /// The message to Slack.
    pub slack: Option<Result<SlackRequest, TemplateError>>,
    /// The request to the custom webhook.
    pub webhook: Option<Result<WebhookRequest, TemplateError>>,
}

/// What is sent for a policy whose script put out `output`: a message to
/// Slack and a request to the custom webhook, each where the policy enables
/// it, both made in the context of the policy's name and the output. That
/// one cannot be made does not keep the other from being sent.
pub fn notify(policy_name: &str, output: &Vec<(String, String)>, notifications: &CronPolicyNotification) -> (r:
    Notifications)
    ensures
        match notifications.slack {
            None => r.slack is None,
            Some(config) => (r.slack matches Some(s) && result_view(s) == slack_request_of(
                policy_name@,
                context_of(policy_name@, output.deep_view()),
                config@,
            )),
        },
        match notifications.webhook {
            None => r.webhook is None,
            Some(config) => (r.webhook matches Some(w) && result_view(w) == webhook_request_of(
                context_of(policy_name@, output.deep_view()),
                config@,
            )),
        },
{
    let context = notification_context(policy_name, output);
    let slack = match &notifications.slack {
        Some(config) => Some(notify_slack(policy_name, &context, config)),
        None => None,
    };
    let webhook = match &notifications.webhook {
        Some(config) => Some(notify_webhook(&context, config)),
        None => None,
    };
    Notifications { slack, webhook }
}

/// Whether the output of a script reports a violation: it does where the
/// script put out a map that is not empty.
pub open spec fn is_violation(output: Option<Seq<(Seq<char>, Seq<char>)>>) -> bool {
    output matches Some(o) && o.len() > 0
}

/// The exit code of the audit worker: zero where the script reports no
/// violation, one where it reports one.
pub fn exit_code(output: &Option<Vec<(String, String)>>) -> (code: i32)
    ensures
        code == (if is_violation(output.deep_view()) {
            1i32
        } else {
            0i32
        }),
{
    match output {
        Some(o) => if o.len() > 0 {
            1
        } else {
            0
        },
        None => 0,
    }
}

} // verus!
