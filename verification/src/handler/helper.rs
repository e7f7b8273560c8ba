//! The helpers with which a rule's script reads the cluster: what they ask
//! of the cluster, and under whose identity.

use crate::handler::{diff, json_diff, Error, ErrorView};
use crate::reconcile::policy::{plural_of, to_plural};
use crate::text::{ascii_lowercase, string_of, to_ascii_lowercase};
use crate::types::rule::{ServiceAccountInfo, ServiceAccountInfoView};
use crate::types::views::result_view;
use vstd::prelude::*;
use vstd::string::*;

verus! {

/// Argument of the script helper that gets one object of the cluster.
#[derive(Debug, PartialEq, Eq)]
pub struct KubeGetArgument {
    /// API group of the object.
    pub group: String,
    /// API version of the object.
    pub version: String,
    /// Kind of the object.
    pub kind: String,
    /// Plural name; derived from the kind where none is given.
    pub plural: Option<String>,
    /// Namespace of the object; none for a cluster-wide one.
    pub namespace: Option<String>,
    /// Name of the object.
    pub name: String,
}

/// The view of [`KubeGetArgument`]: strings as sequences of characters, lists as sequences.
pub struct KubeGetArgumentView {
    pub group: Seq<char>,
    pub version: Seq<char>,
    pub kind: Seq<char>,
    pub plural: Option<Seq<char>>,
    pub namespace: Option<Seq<char>>,
    pub name: Seq<char>,
}

impl DeepView for KubeGetArgument {
    type V = KubeGetArgumentView;

    open spec fn deep_view(&self) -> KubeGetArgumentView {
        KubeGetArgumentView {
            group: self.group.deep_view(),
            version: self.version.deep_view(),
            kind: self.kind.deep_view(),
            plural: self.plural.deep_view(),
            namespace: self.namespace.deep_view(),
            name: self.name.deep_view(),
        }
    }
}

impl View for KubeGetArgument {
    type V = KubeGetArgumentView;

    open spec fn view(&self) -> KubeGetArgumentView {
        self.deep_view()
    }
}

impl Clone for KubeGetArgument {
    fn clone(&self) -> (r: Self)
        ensures
            r@ == self@,
    {
        KubeGetArgument {
            group: self.group.clone(),
            version: self.version.clone(),
            kind: self.kind.clone(),
            plural: self.plural.clone(),
            namespace: self.namespace.clone(),
            name: self.name.clone(),
        }
    }
}

/// How a listing treats the resource version it is given.
#[derive(Clone, Copy, Debug, PartialEq, Eq, Structural)]
pub enum KubeListArgumentListParamsVersionMatch {
    NotOlderThan,
    Exact,
}

impl DeepView for KubeListArgumentListParamsVersionMatch {
    type V = KubeListArgumentListParamsVersionMatch;

    open spec fn deep_view(&self) -> KubeListArgumentListParamsVersionMatch {
        *self
    }
}

impl View for KubeListArgumentListParamsVersionMatch {
    type V = KubeListArgumentListParamsVersionMatch;

    open spec fn view(&self) -> KubeListArgumentListParamsVersionMatch {
        *self
    }
}

/// Parameters that restrict a listing by the script helper.
#[derive(Debug, PartialEq, Eq)]
pub struct KubeListArgumentListParams {
    /// Restricts the objects by their labels.
    pub label_selector: Option<String>,
    /// Restricts the objects by their fields.
    pub field_selector: Option<String>,
    /// Timeout of the listing in seconds.
    pub timeout: Option<u32>,
    /// Whether the server may send bookmark events.
    pub bookmarks: bool,
    /// Largest number of objects in one answer.
    pub limit: Option<u32>,
    /// Token with which a limited listing goes on.
    pub continue_token: Option<String>,
    /// How the resource version is treated.
    pub version_match: Option<KubeListArgumentListParamsVersionMatch>,
    /// The resource version to list at.
    pub resource_version: Option<String>,
}

/// The view of [`KubeListArgumentListParams`]: strings as sequences of characters, lists as sequences.
pub struct KubeListArgumentListParamsView {
    pub label_selector: Option<Seq<char>>,
    pub field_selector: Option<Seq<char>>,
    pub timeout: Option<u32>,
    pub bookmarks: bool,
    pub limit: Option<u32>,
    pub continue_token: Option<Seq<char>>,
    pub version_match: Option<KubeListArgumentListParamsVersionMatch>,
    pub resource_version: Option<Seq<char>>,
}

impl DeepView for KubeListArgumentListParams {
    type V = KubeListArgumentListParamsView;

    open spec fn deep_view(&self) -> KubeListArgumentListParamsView {
        KubeListArgumentListParamsView {
            label_selector: self.label_selector.deep_view(),
            field_selector: self.field_selector.deep_view(),
            timeout: self.timeout,
            bookmarks: self.bookmarks,
            limit: self.limit,
            continue_token: self.continue_token.deep_view(),
            version_match: self.version_match,
            resource_version: self.resource_version.deep_view(),
        }
    }
}

impl View for KubeListArgumentListParams {
    type V = KubeListArgumentListParamsView;

    open spec fn view(&self) -> KubeListArgumentListParamsView {
        self.deep_view()
    }
}

impl Clone for KubeListArgumentListParams {
    fn clone(&self) -> (r: Self)
        ensures
            r@ == self@,
    {
        KubeListArgumentListParams {
            label_selector: self.label_selector.clone(),
            field_selector: self.field_selector.clone(),
            timeout: self.timeout,
            bookmarks: self.bookmarks,
            limit: self.limit,
            continue_token: self.continue_token.clone(),
            version_match: self.version_match,
            resource_version: self.resource_version.clone(),
        }
    }
}

/// Argument of the script helper that lists objects of the cluster.
#[derive(Debug, PartialEq, Eq)]
pub struct KubeListArgument {
    /// API group of the objects.
    pub group: String,
    /// API version of the objects.
    pub version: String,
    /// Kind of the objects.
    pub kind: String,
    /// Plural name; derived from the kind where none is given.
    pub plural: Option<String>,
    /// Namespace of the objects; all namespaces where none is given.
    pub namespace: Option<String>,
    /// Parameters of the listing.
    pub list_params: Option<KubeListArgumentListParams>,
}

/// The view of [`KubeListArgument`]: strings as sequences of characters, lists as sequences.
pub struct KubeListArgumentView {
    pub group: Seq<char>,
    pub version: Seq<char>,
    pub kind: Seq<char>,
    pub plural: Option<Seq<char>>,
    pub namespace: Option<Seq<char>>,
    pub list_params: Option<KubeListArgumentListParamsView>,
}

impl DeepView for KubeListArgument {
    type V = KubeListArgumentView;

    open spec fn deep_view(&self) -> KubeListArgumentView {
        KubeListArgumentView {
            group: self.group.deep_view(),
            version: self.version.deep_view(),
            kind: self.kind.deep_view(),
            plural: self.plural.deep_view(),
            namespace: self.namespace.deep_view(),
            list_params: self.list_params.deep_view(),
        }
    }
}

impl View for KubeListArgument {
    type V = KubeListArgumentView;

    open spec fn view(&self) -> KubeListArgumentView {
        self.deep_view()
    }
}

impl Clone for KubeListArgument {
    fn clone(&self) -> (r: Self)
        ensures
            r@ == self@,
    {
        KubeListArgument {
            group: self.group.clone(),
            version: self.version.clone(),
            kind: self.kind.clone(),
            plural: self.plural.clone(),
            namespace: self.namespace.clone(),
            list_params: self.list_params.clone(),
        }
    }
}

/// How a kind of resource is addressed in the cluster's API.
#[derive(Debug, PartialEq, Eq)]
pub struct ApiResource {
    /// API group of the resource.
    pub group: String,
    /// API version of the resource.
    pub version: String,
    /// Group and version as objects name them together.
    pub api_version: String,
    /// Kind of the resource.
    pub kind: String,
    /// Plural name of the resource, as URL paths have it.
    pub plural: String,
}

/// The view of [`ApiResource`]: strings as sequences of characters, lists as sequences.
pub struct ApiResourceView {
    pub group: Seq<char>,
    pub version: Seq<char>,
    pub api_version: Seq<char>,
    pub kind: Seq<char>,
    pub plural: Seq<char>,
}

impl DeepView for ApiResource {
    type V = ApiResourceView;

    open spec fn deep_view(&self) -> ApiResourceView {
        ApiResourceView {
            group: self.group.deep_view(),
            version: self.version.deep_view(),
            api_version: self.api_version.deep_view(),
            kind: self.kind.deep_view(),
            plural: self.plural.deep_view(),
        }
    }
}

impl View for ApiResource {
    type V = ApiResourceView;

    open spec fn view(&self) -> ApiResourceView {
        self.deep_view()
    }
}

impl Clone for ApiResource {
    fn clone(&self) -> (r: Self)
        ensures
            r@ == self@,
    {
        ApiResource {
            group: self.group.clone(),
            version: self.version.clone(),
            api_version: self.api_version.clone(),
            kind: self.kind.clone(),
            plural: self.plural.clone(),
        }
    }
}

/// A request for a short-lived token of a service account.
#[derive(Debug, PartialEq, Eq)]
pub struct TokenRequest {
    /// Namespace of the service account.
    pub namespace: String,
    /// Name of the service account.
    pub name: String,
    /// The audiences that the token is for.
    pub audiences: Vec<String>,
    /// Seconds for which the token is asked to hold.
    pub expiration_seconds: i64,
}

/// The view of [`TokenRequest`]: strings as sequences of characters, lists as sequences.
pub struct TokenRequestView {
    pub namespace: Seq<char>,
    pub name: Seq<char>,
    pub audiences: Seq<Seq<char>>,
    pub expiration_seconds: i64,
}

impl DeepView for TokenRequest {
    type V = TokenRequestView;

    open spec fn deep_view(&self) -> TokenRequestView {
        TokenRequestView {
            namespace: self.namespace.deep_view(),
            name: self.name.deep_view(),
            audiences: self.audiences.deep_view(),
            expiration_seconds: self.expiration_seconds,
        }
    }
}

impl View for TokenRequest {
    type V = TokenRequestView;

    open spec fn view(&self) -> TokenRequestView {
        self.deep_view()
    }
}

impl Clone for TokenRequest {
    fn clone(&self) -> (r: Self)
        ensures
            r@ == self@,
    {
        let audiences = self.audiences.clone();
        assert(audiences.deep_view() =~= self.audiences.deep_view());
        TokenRequest {
            namespace: self.namespace.clone(),
            name: self.name.clone(),
            audiences,
            expiration_seconds: self.expiration_seconds,
        }
    }
}

/// What the cluster is asked when a script gets one object.
#[derive(Debug, PartialEq, Eq)]
pub struct KubeGetRequest {
    /// The token under which the cluster is asked.
    pub token: TokenRequest,
    /// The kind of resource.
    pub api_resource: ApiResource,
    /// Namespace of the object; none for a cluster-wide one.
    pub namespace: Option<String>,
    /// Name of the object.
    pub name: String,
}

/// The view of [`KubeGetRequest`]: strings as sequences of characters, lists as sequences.
pub struct KubeGetRequestView {
    pub token: TokenRequestView,
    pub api_resource: ApiResourceView,
    pub namespace: Option<Seq<char>>,
    pub name: Seq<char>,
}

impl DeepView for KubeGetRequest {
    type V = KubeGetRequestView;

    open spec fn deep_view(&self) -> KubeGetRequestView {
        KubeGetRequestView {
            token: self.token.deep_view(),
            api_resource: self.api_resource.deep_view(),
            namespace: self.namespace.deep_view(),
            name: self.name.deep_view(),
        }
    }
}

impl View for KubeGetRequest {
    type V = KubeGetRequestView;

    open spec fn view(&self) -> KubeGetRequestView {
        self.deep_view()
    }
}

impl Clone for KubeGetRequest {
    fn clone(&self) -> (r: Self)
        ensures
            r@ == self@,
    {
        KubeGetRequest {
            token: self.token.clone(),
            api_resource: self.api_resource.clone(),
            namespace: self.namespace.clone(),
            name: self.name.clone(),
        }
    }
}

/// What the cluster is asked when a script lists objects.
#[derive(Debug, PartialEq, Eq)]
pub struct KubeListRequest {
    /// The token under which the cluster is asked.
    pub token: TokenRequest,
    /// The kind of resource.
    pub api_resource: ApiResource,
    /// Namespace of the objects; all namespaces where none is given.
    pub namespace: Option<String>,
    /// Parameters of the listing.
    pub list_params: Option<KubeListArgumentListParams>,
}

/// The view of [`KubeListRequest`]: strings as sequences of characters, lists as sequences.
pub struct KubeListRequestView {
    pub token: TokenRequestView,
    pub api_resource: ApiResourceView,
    pub namespace: Option<Seq<char>>,
    pub list_params: Option<KubeListArgumentListParamsView>,
}

impl DeepView for KubeListRequest {
    type V = KubeListRequestView;

    open spec fn deep_view(&self) -> KubeListRequestView {
        KubeListRequestView {
            token: self.token.deep_view(),
            api_resource: self.api_resource.deep_view(),
            namespace: self.namespace.deep_view(),
            list_params: self.list_params.deep_view(),
        }
    }
}

impl View for KubeListRequest {
    type V = KubeListRequestView;

    open spec fn view(&self) -> KubeListRequestView {
        self.deep_view()
    }
}

impl Clone for KubeListRequest {
    fn clone(&self) -> (r: Self)
        ensures
            r@ == self@,
    {
        KubeListRequest {
            token: self.token.clone(),
            api_resource: self.api_resource.clone(),
            namespace: self.namespace.clone(),
            list_params: self.list_params.clone(),
        }
    }
}

/// Whether a listing may get bookmark events where its parameters do not say.
pub fn default_kube_list_argument_list_params_bookmarks() -> (r: bool)
    ensures
        r,
{
    true
}

/// Seconds after which the evaluation of a script is cancelled.
pub const EVALUATION_DEADLINE_SECONDS: i32 = 10;

/// Least number of seconds for which a token is asked to hold.
pub const TOKEN_EXPIRATION_SECONDS: i64 = 600;

/// The audience of the tokens under which scripts read the cluster.
pub const TOKEN_AUDIENCE: &'static str = "https://kubernetes.default.svc.cluster.local";

/// The deadline of an evaluation in seconds: the rule's timeout, but ten
/// seconds at most, and ten where the rule names none.
pub open spec fn deadline_seconds(timeout_seconds: Option<i32>) -> i32 {
    match timeout_seconds {
        Some(t) => if t < 10 {
            t
        } else {
            10
        },
        None => 10,
    }
}

/// The deadline of an evaluation in seconds.
pub fn evaluation_deadline_seconds(timeout_seconds: Option<i32>) -> (r: i32)
    ensures
        r == deadline_seconds(timeout_seconds),
{
    match timeout_seconds {
        Some(t) => if t < EVALUATION_DEADLINE_SECONDS {
            t
        } else {
            EVALUATION_DEADLINE_SECONDS
        },
        None => EVALUATION_DEADLINE_SECONDS,
    }
}

/// Seconds for which a token is asked to hold: the rule's timeout, but ten
/// minutes at least.
pub open spec fn expiration_seconds(timeout_seconds: Option<i32>) -> i64 {
    match timeout_seconds {
        Some(t) => if t > 600 {
            t as i64
        } else {
            600
        },
        None => 600,
    }
}

/// Seconds for which a token is asked to hold.
pub fn token_expiration_seconds(timeout_seconds: Option<i32>) -> (r: i64)
    ensures
        r == expiration_seconds(timeout_seconds),
        r >= 600,
{
    match timeout_seconds {
        Some(t) => if (t as i64) > TOKEN_EXPIRATION_SECONDS {
            t as i64
        } else {
            TOKEN_EXPIRATION_SECONDS
        },
        None => TOKEN_EXPIRATION_SECONDS,
    }
}

/// The token that is asked for a rule's service account.
pub open spec fn token_request_of(sa: ServiceAccountInfoView, timeout_seconds: Option<i32>) -> TokenRequestView {
    TokenRequestView {
        namespace: sa.namespace,
        name: sa.name,
        audiences: seq![TOKEN_AUDIENCE@],
        expiration_seconds: expiration_seconds(timeout_seconds),
    }
}

/// The identity under which a script reads the cluster: a token of the
/// rule's service account, or the error that the rule names none.
pub open spec fn capability(sa: Option<ServiceAccountInfoView>, timeout_seconds: Option<i32>) -> Result<
    TokenRequestView,
    ErrorView,
> {
    match sa {
        Some(sa) => Ok(token_request_of(sa, timeout_seconds)),
        None => Err(ErrorView::ServiceAccountInfoNotProvided),
    }
}

/// The identity under which a script reads the cluster. A rule without a
/// service account has none: its script cannot read the cluster, whatever
/// identity the webhook server itself has.
pub fn prepare_kube_client(
    serviceaccount_info: &Option<ServiceAccountInfo>,
    timeout_seconds: Option<i32>,
) -> (r: Result<TokenRequest, Error>)
    ensures
        result_view(r) == capability(serviceaccount_info.deep_view(), timeout_seconds),
        r is Err <==> serviceaccount_info is None,
{
    match serviceaccount_info {
        None => Err(Error::ServiceAccountInfoNotProvided),
        Some(sa) => {
            let mut audiences: Vec<String> = Vec::new();
            audiences.push(String::from_str(TOKEN_AUDIENCE));
            assert(audiences.deep_view() =~= seq![TOKEN_AUDIENCE@]);
            Ok(
                TokenRequest {
                    namespace: sa.namespace.clone(),
                    name: sa.name.clone(),
                    audiences,
                    expiration_seconds: token_expiration_seconds(timeout_seconds),
                },
            )
        },
    }
}

/// What came of asking the cluster for a token.
#[derive(Debug, PartialEq, Eq)]
pub enum TokenResponse {
    /// The cluster answered; with the token, where the answer holds one.
    Answered(Option<String>),
    /// The cluster refused, with this HTTP status and message.
    Refused(u16, String),
    /// The cluster could not be asked; the variant holds the message.
    Failed(String),
}

/// The view of [`TokenResponse`].
pub enum TokenResponseView {
    Answered(Option<Seq<char>>),
    Refused(u16, Seq<char>),
    Failed(Seq<char>),
}

impl DeepView for TokenResponse {
    type V = TokenResponseView;

    open spec fn deep_view(&self) -> TokenResponseView {
        match self {
            TokenResponse::Answered(t) => TokenResponseView::Answered(t.deep_view()),
            TokenResponse::Refused(c, m) => TokenResponseView::Refused(*c, m@),
            TokenResponse::Failed(m) => TokenResponseView::Failed(m@),
        }
    }
}

impl View for TokenResponse {
    type V = TokenResponseView;

    open spec fn view(&self) -> TokenResponseView {
        self.deep_view()
    }
}

/// The token that the cluster gave, or why there is none: the service
/// account does not exist where the cluster refused with 404; the cluster
/// gave no token where its answer holds none.
pub open spec fn token_of(response: TokenResponseView) -> Result<Seq<char>, ErrorView> {
    match response {
        TokenResponseView::Answered(Some(t)) => Ok(t),
        TokenResponseView::Answered(None) => Err(ErrorView::RequestServiceAccountToken),
        TokenResponseView::Refused(code, m) => if code == 404 {
            Err(ErrorView::ServiceAccountNotFound)
        } else {
            Err(ErrorView::Kubernetes(m))
        },
        TokenResponseView::Failed(m) => Err(ErrorView::Kubernetes(m)),
    }
}

/// The token that the cluster gave, or why there is none.
pub fn token_from_response(response: TokenResponse) -> (r: Result<String, Error>)
    ensures
        result_view(r) == token_of(response@),
{
    match response {
        TokenResponse::Answered(Some(t)) => Ok(t),
        TokenResponse::Answered(None) => Err(Error::RequestServiceAccountToken),
        TokenResponse::Refused(code, m) => if code == 404 {
            Err(Error::ServiceAccountNotFound)
        } else {
            Err(Error::Kubernetes(m))
        },
        TokenResponse::Failed(m) => Err(Error::Kubernetes(m)),
    }
}

/// The plural name that `kube` guesses for a kind.
pub uninterp spec fn kube_plural(kind: Seq<char>) -> Seq<char>;

/// The plural name that `kube` lists for a word of ASCII characters in
/// lower case: four words have plurals of their own, every other word has
/// the plural by the rules of regular plurals.
pub open spec fn listed_plural(w: Seq<char>) -> Seq<char> {
    if w == "endpoints"@ || w == "endpointslices"@ {
        w
    } else if w == "nodemetrics"@ {
        "nodes"@
    } else if w == "podmetrics"@ {
        "pods"@
    } else {
        plural_of(w)
    }
}

/// Group and version as objects name them together: the version alone for
/// the empty group, else the group, a slash and the version.
pub open spec fn api_version_of(group: Seq<char>, version: Seq<char>) -> Seq<char> {
    if group.len() == 0 {
        version
    } else {
        group + "/"@ + version
    }
}

/// `kube::core::ApiResource::from_gvk` on `kube::core::GroupVersionKind::gvk`:
/// group, version and kind are those given, the API version is made of group
/// and version, and the plural is what `kube` guesses for the kind. For a
/// kind of ASCII characters the guess is the listed plural of the kind in
/// lower case; for any other kind it has only its name. The kind `y`, in
/// either case, is left out: `kube` fails on it.
#[verifier::external_body]
fn api_resource_from_gvk(group: &str, version: &str, kind: &str) -> (r: ApiResource)
    requires
        ascii_lowercase(kind@) != seq!['y'],
    ensures
        r@.group == group@,
        r@.version == version@,
        r@.kind == kind@,
        r@.api_version == api_version_of(group@, version@),
        r@.plural == kube_plural(kind@),
        vstd::utf8::is_ascii_chars(kind@) ==> r@.plural == listed_plural(ascii_lowercase(kind@)),
{
    let gvk = kube::core::GroupVersionKind::gvk(group, version, kind);
    let ar = kube::core::ApiResource::from_gvk(&gvk);
    ApiResource {
        group: ar.group,
        version: ar.version,
        api_version: ar.api_version,
        kind: ar.kind,
        plural: ar.plural,
    }
}

/// `kube::core::ApiResource::from_gvk_with_plural` on
/// `kube::core::GroupVersionKind::gvk`: group, version, kind and plural are
/// those given, and the API version is made of group and version.
#[verifier::external_body]
fn api_resource_from_gvk_with_plural(group: &str, version: &str, kind: &str, plural: &str) -> (r:
    ApiResource)
    ensures
        r@ == (ApiResourceView {
            group: group@,
            version: version@,
            api_version: api_version_of(group@, version@),
            kind: kind@,
            plural: plural@,
        }),
{
    let gvk = kube::core::GroupVersionKind::gvk(group, version, kind);
    let ar = kube::core::ApiResource::from_gvk_with_plural(&gvk, plural);
    ApiResource {
        group: ar.group,
        version: ar.version,
        api_version: ar.api_version,
        kind: ar.kind,
        plural: ar.plural,
    }
}

/// The plural name under which a kind is addressed where none is named:
/// for a kind of ASCII characters the listed plural of the kind in lower
/// case, so that `Pod` is addressed as `pods`; for any other kind what
/// `kube` guesses.
pub open spec fn guessed_plural(kind: Seq<char>) -> Seq<char> {
    if vstd::utf8::is_ascii_chars(kind) {
        listed_plural(ascii_lowercase(kind))
    } else {
        kube_plural(kind)
    }
}

/// A kind that is `y` in lower case is of ASCII characters, and its listed
/// plural is the regular one.
proof fn lemma_plural_of_y(kind: Seq<char>)
    requires
        ascii_lowercase(kind) == seq!['y'],
    ensures
        vstd::utf8::is_ascii_chars(kind),
        listed_plural(ascii_lowercase(kind)) == plural_of(seq!['y']),
{
    reveal_strlit("endpoints");
    reveal_strlit("endpointslices");
    reveal_strlit("nodemetrics");
    reveal_strlit("podmetrics");
    let lower = ascii_lowercase(kind);
    assert(lower.len() == kind.len());
    assert(seq!['y'].len() == 1);
    assert(kind.len() == 1);
    assert(lower[0] == crate::text::ascii_lower(kind[0]));
    assert(seq!['y'][0] == 'y');
    assert(crate::text::ascii_lower(kind[0]) == 'y');
    assert forall|i: int| 0 <= i < kind.len() implies '\0' <= #[trigger] kind[i] <= '\u{7f}' by {
        assert(i == 0);
    }
}

/// How a kind of resource is addressed, with the plural `plural` or, where
/// there is none, a guessed one.
pub open spec fn api_resource_of(
    group: Seq<char>,
    version: Seq<char>,
    kind: Seq<char>,
    plural: Option<Seq<char>>,
) -> ApiResourceView {
    ApiResourceView {
        group,
        version,
        api_version: api_version_of(group, version),
        kind,
        plural: match plural {
            Some(p) => p,
            None => guessed_plural(kind),
        },
    }
}

/// How a kind of resource is addressed in the cluster's API.
pub fn api_resource(group: &str, version: &str, kind: &str, plural: &Option<String>) -> (r:
    ApiResource)
    ensures
        r@ == api_resource_of(group@, version@, kind@, plural.deep_view()),
{
    match plural {
        Some(p) => api_resource_from_gvk_with_plural(group, version, kind, p.as_str()),
        None => {
            let lower = to_ascii_lowercase(kind);
            if lower.len() == 1 && lower[0] == 'y' {
                assert(lower@ =~= seq!['y']);
                proof {
                    lemma_plural_of_y(kind@);
                }
                let guessed = to_plural(string_of(&lower).as_str());
                api_resource_from_gvk_with_plural(group, version, kind, guessed.as_str())
            } else {
                assert(lower@ != seq!['y']) by {
                    if lower@ == seq!['y'] {
                        assert(lower@.len() == 1 && lower@[0] == 'y');
                    }
                }
                api_resource_from_gvk(group, version, kind)
            }
        },
    }
}

/// What the cluster is asked when a script gets one object.
pub open spec fn get_request_of(
    sa: Option<ServiceAccountInfoView>,
    timeout_seconds: Option<i32>,
    argument: KubeGetArgumentView,
) -> Result<KubeGetRequestView, ErrorView> {
    match capability(sa, timeout_seconds) {
        Err(e) => Err(e),
        Ok(token) => Ok(
            KubeGetRequestView {
                token,
                api_resource: api_resource_of(
                    argument.group,
                    argument.version,
                    argument.kind,
                    argument.plural,
                ),
                namespace: argument.namespace,
                name: argument.name,
            },
        ),
    }
}

/// What the cluster is asked when a script gets one object: the object of
/// the kind, namespace and name in the argument, under a token of the rule's
/// service account. A rule without a service account has no such
/// capability, and the helper fails.
pub fn kube_get(
    serviceaccount_info: &Option<ServiceAccountInfo>,
    timeout_seconds: Option<i32>,
    argument: &KubeGetArgument,
) -> (r: Result<KubeGetRequest, Error>)
    ensures
        result_view(r) == get_request_of(
            serviceaccount_info.deep_view(),
            timeout_seconds,
            argument@,
        ),
        r is Err <==> serviceaccount_info is None,
{
    let token = match prepare_kube_client(serviceaccount_info, timeout_seconds) {
        Ok(t) => t,
        Err(e) => {
            return Err(e);
        },
    };
    Ok(
        KubeGetRequest {
            token,
            api_resource: api_resource(
                argument.group.as_str(),
                argument.version.as_str(),
                argument.kind.as_str(),
                &argument.plural,
            ),
            namespace: argument.namespace.clone(),
            name: argument.name.clone(),
        },
    )
}

/// What the cluster is asked when a script lists objects.
pub open spec fn list_request_of(
    sa: Option<ServiceAccountInfoView>,
    timeout_seconds: Option<i32>,
    argument: KubeListArgumentView,
) -> Result<KubeListRequestView, ErrorView> {
    match capability(sa, timeout_seconds) {
        Err(e) => Err(e),
        Ok(token) => Ok(
            KubeListRequestView {
                token,
                api_resource: api_resource_of(
                    argument.group,
                    argument.version,
                    argument.kind,
                    argument.plural,
                ),
                namespace: argument.namespace,
                list_params: argument.list_params,
            },
        ),
    }
}

/// What the cluster is asked when a script lists objects: the objects of
/// the kind and namespace in the argument, under a token of the rule's
/// service account. A rule without a service account has no such
/// capability, and the helper fails.
pub fn kube_list(
    serviceaccount_info: &Option<ServiceAccountInfo>,
    timeout_seconds: Option<i32>,
    argument: &KubeListArgument,
) -> (r: Result<KubeListRequest, Error>)
    ensures
        result_view(r) == list_request_of(
            serviceaccount_info.deep_view(),
            timeout_seconds,
            argument@,
        ),
        r is Err <==> serviceaccount_info is None,
{
    let token = match prepare_kube_client(serviceaccount_info, timeout_seconds) {
        Ok(t) => t,
        Err(e) => {
            return Err(e);
        },
    };
    Ok(
        KubeListRequest {
            token,
            api_resource: api_resource(
                argument.group.as_str(),
                argument.version.as_str(),
                argument.kind.as_str(),
                &argument.plural,
            ),
            namespace: argument.namespace.clone(),
            list_params: argument.list_params.clone(),
        },
    )
}

/// The helper with which a script finds the patch that leads from one
/// value to another.
pub fn jsonpatch_diff(before: &serde_json::Value, after: &serde_json::Value) -> (patch:
    json_patch::Patch)
    ensures
        patch == json_diff(*before, *after),
{
    diff(before, after)
}

/// The helper with which a script asks whether a string starts with another.
pub fn starts_with(s: &str, prefix: &str) -> (r: bool)
    ensures
        r == crate::text::starts_with(s@, prefix@),
{
    crate::text::starts_with_str(s, prefix)
}

/// The helper with which a script asks whether a string ends with another.
pub fn ends_with(s: &str, suffix: &str) -> (r: bool)
    ensures
        r == crate::text::ends_with(s@, suffix@),
{
    crate::text::ends_with_str(s, suffix)
}

} // verus!
