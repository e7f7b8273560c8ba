//! The admission endpoints: from what a rule's script yields to the
//! response that the orchestrator gets.

use crate::types::views::result_view;
use vstd::prelude::*;
use vstd::string::*;

pub mod helper;
pub mod internal;

verus! {

/// One operation of a JSON Patch, as `json_patch` holds it.
#[verifier::external_type_specification]
#[verifier::external_body]
pub struct ExPatchOperation(json_patch::PatchOperation);

/// A JSON Patch, as `json_patch` holds it.
#[verifier::external_type_specification]
#[verifier::external_body]
pub struct ExPatch(json_patch::Patch);

/// The operations of a patch in their order, each as its JSON text.
pub uninterp spec fn patch_operations(patch: json_patch::Patch) -> Seq<Seq<char>>;

/// What `serde_json` makes of a patch: its JSON text in bytes, or the
/// message of the serialiser's error.
pub uninterp spec fn patch_serialized(patch: json_patch::Patch) -> Result<Seq<u8>, Seq<char>>;

/// `Vec::len` on the operations that a `json_patch::Patch` wraps: how many
/// operations the patch has.
#[verifier::external_body]
fn patch_len(patch: &json_patch::Patch) -> (n: usize)
    ensures
        n == patch_operations(*patch).len(),
{
    patch.0.len()
}

/// `serde_json::to_vec` on a patch: the JSON text of the patch in bytes,
/// or the message of the serialiser's error. Whether it succeeds, and what
/// it gives, depends on the patch alone. Nothing is claimed of the patches
/// on which it fails, nor of the text.
#[verifier::external_body]
fn serialize_patch(patch: &json_patch::Patch) -> (r: Result<Vec<u8>, String>)
    ensures
        match r {
            Ok(bytes) => patch_serialized(*patch) == Ok::<Seq<u8>, Seq<char>>(bytes@),
            Err(m) => patch_serialized(*patch) == Err::<Seq<u8>, Seq<char>>(m@),
        },
{
    serde_json::to_vec(patch).map_err(|e| e.to_string())
}

/// A JSON value, as `serde_json` holds it.
#[verifier::external_type_specification]
#[verifier::external_body]
pub struct ExValue(serde_json::Value);

/// The patch that `json_patch` finds to lead from one JSON value to another.
pub uninterp spec fn json_diff(left: serde_json::Value, right: serde_json::Value) -> json_patch::Patch;

/// `json_patch::diff`: the patch that leads from `left` to `right`. The
/// result depends on the two values alone.
#[verifier::external_body]
pub(crate) fn diff(left: &serde_json::Value, right: &serde_json::Value) -> (patch: json_patch::Patch)
    ensures
        patch == json_diff(*left, *right),
{
    json_patch::diff(left, right)
}

/// What can go wrong while an admission request is answered. Where the
/// failure came from outside, the variant holds its message.
#[derive(Debug, PartialEq, Eq)]
pub enum Error {
    /// The cluster holds no rule of the name in the URL path.
    RuleNotFound,
    /// The cluster could not be asked.
    Kubernetes(String),
    /// The cluster's configuration could not be read.
    KubernetesKubeconfig(String),
    /// The script called a helper that reads the cluster, but its rule names
    /// no service account.
    ServiceAccountInfoNotProvided,
    /// The rule's service account does not exist.
    ServiceAccountNotFound,
    /// The cluster gave no token for the rule's service account.
    RequestServiceAccountToken,
    /// The runtime for the script could not be made.
    CreateRuntime(String),
    /// The thread of the script did not answer.
    RecvThread(String),
    /// The patch could not be serialised.
    SerializePatch(String),
    /// The sandbox of the script could not be prepared.
    PrepareRuntime(String),
    /// The script failed.
    Eval(String),
    /// The script did not end before its deadline.
    Timeout,
    /// What the script yielded is not what a rule may yield.
    DeserializeValue(String),
}

/// The view of [`Error`].
pub enum ErrorView {
    RuleNotFound,
    Kubernetes(Seq<char>),
    KubernetesKubeconfig(Seq<char>),
    ServiceAccountInfoNotProvided,
    ServiceAccountNotFound,
    RequestServiceAccountToken,
    CreateRuntime(Seq<char>),
    RecvThread(Seq<char>),
    SerializePatch(Seq<char>),
    PrepareRuntime(Seq<char>),
    Eval(Seq<char>),
    Timeout,
    DeserializeValue(Seq<char>),
}

impl DeepView for Error {
    type V = ErrorView;

    open spec fn deep_view(&self) -> ErrorView {
        match self {
            Error::RuleNotFound => ErrorView::RuleNotFound,
            Error::Kubernetes(m) => ErrorView::Kubernetes(m@),
            Error::KubernetesKubeconfig(m) => ErrorView::KubernetesKubeconfig(m@),
            Error::ServiceAccountInfoNotProvided => ErrorView::ServiceAccountInfoNotProvided,
            Error::ServiceAccountNotFound => ErrorView::ServiceAccountNotFound,
            Error::RequestServiceAccountToken => ErrorView::RequestServiceAccountToken,
            Error::CreateRuntime(m) => ErrorView::CreateRuntime(m@),
            Error::RecvThread(m) => ErrorView::RecvThread(m@),
            Error::SerializePatch(m) => ErrorView::SerializePatch(m@),
            Error::PrepareRuntime(m) => ErrorView::PrepareRuntime(m@),
            Error::Eval(m) => ErrorView::Eval(m@),
            Error::Timeout => ErrorView::Timeout,
            Error::DeserializeValue(m) => ErrorView::DeserializeValue(m@),
        }
    }
}

impl View for Error {
    type V = ErrorView;

    open spec fn view(&self) -> ErrorView {
        self.deep_view()
    }
}

impl ErrorView {
    /// The HTTP status with which the error is answered: 404 where the rule
    /// is missing, 500 for every other error.
    pub open spec fn status(self) -> u16 {
        if self is RuleNotFound {
            404
        } else {
            500
        }
    }

    /// The message of the error.
    pub open spec fn message(self) -> Seq<char> {
        match self {
            ErrorView::RuleNotFound => "Rule is not found"@,
            ErrorView::Kubernetes(m) => "Kubernetes error: "@ + m,
            ErrorView::KubernetesKubeconfig(m) => "Kubernetes Kubeconfig error: "@ + m,
            ErrorView::ServiceAccountInfoNotProvided =>
                "serviceAccount field is not provided. You should provide serviceAccount field in Rule spec if you want to use `kubeGet` or `kubeList` function in the code."@,
            ErrorView::ServiceAccountNotFound => "provided ServiceAccount is not found"@,
            ErrorView::RequestServiceAccountToken => "failed to request ServiceAccount token"@,
            ErrorView::CreateRuntime(m) => "failed to create runtime: "@ + m,
            ErrorView::RecvThread(m) => "failed to receive from script thread: "@ + m,
            ErrorView::SerializePatch(m) => "failed to serialize Patch object: "@ + m,
            ErrorView::PrepareRuntime(m) => "failed to prepare script runtime: "@ + m,
            ErrorView::Eval(m) => "failed to evaluate code: "@ + m,
            ErrorView::Timeout => "evaluation of the code timed out"@,
            ErrorView::DeserializeValue(m) => "failed to deserialize script value: "@ + m,
        }
    }
}

impl Error {
    /// The HTTP status with which the error is answered.
    pub fn status_code(&self) -> (code: u16)
        ensures
            code == self@.status(),
    {
        match self {
            Error::RuleNotFound => 404,
            _ => 500,
        }
    }

    /// The message of the error.
    pub fn to_string(&self) -> (r: String)
        ensures
            r@ == self@.message(),
    {
        match self {
            Error::RuleNotFound => String::from_str("Rule is not found"),
            Error::Kubernetes(m) => String::from_str("Kubernetes error: ").concat(m.as_str()),
            Error::KubernetesKubeconfig(m) => String::from_str(
                "Kubernetes Kubeconfig error: ",
            ).concat(m.as_str()),
            Error::ServiceAccountInfoNotProvided => String::from_str(
                "serviceAccount field is not provided. You should provide serviceAccount field in Rule spec if you want to use `kubeGet` or `kubeList` function in the code.",
            ),
            Error::ServiceAccountNotFound => String::from_str("provided ServiceAccount is not found"),
            Error::RequestServiceAccountToken => String::from_str(
                "failed to request ServiceAccount token",
            ),
            Error::CreateRuntime(m) => String::from_str("failed to create runtime: ").concat(
                m.as_str(),
            ),
            Error::RecvThread(m) => String::from_str(
                "failed to receive from script thread: ",
            ).concat(m.as_str()),
            Error::SerializePatch(m) => String::from_str(
                "failed to serialize Patch object: ",
            ).concat(m.as_str()),
            Error::PrepareRuntime(m) => String::from_str(
                "failed to prepare script runtime: ",
            ).concat(m.as_str()),
            Error::Eval(m) => String::from_str("failed to evaluate code: ").concat(m.as_str()),
            Error::Timeout => String::from_str("evaluation of the code timed out"),
            Error::DeserializeValue(m) => String::from_str(
                "failed to deserialize script value: ",
            ).concat(m.as_str()),
        }
    }
}

/// The type of the patch in a response.
#[derive(Clone, Copy, Debug, PartialEq, Eq, Structural)]
pub enum PatchType {
    /// A JSON Patch.
    JsonPatch,
}

/// The answer to an admission request.
#[derive(Debug, PartialEq, Eq)]
pub struct AdmissionResponse {
    /// Identifier of the request that is answered.
    pub uid: String,
    /// Whether the request is allowed.
    pub allowed: bool,
    /// A word for why a request is not allowed.
    pub reason: Option<String>,
    /// Why the request is not allowed; absent where there is nothing to say.
    pub message: Option<String>,
    /// The JSON text of the patch that changes the object.
    pub patch: Option<Vec<u8>>,
    /// The type of the patch.
    pub patch_type: Option<PatchType>,
}

/// The view of [`AdmissionResponse`].
pub struct AdmissionResponseView {
    pub uid: Seq<char>,
    pub allowed: bool,
    pub reason: Option<Seq<char>>,
    pub message: Option<Seq<char>>,
    pub patch: Option<Seq<u8>>,
    pub patch_type: Option<PatchType>,
}

impl DeepView for AdmissionResponse {
    type V = AdmissionResponseView;

    open spec fn deep_view(&self) -> AdmissionResponseView {
        AdmissionResponseView {
            uid: self.uid@,
            allowed: self.allowed,
            reason: self.reason.deep_view(),
            message: self.message.deep_view(),
            patch: match self.patch {
                Some(p) => Some(p@),
                None => None,
            },
            patch_type: self.patch_type,
        }
    }
}

impl View for AdmissionResponse {
    type V = AdmissionResponseView;

    open spec fn view(&self) -> AdmissionResponseView {
        self.deep_view()
    }
}

impl AdmissionResponseView {
    /// What holds of every response that this library makes: a request that
    /// is not allowed has a message; a message is never empty; a patch has
    /// its type and a type has its patch.
    pub open spec fn wf(self) -> bool {
        &&& !self.allowed ==> self.message is Some
        &&& self.message matches Some(m) ==> m.len() > 0
        &&& self.patch is Some <==> self.patch_type is Some
    }

    /// The response that allows the request `uid`.
    pub open spec fn allowing(uid: Seq<char>) -> AdmissionResponseView {
        AdmissionResponseView {
            uid,
            allowed: true,
            reason: None,
            message: None,
            patch: None,
            patch_type: None,
        }
    }

    /// The response with the request denied for the reason `reason`.
    pub open spec fn denied(self, reason: Seq<char>) -> AdmissionResponseView {
        AdmissionResponseView { allowed: false, message: Some(reason), ..self }
    }

    /// The response with the patch `bytes`.
    pub open spec fn patched(self, bytes: Seq<u8>) -> AdmissionResponseView {
        AdmissionResponseView { patch: Some(bytes), patch_type: Some(PatchType::JsonPatch), ..self }
    }

    /// The response with the patch `patch` added. A patch without
    /// operations is not added: the response is as it was. One with
    /// operations is added as its JSON text and with its type; where the
    /// serialiser fails on it, there is no response but the error with the
    /// serialiser's message.
    pub open spec fn attached(self, patch: json_patch::Patch) -> Result<
        AdmissionResponseView,
        ErrorView,
    > {
        if patch_operations(patch).len() == 0 {
            Ok(self)
        } else {
            match patch_serialized(patch) {
                Ok(bytes) => Ok(self.patched(bytes)),
                Err(m) => Err(ErrorView::SerializePatch(m)),
            }
        }
    }

    /// The response to the request `uid` that could not be read.
    pub open spec fn invalid(uid: Seq<char>, reason: Seq<char>) -> AdmissionResponseView {
        AdmissionResponseView {
            uid,
            allowed: false,
            reason: Some("InvalidRequest"@),
            message: Some(reason),
            patch: None,
            patch_type: None,
        }
    }
}

impl AdmissionResponse {
    /// The response that allows the request with the identifier `uid`.
    pub fn allow(uid: &str) -> (r: Self)
        ensures
            r@ == AdmissionResponseView::allowing(uid@),
            r@.wf(),
    {
        AdmissionResponse {
            uid: String::from_str(uid),
            allowed: true,
            reason: None,
            message: None,
            patch: None,
            patch_type: None,
        }
    }

    /// The response to a request that could not be read. `uid` is the
    /// identifier of the request as far as it is known, and empty where it
    /// is not; `reason` says what was wrong with the request.
    pub fn invalid(uid: &str, reason: String) -> (r: Self)
        requires
            reason@.len() > 0,
        ensures
            r@ == AdmissionResponseView::invalid(uid@, reason@),
            r@.wf(),
    {
        AdmissionResponse {
            uid: String::from_str(uid),
            allowed: false,
            reason: Some(String::from_str("InvalidRequest")),
            message: Some(reason),
            patch: None,
            patch_type: None,
        }
    }

    /// Denies the request, with `reason` as the message to its sender.
    pub fn deny(self, reason: String) -> (r: Self)
        requires
            reason@.len() > 0,
        ensures
            r@ == self@.denied(reason@),
            self@.wf() ==> r@.wf(),
    {
        AdmissionResponse {
            uid: self.uid,
            allowed: false,
            reason: self.reason,
            message: Some(reason),
            patch: self.patch,
            patch_type: self.patch_type,
        }
    }

    /// Adds a patch to the response, given what came of serialising it:
    /// the bytes, or the serialiser's message.
    pub fn with_serialized_patch(self, serialized: Result<Vec<u8>, String>) -> (r: Result<
        Self,
        Error,
    >)
        ensures
            match serialized {
                Ok(bytes) => (r matches Ok(resp) && resp@ == self@.patched(bytes@) && (self@.wf()
                    ==> resp@.wf())),
                Err(m) => (r matches Err(e) && e@ == ErrorView::SerializePatch(m@)),
            },
    {
        match serialized {
            Ok(bytes) => Ok(
                AdmissionResponse {
                    uid: self.uid,
                    allowed: self.allowed,
                    reason: self.reason,
                    message: self.message,
                    patch: Some(bytes),
                    patch_type: Some(PatchType::JsonPatch),
                },
            ),
            Err(m) => Err(Error::SerializePatch(m)),
        }
    }

    /// Adds `patch` to the response. A patch without operations is not
    /// added: the response is then as it was. One with operations is added
    /// as its JSON text and with its type. It succeeds exactly where the
    /// patch has no operations or the serialiser succeeds on it, and fails
    /// with the serialiser's message where it does not.
    pub fn with_patch(self, patch: &json_patch::Patch) -> (r: Result<Self, Error>)
        ensures
            result_view(r) == self@.attached(*patch),
            r is Ok <==> (patch_operations(*patch).len() == 0 || patch_serialized(*patch) is Ok),
            r matches Ok(resp) ==> ((self@.wf() ==> resp@.wf()) && resp@.uid == self@.uid
                && resp@.allowed == self@.allowed && resp@.message == self@.message),
    {
        if patch_len(patch) == 0 {
            return Ok(self);
        }
        let serialized = serialize_patch(patch);
        self.with_serialized_patch(serialized)
    }
}

/// What the script of a rule yields.
pub struct ScriptOutput {
    /// Why the request is denied; it is allowed where this is absent.
    pub deny_reason: Option<String>,
    /// The patch that changes the object.
    pub patch: Option<json_patch::Patch>,
}

/// The message of a denial for which the script gives an empty reason.
pub const DENIED_WITHOUT_REASON: &'static str = "denied without a reason";

/// The reason for which a script denies: the one it yields, or, where that
/// is empty, a fixed one, as a denial is never without a message.
pub open spec fn stated_reason(deny_reason: Option<Seq<char>>) -> Option<Seq<char>> {
    match deny_reason {
        Some(r) => if r.len() > 0 {
            Some(r)
        } else {
            Some(DENIED_WITHOUT_REASON@)
        },
        None => None,
    }
}

/// The response of a validating rule to the request `uid`, given the reason
/// that its script yields.
pub open spec fn validated(uid: Seq<char>, deny_reason: Option<Seq<char>>) -> AdmissionResponseView {
    match stated_reason(deny_reason) {
        Some(r) => AdmissionResponseView::allowing(uid).denied(r),
        None => AdmissionResponseView::allowing(uid),
    }
}

/// The response of a validating rule: it carries the identifier `uid` of
/// the request; it denies with the script's reason where the script yields
/// one, and allows where it yields none. It never carries a patch.
pub fn validate(uid: &str, output: &ScriptOutput) -> (r: AdmissionResponse)
    ensures
        r@ == validated(uid@, output.deny_reason.deep_view()),
        r@.wf(),
        r@.uid == uid@,
        r@.allowed == (output.deny_reason is None),
        r@.patch is None,
{
    let resp = AdmissionResponse::allow(uid);
    match &output.deny_reason {
        Some(reason) => {
            if reason.as_str().unicode_len() > 0 {
                resp.deny(reason.clone())
            } else {
                proof {
                    reveal_strlit("denied without a reason");
                }
                resp.deny(String::from_str(DENIED_WITHOUT_REASON))
            }
        },
        None => resp,
    }
}

/// The response of a mutating rule to the request `uid`, given the reason
/// and the patch that its script yields: that of a validating rule, with
/// the patch added.
pub open spec fn mutated(
    uid: Seq<char>,
    deny_reason: Option<Seq<char>>,
    patch: Option<json_patch::Patch>,
) -> Result<AdmissionResponseView, ErrorView> {
    match patch {
        None => Ok(validated(uid, deny_reason)),
        Some(p) => validated(uid, deny_reason).attached(p),
    }
}

/// The response of a mutating rule: that of a validating rule, with the
/// script's patch added where it yields one that has operations. It
/// succeeds exactly where the script yields no patch, or one without
/// operations, or one on which the serialiser succeeds; it fails with the
/// serialiser's message where the serialiser fails.
pub fn mutate(uid: &str, output: &ScriptOutput) -> (r: Result<AdmissionResponse, Error>)
    ensures
        result_view(r) == mutated(uid@, output.deny_reason.deep_view(), output.patch),
        r is Ok <==> (output.patch matches Some(p) ==> patch_operations(p).len() == 0
            || patch_serialized(p) is Ok),
        r matches Ok(resp) ==> (resp@.wf() && resp@.uid == uid@ && resp@.allowed == (
        output.deny_reason is None)),
{
    let resp = validate(uid, output);
    match &output.patch {
        Some(patch) => resp.with_patch(patch),
        None => Ok(resp),
    }
}

/// The response to an admission review that could not be read as a request:
/// it denies, as invalid, with `reason`, and carries the identifier `uid`
/// of the request, which is empty where the review holds none.
pub fn reject_review(uid: &str, reason: String) -> (r: AdmissionResponse)
    ensures
        r@.uid == uid@,
        r@.allowed == false,
        r@.wf(),
        r@.patch is None,
        reason@.len() > 0 ==> r@ == AdmissionResponseView::invalid(uid@, reason@),
        reason@.len() == 0 ==> r@ == AdmissionResponseView::invalid(uid@, "invalid request"@),
{
    if reason.as_str().unicode_len() > 0 {
        AdmissionResponse::invalid(uid, reason)
    } else {
        proof {
            reveal_strlit("invalid request");
        }
        AdmissionResponse::invalid(uid, String::from_str("invalid request"))
    }
}

} // verus!
