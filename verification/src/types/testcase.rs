//! Test cases that replay admission requests against rules.

use crate::text::{chars_of, extend_chars, string_of};
use vstd::prelude::*;

verus! {

/// A value, or the path of the file that holds it.
#[derive(Debug, Clone, PartialEq, Eq)]
pub enum FilePathOrObject<T> {
    /// The path of a YAML file, absolute or relative to the test case.
    FilePath(String),
    /// The value itself.
    Object(T),
}

/// What a helper of the script gives for one argument.
#[derive(Debug, Clone, PartialEq, Eq)]
pub struct StubSpec<P, O> {
    /// The argument.
    pub parameter: P,
    /// What the helper gives for it.
    pub output: FilePathOrObject<O>,
}

/// What the helpers that read the cluster give in a test case.
#[derive(Debug, Clone, PartialEq, Eq)]
pub struct Stub<G, O, L, M> {
    /// What getting an object gives.
    pub kube_get: Vec<StubSpec<G, O>>,
    /// What listing objects gives.
    pub kube_list: Vec<StubSpec<L, M>>,
}

/// What a case expects of the rules.
#[derive(Debug, Clone, PartialEq, Eq)]
pub struct Expected<T> {
    /// Whether the request is allowed.
    pub allowed: bool,
    /// The message of the denial; empty where the request is allowed.
    pub message: String,
    /// The object after the mutating rules; the request's object where none is given.
    pub final_object: Option<FilePathOrObject<T>>,
}

/// One case: a request and what the rules are to make of it.
#[derive(Debug, Clone, PartialEq, Eq)]
pub struct Case<R, T, G, O, L, M> {
    /// Name of the case.
    pub name: Option<String>,
    /// What the helpers give.
    pub stubs: Stub<G, O, L, M>,
    /// The admission request.
    pub request: FilePathOrObject<R>,
    /// What is expected.
    pub expected: Expected<T>,
}

/// A test case: rules, and cases to run against them.
#[derive(Debug, Clone, PartialEq, Eq)]
pub struct TestCase<V, W, C> {
    /// The validating rules.
    pub validating_rules: Vec<FilePathOrObject<V>>,
    /// The mutating rules.
    pub mutating_rules: Vec<FilePathOrObject<W>>,
    /// The cases.
    pub cases: Vec<C>,
}

/// Whether a path is absolute: it is where it begins with a slash.
pub open spec fn is_absolute(path: Seq<char>) -> bool {
    path.len() > 0 && path[0] == '/'
}

/// The path `path` taken from the directory `base`: `path` itself where it
/// is absolute or `base` is empty, else `base`, a slash unless `base` ends
/// in one, and `path`.
pub open spec fn resolved(base: Seq<char>, path: Seq<char>) -> Seq<char> {
    if is_absolute(path) || base.len() == 0 {
        path
    } else if base.last() == '/' {
        base + path
    } else {
        base + seq!['/'] + path
    }
}

/// The path `path` as it is, where it is absolute; else taken from the
/// directory `base_path`.
pub fn join_or_absolute(base_path: &str, path: &str) -> (r: String)
    ensures
        r@ == resolved(base_path@, path@),
{
    let p = chars_of(path);
    let mut b = chars_of(base_path);
    if (p.len() > 0 && p[0] == '/') || b.len() == 0 {
        return string_of(&p);
    }
    if b[b.len() - 1] != '/' {
        b.push('/');
    }
    extend_chars(&mut b, &p);
    string_of(&b)
}

impl<T> FilePathOrObject<T> {
    /// The path of the file to read for the value, taken from the directory
    /// `base_path`; none where the value itself is given.
    pub fn path_to_read(&self, base_path: &str) -> (r: Option<String>)
        ensures
            match self {
                FilePathOrObject::FilePath(p) => (r matches Some(q) && q@ == resolved(
                    base_path@,
                    p@,
                )),
                FilePathOrObject::Object(_) => r is None,
            },
    {
        match self {
            FilePathOrObject::FilePath(p) => Some(join_or_absolute(base_path, p.as_str())),
            FilePathOrObject::Object(_) => None,
        }
    }
}

/// What the rules made of a request: whether they allow it, and the
/// message of the rule that denies it.
#[derive(Debug, PartialEq, Eq)]
pub struct CaseResult {
    /// Whether the request is allowed.
    pub allowed: bool,
    /// The message of the denial; empty where the request is allowed.
    pub message: String,
}

/// How what the rules made of a request differs from what a case expects.
#[derive(Debug, PartialEq, Eq)]
pub enum Mismatch {
    /// The request is allowed where it should be denied, or the other way
    /// round. The variant holds what was expected, then what came.
    Allowed(bool, bool),
    /// The message is another. The variant holds what was expected, then
    /// what came.
    Message(String, String),
    /// The object after the mutating rules is another.
    FinalObject,
}

/// The view of [`Mismatch`].
pub enum MismatchView {
    Allowed(bool, bool),
    Message(Seq<char>, Seq<char>),
    FinalObject,
}

impl View for Mismatch {
    type V = MismatchView;

    open spec fn view(&self) -> MismatchView {
        match self {
            Mismatch::Allowed(e, a) => MismatchView::Allowed(*e, *a),
            Mismatch::Message(e, a) => MismatchView::Message(e@, a@),
            Mismatch::FinalObject => MismatchView::FinalObject,
        }
    }
}

/// The first difference between what a case expects and what the rules
/// made of its request: in whether the request is allowed, then in the
/// message, then in the final object; none where they agree in all three.
pub open spec fn first_mismatch(
    expected_allowed: bool,
    expected_message: Seq<char>,
    actual_allowed: bool,
    actual_message: Seq<char>,
    same_final_object: bool,
) -> Option<MismatchView> {
    if expected_allowed != actual_allowed {
        Some(MismatchView::Allowed(expected_allowed, actual_allowed))
    } else if expected_message != actual_message {
        Some(MismatchView::Message(expected_message, actual_message))
    } else if !same_final_object {
        Some(MismatchView::FinalObject)
    } else {
        None
    }
}

/// Holds what the rules made of a request against what the case expects.
/// `same_final_object` says whether the object after the mutating rules is
/// the expected one. The case passes where the result is `Ok`.
pub fn judge(expected: &CaseResult, actual: &CaseResult, same_final_object: bool) -> (r: Result<
    (),
    Mismatch,
>)
    ensures
        match first_mismatch(
            expected.allowed,
            expected.message@,
            actual.allowed,
            actual.message@,
            same_final_object,
        ) {
            None => r is Ok,
            Some(m) => (r matches Err(e) && e@ == m),
        },
{
    if expected.allowed != actual.allowed {
        Err(Mismatch::Allowed(expected.allowed, actual.allowed))
    } else if !crate::text::string_eq(expected.message.as_str(), actual.message.as_str()) {
        Err(Mismatch::Message(expected.message.clone(), actual.message.clone()))
    } else if !same_final_object {
        Err(Mismatch::FinalObject)
    } else {
        Ok(())
    }
}

} // verus!
