//! Metadata shared by the objects that the controller writes.

use crate::types::labels::Labels;
use vstd::prelude::*;

verus! {

/// A reference from a dependent object to the object that owns it. The
/// orchestrator removes the dependent when its owner is removed.
#[derive(Debug, PartialEq, Eq)]
pub struct OwnerReference {
    /// API version of the owner.
    pub api_version: String,
    /// Kind of the owner.
    pub kind: String,
    /// Name of the owner.
    pub name: String,
    /// Unique identifier of the owner.
    pub uid: String,
    /// Whether the owner is the managing controller.
    pub controller: Option<bool>,
    /// Whether the owner may not be removed before this dependent.
    pub block_owner_deletion: Option<bool>,
}

/// The view of [`OwnerReference`]: strings as sequences of characters, lists as sequences.
pub struct OwnerReferenceView {
    pub api_version: Seq<char>,
    pub kind: Seq<char>,
    pub name: Seq<char>,
    pub uid: Seq<char>,
    pub controller: Option<bool>,
    pub block_owner_deletion: Option<bool>,
}

impl DeepView for OwnerReference {
    type V = OwnerReferenceView;

    open spec fn deep_view(&self) -> OwnerReferenceView {
        OwnerReferenceView {
            api_version: self.api_version.deep_view(),
            kind: self.kind.deep_view(),
            name: self.name.deep_view(),
            uid: self.uid.deep_view(),
            controller: self.controller,
            block_owner_deletion: self.block_owner_deletion,
        }
    }
}

impl View for OwnerReference {
    type V = OwnerReferenceView;

    open spec fn view(&self) -> OwnerReferenceView {
        self.deep_view()
    }
}

impl Clone for OwnerReference {
    fn clone(&self) -> (r: Self)
        ensures
            r@ == self@,
    {
        OwnerReference {
            api_version: self.api_version.clone(),
            kind: self.kind.clone(),
            name: self.name.clone(),
            uid: self.uid.clone(),
            controller: self.controller,
            block_owner_deletion: self.block_owner_deletion,
        }
    }
}

/// The metadata of an object, as far as this library sets or reads it.
#[derive(Debug, PartialEq, Eq)]
pub struct ObjectMeta {
    /// Name of the object, unique within its namespace.
    pub name: Option<String>,
    /// Namespace of the object; none for a cluster-wide one.
    pub namespace: Option<String>,
    /// The owners of the object.
    pub owner_references: Option<Vec<OwnerReference>>,
    /// Labels of the object.
    pub labels: Option<Labels>,
    /// Annotations of the object.
    pub annotations: Option<Labels>,
}

/// The view of [`ObjectMeta`]: strings as sequences of characters, lists as sequences.
pub struct ObjectMetaView {
    pub name: Option<Seq<char>>,
    pub namespace: Option<Seq<char>>,
    pub owner_references: Option<Seq<OwnerReferenceView>>,
    pub labels: Option<Map<Seq<char>, Seq<char>>>,
    pub annotations: Option<Map<Seq<char>, Seq<char>>>,
}

impl DeepView for ObjectMeta {
    type V = ObjectMetaView;

    open spec fn deep_view(&self) -> ObjectMetaView {
        ObjectMetaView {
            name: self.name.deep_view(),
            namespace: self.namespace.deep_view(),
            owner_references: self.owner_references.deep_view(),
            labels: self.labels.deep_view(),
            annotations: self.annotations.deep_view(),
        }
    }
}

impl View for ObjectMeta {
    type V = ObjectMetaView;

    open spec fn view(&self) -> ObjectMetaView {
        self.deep_view()
    }
}

impl Clone for ObjectMeta {
    fn clone(&self) -> (r: Self)
        ensures
            r@ == self@,
    {
        ObjectMeta {
            name: self.name.clone(),
            namespace: self.namespace.clone(),
            owner_references: self.owner_references.clone(),
            labels: self.labels.clone(),
            annotations: self.annotations.clone(),
        }
    }
}

impl Default for OwnerReference {
    fn default() -> (r: Self)
        ensures
            r@ == (OwnerReferenceView {
                api_version: Seq::empty(),
                kind: Seq::empty(),
                name: Seq::empty(),
                uid: Seq::empty(),
                controller: None,
                block_owner_deletion: None,
            }),
    {
        OwnerReference {
            api_version: String::new(),
            kind: String::new(),
            name: String::new(),
            uid: String::new(),
            controller: None,
            block_owner_deletion: None,
        }
    }
}

} // verus!
