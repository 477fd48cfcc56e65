//! What every resource carries: its name, labels, annotations and owners.

use crate::common::string_map::StringMap;
use vstd::prelude::*;

verus! {

/// A link from a resource back to the object it was made for. The cluster
/// removes the resource when its owner goes away.
#[derive(Debug, PartialEq, Clone)]
pub struct OwnerReference {
    /// API version of the owner.
    pub api_version: String,
    /// Kind of the owner.
    pub kind: String,
    /// Name of the owner.
    pub name: String,
    /// Identifier that the cluster gave the owner.
    pub uid: String,
    /// Whether the owner is the controller that manages the resource.
    pub controller: Option<bool>,
    /// Whether the owner cannot be deleted before the resource is gone.
    pub block_owner_deletion: Option<bool>,
}

/// The mathematical view of `OwnerReference`: strings as sequences of characters,
/// lists as sequences, maps as maps.
pub struct OwnerReferenceView {
    pub api_version: Seq<char>,
    pub kind: Seq<char>,
    pub name: Seq<char>,
    pub uid: Seq<char>,
    pub controller: Option<bool>,
    pub block_owner_deletion: Option<bool>,
}

impl DeepView for OwnerReference {
    type V = OwnerReferenceView;

    open spec fn deep_view(&self) -> OwnerReferenceView {
        OwnerReferenceView {
            api_version: self.api_version@,
            kind: self.kind@,
            name: self.name@,
            uid: self.uid@,
            controller: self.controller,
            block_owner_deletion: self.block_owner_deletion,
        }
    }
}

/// The metadata of a resource.
#[derive(Debug, PartialEq, Clone)]
pub struct ObjectMeta {
    /// Name of the resource.
    pub name: Option<String>,
    /// Labels of the resource.
    pub labels: Option<StringMap>,
    /// Annotations of the resource.
    pub annotations: Option<StringMap>,
    /// The owners of the resource.
    pub owner_references: Option<Vec<OwnerReference>>,
}

/// The mathematical view of `ObjectMeta`: strings as sequences of characters,
/// lists as sequences, maps as maps.
pub struct ObjectMetaView {
    pub name: Option<Seq<char>>,
    pub labels: Option<Map<Seq<char>, Seq<char>>>,
    pub annotations: Option<Map<Seq<char>, Seq<char>>>,
    pub owner_references: Option<Seq<OwnerReferenceView>>,
}

impl DeepView for ObjectMeta {
    type V = ObjectMetaView;

    open spec fn deep_view(&self) -> ObjectMetaView {
        ObjectMetaView {
            name: self.name.deep_view(),
            labels: self.labels.deep_view(),
            annotations: self.annotations.deep_view(),
            owner_references: self.owner_references.deep_view(),
        }
    }
}

} // verus!
