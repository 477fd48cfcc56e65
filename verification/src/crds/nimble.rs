//! The Nimble object: what it asks for, and the identity it carries.

use crate::crds::deploymentspec::{DeploySpec, DeploySpecView};
use crate::crds::hpaspec::{HPASpec, HPASpecView};
use crate::crds::ingspec::{IngSpec, IngSpecView};
use crate::crds::servicespec::{SvcSpec, SvcSpecView};
use crate::manifests::meta::{OwnerReference, OwnerReferenceView};
use vstd::prelude::*;

verus! {

/// What a Nimble object asks for: a deployment and, if wanted, a service,
/// an autoscaler and an ingress for it.
#[derive(Debug, PartialEq, Clone)]
pub struct NimbleSpec {
    /// The deployment.
    pub deployment: DeploySpec,
    /// The service.
    pub service: Option<SvcSpec>,
    /// The autoscaler.
    pub hpa: Option<HPASpec>,
    /// The ingress.
    pub ingress: Option<IngSpec>,
}

/// The mathematical view of `NimbleSpec`: strings as sequences of characters,
/// lists as sequences, maps as maps.
pub struct NimbleSpecView {
    pub deployment: DeploySpecView,
    pub service: Option<SvcSpecView>,
    pub hpa: Option<HPASpecView>,
    pub ingress: Option<IngSpecView>,
}

impl DeepView for NimbleSpec {
    type V = NimbleSpecView;

    open spec fn deep_view(&self) -> NimbleSpecView {
        NimbleSpecView {
            deployment: self.deployment.deep_view(),
            service: self.service.deep_view(),
            hpa: self.hpa.deep_view(),
            ingress: self.ingress.deep_view(),
        }
    }
}

/// The identity of a Nimble object in the cluster. An object read from the
/// cluster carries all three parts; one read from a file may lack some.
#[derive(Debug, PartialEq, Clone)]
pub struct Identity {
    /// The name of the object.
    pub name: Option<String>,
    /// The namespace the object lives in.
    pub namespace: Option<String>,
    /// The identifier that the cluster gave the object.
    pub uid: Option<String>,
}

/// The mathematical view of `Identity`: strings as sequences of characters,
/// lists as sequences, maps as maps.
pub struct IdentityView {
    pub name: Option<Seq<char>>,
    pub namespace: Option<Seq<char>>,
    pub uid: Option<Seq<char>>,
}

impl DeepView for Identity {
    type V = IdentityView;

    open spec fn deep_view(&self) -> IdentityView {
        IdentityView {
            name: self.name.deep_view(),
            namespace: self.namespace.deep_view(),
            uid: self.uid.deep_view(),
        }
    }
}

/// The API version of a resource of the given group and version: the
/// version alone for the core group, which has no name, and otherwise the
/// group, a slash and the version.
pub open spec fn api_version_of(group: Seq<char>, version: Seq<char>) -> Seq<char> {
    if group.len() == 0 {
        version
    } else {
        group + seq!['/'] + version
    }
}

/// The reference by which a resource names an object of the given group,
/// version and kind as the controller that owns it. There is none unless
/// the object has both a name and a uid.
pub open spec fn owner_reference_of(
    group: Seq<char>,
    version: Seq<char>,
    kind: Seq<char>,
    name: Option<Seq<char>>,
    uid: Option<Seq<char>>,
) -> Option<OwnerReferenceView> {
    match (name, uid) {
        (Some(name), Some(uid)) => Some(
            OwnerReferenceView {
                api_version: api_version_of(group, version),
                kind,
                name,
                uid,
                controller: Some(true),
                block_owner_deletion: None,
            },
        ),
        _ => None,
    }
}

/// Calls `kube::Resource::controller_owner_ref` on a `DynamicObject` of the
/// given group, version, kind and plural that carries the given name and
/// uid. As kube-core has it, the reference exists only if both name and uid
/// do; it repeats them, gives the kind and the API version of the resource
/// (made by `GroupVersionKind::api_version`), marks the owner as
/// controller, and leaves the blocking of deletion unset.
#[verifier::external_body]
fn controller_owner_ref_of(
    group: &str,
    version: &str,
    kind: &str,
    plural: &str,
    name: &Option<String>,
    uid: &Option<String>,
) -> (owner: Option<OwnerReference>)
    ensures
        owner.deep_view() == owner_reference_of(
            group@,
            version@,
            kind@,
            name.deep_view(),
            uid.deep_view(),
        ),
{
    let gvk = kube::core::GroupVersionKind::gvk(group, version, kind);
    let resource = kube::core::ApiResource::from_gvk_with_plural(&gvk, plural);
    let mut object = kube::core::DynamicObject::new("", &resource);
    object.metadata.name = name.clone();
    object.metadata.uid = uid.clone();
    let owner = kube::Resource::controller_owner_ref(&object, &resource)?;
    Some(OwnerReference {
        api_version: owner.api_version,
        kind: owner.kind,
        name: owner.name,
        uid: owner.uid,
        controller: owner.controller,
        block_owner_deletion: owner.block_owner_deletion,
    })
}

/// The reference by which a resource names the Nimble object with the
/// given identity as its owner.
pub open spec fn nimble_owner(identity: IdentityView) -> Option<OwnerReferenceView> {
    owner_reference_of(
        "ivaltryek.github.com"@,
        "v1"@,
        "Nimble"@,
        identity.name,
        identity.uid,
    )
}

/// A Nimble object as the cluster delivers it.
#[derive(Debug, PartialEq, Clone)]
pub struct Nimble {
    /// Who the object is.
    pub metadata: Identity,
    /// What the object asks for.
    pub spec: NimbleSpec,
}

/// The mathematical view of `Nimble`: strings as sequences of characters,
/// lists as sequences, maps as maps.
pub struct NimbleView {
    pub metadata: IdentityView,
    pub spec: NimbleSpecView,
}

impl DeepView for Nimble {
    type V = NimbleView;

    open spec fn deep_view(&self) -> NimbleView {
        NimbleView { metadata: self.metadata.deep_view(), spec: self.spec.deep_view() }
    }
}

impl Nimble {
    /// The API group of Nimble objects.
    pub fn group() -> (group: &'static str)
        ensures
            group@ == "ivaltryek.github.com"@,
    {
        "ivaltryek.github.com"
    }

    /// The version of the API of Nimble objects.
    pub fn version() -> (version: &'static str)
        ensures
            version@ == "v1"@,
    {
        "v1"
    }

    /// The kind of Nimble objects.
    pub fn kind() -> (kind: &'static str)
        ensures
            kind@ == "Nimble"@,
    {
        "Nimble"
    }

    /// The name under which the cluster lists Nimble objects.
    pub fn plural() -> (plural: &'static str)
        ensures
            plural@ == "nimbles"@,
    {
        "nimbles"
    }

    /// The reference by which a resource names this object as the
    /// controller that owns it, if the object has a name and a uid.
    pub fn controller_owner_ref(&self) -> (owner: Option<OwnerReference>)
        ensures
            owner.deep_view() == nimble_owner(self.metadata.deep_view()),
    {
        controller_owner_ref_of(
            Nimble::group(),
            Nimble::version(),
            Nimble::kind(),
            Nimble::plural(),
            &self.metadata.name,
            &self.metadata.uid,
        )
    }
}

} // verus!
