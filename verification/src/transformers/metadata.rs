//! The metadata of a resource made for a Nimble object.

use crate::common::copies::{copy_opt_string, lemma_deep_view_push};
use crate::common::string_map::StringMap;
use crate::crds::nimble::{nimble_owner, IdentityView, Nimble};
use crate::manifests::meta::{ObjectMeta, ObjectMetaView, OwnerReference, OwnerReferenceView};
use vstd::prelude::*;

verus! {

/// Whether a resource can name the object with this identity as its owner:
/// the object has a name and a uid.
pub open spec fn can_own(identity: IdentityView) -> bool {
    identity.name is Some && identity.uid is Some
}

/// Tells whether a resource can name `nimble` as its owner.
pub fn is_owner_known(nimble: &Nimble) -> (known: bool)
    ensures
        known == can_own(nimble.metadata.deep_view()),
{
    nimble.metadata.name.is_some() && nimble.metadata.uid.is_some()
}

/// The owners of a resource made for the object with the given identity:
/// none in a dry run, where nothing is stored, and otherwise the object.
pub open spec fn owners_of(identity: IdentityView, is_dry_run: bool) -> Option<
    Seq<OwnerReferenceView>,
> {
    if is_dry_run {
        None
    } else {
        Some(seq![nimble_owner(identity)->0])
    }
}

/// The metadata of a resource made for the object with the given identity:
/// the name of the object, the given labels and annotations, and the
/// owners as `owners_of` has them.
pub open spec fn metadata_of(
    identity: IdentityView,
    labels: Option<Map<Seq<char>, Seq<char>>>,
    annotations: Option<Map<Seq<char>, Seq<char>>>,
    is_dry_run: bool,
) -> ObjectMetaView {
    ObjectMetaView {
        name: identity.name,
        labels,
        annotations,
        owner_references: owners_of(identity, is_dry_run),
    }
}

/// A resource made in a dry run has no owner. One made outside a dry run,
/// for an object that can own it, has exactly one: the object, by its name
/// and uid, as the controller of the resource.
pub proof fn lemma_owner_only_outside_dry_run(
    identity: IdentityView,
    labels: Option<Map<Seq<char>, Seq<char>>>,
    annotations: Option<Map<Seq<char>, Seq<char>>>,
)
    ensures
        metadata_of(identity, labels, annotations, true).owner_references is None,
        can_own(identity) ==> {
            let owners = metadata_of(identity, labels, annotations, false).owner_references;
            &&& owners is Some
            &&& owners->0.len() == 1
            &&& owners->0[0].name == identity.name->0
            &&& owners->0[0].uid == identity.uid->0
            &&& owners->0[0].kind == "Nimble"@
            &&& owners->0[0].controller == Some(true)
        },
{
}

/// Builds the metadata of a resource made for `nimble`. Outside a dry run
/// the object must be able to own the resource.
pub fn transform_metadata(
    nimble: &Nimble,
    labels: Option<StringMap>,
    annotations: Option<StringMap>,
    is_dry_run: bool,
) -> (metadata: ObjectMeta)
    requires
        !is_dry_run ==> can_own(nimble.metadata.deep_view()),
    ensures
        metadata.deep_view() == metadata_of(
            nimble.metadata.deep_view(),
            labels.deep_view(),
            annotations.deep_view(),
            is_dry_run,
        ),
{
    let owner_references = if is_dry_run {
        None
    } else {
        match nimble.controller_owner_ref() {
            Some(oref) => {
                let mut owners: Vec<OwnerReference> = Vec::new();
                let ghost none = owners;
                owners.push(oref);
                proof {
                    lemma_deep_view_push(none, owners, oref);
                    assert(none.deep_view() =~= Seq::empty());
                    assert(owners.deep_view() =~= seq![oref.deep_view()]);
                }
                Some(owners)
            },
            None => None,
        }
    };
    ObjectMeta { name: copy_opt_string(&nimble.metadata.name), labels, annotations, owner_references }
}

} // verus!
