//! What the reconcilers share: the handle to the cluster, the errors of a
//! pass, and what the runtime is told to do next.

use crate::crds::nimble::Nimble;
use std::sync::Arc;
use vstd::prelude::*;
use vstd::string::StringExecFns;

verus! {

/// `kube::Client`, the handle through which the cluster is reached. Nothing
/// is said of what it holds.
#[verifier::external_type_specification]
#[verifier::external_body]
pub struct ExClient(kube::Client);

/// `kube::Error`, the error of a failed call to the cluster. Nothing is
/// said of what it holds.
#[verifier::external_type_specification]
#[verifier::external_body]
pub struct ExKubeError(kube::Error);

/// What every reconcile pass is given besides the object.
pub struct ContextData {
    /// The handle to the cluster.
    pub client: kube::Client,
}

impl ContextData {
    /// The context that reaches the cluster through `client`.
    pub fn new(client: kube::Client) -> (context: ContextData)
        ensures
            context.client == client,
    {
        ContextData { client }
    }
}

/// Why a reconcile pass failed.
#[derive(Debug)]
pub enum ReconcileError {
    /// The cluster refused the resource, or could not be reached.
    NimbleObjectCreationFailed(kube::Error),
    /// The object lacks a part of its identity; the field is named by its
    /// path.
    MissingObjectKey(&'static str),
}

/// What the runtime is to do with an object after a pass.
#[derive(Debug, PartialEq, Eq, Clone, Copy, Structural)]
pub enum Action {
    /// Leave the object alone until it changes.
    AwaitChange,
    /// Reconcile the object again after this many seconds.
    Requeue { seconds: u64 },
}

/// Seconds between two passes over an object whose resource was applied.
pub const RESYNC_SECONDS: u64 = 30;

/// Seconds before a failed pass is tried again.
pub const RETRY_SECONDS: u64 = 1;

/// Calls `to_string` on a `kube::Error`, which formats it as its `Display`
/// impl does. Nothing is claimed of the text.
#[verifier::external_body]
fn describe(cause: &kube::Error) -> (text: String) {
    cause.to_string()
}

/// The message of a failed creation whose cause reads `cause`.
pub fn creation_failed_message(cause: &str) -> (message: String)
    ensures
        message@ == "Failed to create Nimble Object: "@ + cause@,
{
    "Failed to create Nimble Object: ".to_owned().concat(cause)
}

/// The message of a missing part of the identity at the path `field`.
pub fn missing_key_message(field: &str) -> (message: String)
    ensures
        message@ == "MissingObjectKey: "@ + field@,
{
    "MissingObjectKey: ".to_owned().concat(field)
}

impl ReconcileError {
    /// The error as a line of text.
    pub fn message(&self) -> (message: String)
        ensures
            match self {
                ReconcileError::NimbleObjectCreationFailed(_) => "Failed to create Nimble Object: "@.is_prefix_of(
                    message@,
                ),
                ReconcileError::MissingObjectKey(field) => message@ == "MissingObjectKey: "@ + field@,
            },
    {
        match self {
            ReconcileError::NimbleObjectCreationFailed(cause) => {
                let text = describe(cause);
                creation_failed_message(text.as_str())
            },
            ReconcileError::MissingObjectKey(field) => missing_key_message(field),
        }
    }
}

/// What the runtime does after a failed pass: whatever the object and the
/// error, it tries again after `RETRY_SECONDS`.
pub fn error_policy(_object: Arc<Nimble>, _error: &ReconcileError, _ctx: Arc<ContextData>) -> (action: Action)
    ensures
        action == (Action::Requeue { seconds: RETRY_SECONDS }),
{
    Action::Requeue { seconds: RETRY_SECONDS }
}

} // verus!
