//! The shape that the four reconcilers share: a pass either ends at once
//! or asks for one write to the cluster, and ends with the answer to it.

use crate::controllers::client::{Action, ReconcileError, RESYNC_SECONDS};
use crate::crds::nimble::NimbleView;
use vstd::prelude::*;
use vstd::string::StringExecFns;

verus! {

/// The kinds of resources that are made for a Nimble object.
#[derive(Debug, PartialEq, Eq, Clone, Copy, Structural)]
pub enum ResourceKind {
    Deployment,
    Service,
    HorizontalPodAutoscaler,
    Ingress,
}

/// The name under which this controller owns the fields it writes.
pub open spec fn field_manager_name() -> Seq<char> {
    "nimble.ivaltryek.github.com"@
}

/// The name under which this controller owns the fields it writes.
pub fn field_manager() -> (name: &'static str)
    ensures
        name@ == field_manager_name(),
{
    "nimble.ivaltryek.github.com"
}

/// The path of the namespace in an object, as errors name it.
pub fn namespace_path() -> (path: &'static str)
    ensures
        path@ == ".metadata.namespace"@,
{
    ".metadata.namespace"
}

/// The path of the name in an object, as errors name it.
pub fn name_path() -> (path: &'static str)
    ensures
        path@ == ".metadata.name"@,
{
    ".metadata.name"
}

/// One write to the cluster: a server-side apply of `manifest`.
#[derive(Debug)]
pub struct ApplyRequest<M> {
    /// The namespace to write to.
    pub namespace: String,
    /// The name of the resource to write.
    pub name: String,
    /// The name under which the written fields are owned.
    pub field_manager: String,
    /// Whether the cluster is only to check the write, and store nothing.
    pub dry_run: bool,
    /// The resource to write.
    pub manifest: M,
}

/// How a pass ended.
#[derive(Debug)]
pub enum Conclusion {
    /// The object does not ask for a resource of this kind.
    NotRequested,
    /// A dry run in which the cluster accepted the resource. The answer of
    /// the cluster is to be printed.
    Rendered,
    /// A dry run in which the write failed. The cause is to be logged and
    /// goes no further.
    RenderFailed(kube::Error),
    /// The resource was written.
    Applied,
    /// The pass failed.
    Failed(ReconcileError),
}

/// What a reconciler does first.
#[derive(Debug)]
pub enum Step<M> {
    /// The pass is over without a write.
    Done(Conclusion),
    /// The resource is to be written; the answer of the cluster goes to
    /// `conclude`.
    Apply(ApplyRequest<M>),
}

/// Whether the object has a namespace and a name, without which nothing
/// can be written for it.
pub open spec fn has_identity(nimble: NimbleView) -> bool {
    nimble.metadata.namespace is Some && nimble.metadata.name is Some
}

/// Whether `step` is the failure of a pass for want of the field at `path`.
pub open spec fn fails_for_missing<M>(step: Step<M>, path: Seq<char>) -> bool {
    step matches Step::Done(Conclusion::Failed(ReconcileError::MissingObjectKey(field)))
        && field@ == path
}

/// Whether `step` asks for the write of a resource for the object `nimble`:
/// into the namespace of the object, under its name, in the name of this
/// controller, and as a dry run exactly if `is_dry_run`.
pub open spec fn applies_for<M>(step: Step<M>, nimble: NimbleView, is_dry_run: bool) -> bool {
    step matches Step::Apply(request) && nimble.metadata.namespace == Some(request.namespace@)
        && nimble.metadata.name == Some(request.name@) && request.field_manager@
        == field_manager_name() && request.dry_run == is_dry_run
}

/// Ends a pass with the answer of the cluster to its write. A dry run
/// never fails: its errors are only logged. A write that fails outside a
/// dry run fails the pass, with the answer of the cluster as the cause.
pub fn conclude(is_dry_run: bool, answer: Result<(), kube::Error>) -> (conclusion: Conclusion)
    ensures
        match (is_dry_run, answer) {
            (true, Ok(_)) => conclusion == Conclusion::Rendered,
            (true, Err(cause)) => conclusion == Conclusion::RenderFailed(cause),
            (false, Ok(_)) => conclusion == Conclusion::Applied,
            (false, Err(cause)) => conclusion == Conclusion::Failed(
                ReconcileError::NimbleObjectCreationFailed(cause),
            ),
        },
{
    match answer {
        Ok(_) => if is_dry_run {
            Conclusion::Rendered
        } else {
            Conclusion::Applied
        },
        Err(cause) => if is_dry_run {
            Conclusion::RenderFailed(cause)
        } else {
            Conclusion::Failed(ReconcileError::NimbleObjectCreationFailed(cause))
        },
    }
}

impl Conclusion {
    /// What the pass sets the presence flag of its kind to, if anything.
    /// The flag says whether the object asked for the resource when it
    /// was last written or found missing; it only steers the logs.
    pub open spec fn presence_spec(self) -> Option<bool> {
        match self {
            Conclusion::NotRequested => Some(false),
            Conclusion::Applied => Some(true),
            _ => None,
        }
    }

    /// What the pass sets the presence flag of its kind to: cleared where
    /// the object does not ask for the resource, set where the resource
    /// was written, and otherwise left as it is.
    pub fn presence(&self) -> (flag: Option<bool>)
        ensures
            flag == self.presence_spec(),
    {
        match self {
            Conclusion::NotRequested => Some(false),
            Conclusion::Applied => Some(true),
            _ => None,
        }
    }

    /// What the runtime is told: to come back after `RESYNC_SECONDS` where
    /// the resource was written, the error where the pass failed, and
    /// otherwise to wait until the object changes.
    pub fn into_result(self) -> (result: Result<Action, ReconcileError>)
        ensures
            match self {
                Conclusion::Applied => result == Ok::<Action, ReconcileError>(
                    Action::Requeue { seconds: RESYNC_SECONDS },
                ),
                Conclusion::Failed(error) => result == Err::<Action, ReconcileError>(error),
                _ => result == Ok::<Action, ReconcileError>(Action::AwaitChange),
            },
    {
        match self {
            Conclusion::Applied => Ok(Action::Requeue { seconds: RESYNC_SECONDS }),
            Conclusion::Failed(error) => Err(error),
            _ => Ok(Action::AwaitChange),
        }
    }
}

impl ResourceKind {
    /// The name of the file that a rendered resource of this kind is
    /// announced as.
    pub open spec fn file_name_spec(self) -> Seq<char> {
        match self {
            ResourceKind::Deployment => "deployment.yaml"@,
            ResourceKind::Service => "service.yaml"@,
            ResourceKind::HorizontalPodAutoscaler => "hpa.yaml"@,
            ResourceKind::Ingress => "ingress.yaml"@,
        }
    }

    /// The name of the file that a rendered resource of this kind is
    /// announced as.
    pub fn file_name(self) -> (name: &'static str)
        ensures
            name@ == self.file_name_spec(),
    {
        match self {
            ResourceKind::Deployment => "deployment.yaml",
            ResourceKind::Service => "service.yaml",
            ResourceKind::HorizontalPodAutoscaler => "hpa.yaml",
            ResourceKind::Ingress => "ingress.yaml",
        }
    }

    /// Whether a pass that ended well is logged as a success, given the
    /// presence flag of the kind. A deployment is always asked for; for the
    /// other kinds the flag decides, so that no success is logged for a
    /// resource that the object never asked for.
    pub fn logs_success(self, present: bool) -> (logged: bool)
        ensures
            logged == (self == ResourceKind::Deployment || present),
    {
        match self {
            ResourceKind::Deployment => true,
            _ => present,
        }
    }
}

/// The text that a dry run prints for a resource: a document separator, a
/// comment that names the resource by its file, an empty line, and the
/// resource as YAML.
pub open spec fn rendering(kind: ResourceKind, yaml: Seq<char>) -> Seq<char> {
    "---\n# "@ + kind.file_name_spec() + "\n\n"@ + yaml
}

/// Builds the text that a dry run prints for a resource of the given kind
/// whose YAML form is `yaml`.
pub fn render_document(kind: ResourceKind, yaml: &str) -> (text: String)
    ensures
        text@ == rendering(kind, yaml@),
{
    "---\n# ".to_owned().concat(kind.file_name()).concat("\n\n").concat(yaml)
}

} // verus!
