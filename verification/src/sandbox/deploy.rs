//! Bringing a sandbox up and tearing it down.
//!
//! Deployment is a sequence of three creations. The library says which
//! resource to create next; the caller creates it and reports how that went.
//! The first failure ends the deployment with that failure. What was created
//! before is left in place: nothing here ever asks for a deletion.

use crate::error::{SandboxError, SandboxErrorView};
use crate::sandbox::naming::{namespace_name, namespace_of};
use crate::sandbox::resources::{
    namespace_for, namespace_spec_of, service_for, service_spec_of, workload_for, workload_of,
    Resource, ResourceView,
};
use vstd::prelude::*;

verus! {

/// The resource that a deployment is creating.
#[derive(Clone, Copy, Debug, PartialEq, Eq, Structural)]
pub enum DeployStep {
    Namespace,
    Workload,
    Service,
}

/// Where a deployment stands.
#[derive(Clone, Debug, PartialEq, Eq)]
pub enum DeployState {
    /// The caller is creating the resource of this step.
    Creating(DeployStep),
    /// All three resources were created.
    Deployed,
    /// A creation failed, with this error.
    Failed(SandboxError),
}

/// The mathematical content of a [`DeployState`].
pub enum DeployStateView {
    Creating(DeployStep),
    Deployed,
    Failed(SandboxErrorView),
}

impl DeepView for DeployState {
    type V = DeployStateView;

    open spec fn deep_view(&self) -> DeployStateView {
        match self {
            DeployState::Creating(step) => DeployStateView::Creating(*step),
            DeployState::Deployed => DeployStateView::Deployed,
            DeployState::Failed(error) => DeployStateView::Failed(error@),
        }
    }
}

impl View for DeployState {
    type V = DeployStateView;

    open spec fn view(&self) -> DeployStateView {
        self.deep_view()
    }
}

/// What the caller of a deployment has to do next.
#[derive(Debug, PartialEq, Eq)]
pub enum DeployAction {
    /// Create this resource, then report the outcome.
    Create(Resource),
    /// Stop: the deployment has ended in this way.
    Finish(Result<(), SandboxError>),
}

/// The mathematical content of a [`DeployAction`].
pub enum DeployActionView {
    Create(ResourceView),
    Finish(Result<(), SandboxErrorView>),
}

impl DeepView for DeployAction {
    type V = DeployActionView;

    open spec fn deep_view(&self) -> DeployActionView {
        match self {
            DeployAction::Create(resource) => DeployActionView::Create(resource@),
            DeployAction::Finish(Ok(())) => DeployActionView::Finish(Ok(())),
            DeployAction::Finish(Err(error)) => DeployActionView::Finish(Err(error@)),
        }
    }
}

impl View for DeployAction {
    type V = DeployActionView;

    open spec fn view(&self) -> DeployActionView {
        self.deep_view()
    }
}

/// The resource of a step of an owner's deployment.
pub open spec fn resource_of(owner: Seq<char>, step: DeployStep) -> ResourceView {
    match step {
        DeployStep::Namespace => ResourceView::Namespace(namespace_spec_of(owner)),
        DeployStep::Workload => ResourceView::Workload(workload_of(owner)),
        DeployStep::Service => ResourceView::Service(service_spec_of(owner)),
    }
}

/// The step after `step`, if there is one: namespace, workload, service.
pub open spec fn step_after(step: DeployStep) -> Option<DeployStep> {
    match step {
        DeployStep::Namespace => Some(DeployStep::Workload),
        DeployStep::Workload => Some(DeployStep::Service),
        DeployStep::Service => None,
    }
}

/// How a deployment begins: by creating the namespace.
pub open spec fn deploy_begin(owner: Seq<char>) -> (DeployStateView, DeployActionView) {
    (
        DeployStateView::Creating(DeployStep::Namespace),
        DeployActionView::Create(resource_of(owner, DeployStep::Namespace)),
    )
}

/// How a deployment goes on after the outcome of the creation it asked for.
/// A failure ends it with that failure; a success leads to the next
/// creation, or to the end after the last. A deployment that has ended
/// stays as it is, whatever is reported.
pub open spec fn deploy_transition(
    owner: Seq<char>,
    state: DeployStateView,
    outcome: Result<(), SandboxErrorView>,
) -> (DeployStateView, DeployActionView) {
    match state {
        DeployStateView::Creating(step) => match outcome {
            Err(error) => (DeployStateView::Failed(error), DeployActionView::Finish(Err(error))),
            Ok(_) => match step_after(step) {
                Some(next) => (
                    DeployStateView::Creating(next),
                    DeployActionView::Create(resource_of(owner, next)),
                ),
                None => (DeployStateView::Deployed, DeployActionView::Finish(Ok(()))),
            },
        },
        DeployStateView::Deployed => (DeployStateView::Deployed, DeployActionView::Finish(Ok(()))),
        DeployStateView::Failed(error) => (
            DeployStateView::Failed(error),
            DeployActionView::Finish(Err(error)),
        ),
    }
}

fn make_resource(owner: &str, step: DeployStep) -> (resource: Resource)
    ensures
        resource@ == resource_of(owner@, step),
{
    match step {
        DeployStep::Namespace => Resource::Namespace(namespace_for(owner)),
        DeployStep::Workload => Resource::Workload(workload_for(owner)),
        DeployStep::Service => Resource::Service(service_for(owner)),
    }
}

/// Begins the deployment of an owner's sandbox.
pub fn deploy(owner: &str) -> (begin: (DeployState, DeployAction))
    ensures
        (begin.0@, begin.1@) == deploy_begin(owner@),
{
    (
        DeployState::Creating(DeployStep::Namespace),
        DeployAction::Create(make_resource(owner, DeployStep::Namespace)),
    )
}

/// Advances a deployment by the outcome of the creation it asked for.
pub fn deploy_next(owner: &str, state: DeployState, outcome: Result<(), SandboxError>) -> (next: (
    DeployState,
    DeployAction,
))
    ensures
        (next.0@, next.1@) == deploy_transition(
            owner@,
            state@,
            match outcome {
                Ok(_) => Ok(()),
                Err(error) => Err(error@),
            },
        ),
{
    match state {
        DeployState::Creating(step) => match outcome {
            Err(error) => {
                let report = error.duplicate();
                (DeployState::Failed(error), DeployAction::Finish(Err(report)))
            },
            Ok(_) => match step {
                DeployStep::Namespace => (
                    DeployState::Creating(DeployStep::Workload),
                    DeployAction::Create(make_resource(owner, DeployStep::Workload)),
                ),
                DeployStep::Workload => (
                    DeployState::Creating(DeployStep::Service),
                    DeployAction::Create(make_resource(owner, DeployStep::Service)),
                ),
                DeployStep::Service => (DeployState::Deployed, DeployAction::Finish(Ok(()))),
            },
        },
        DeployState::Deployed => (DeployState::Deployed, DeployAction::Finish(Ok(()))),
        DeployState::Failed(error) => {
            let report = error.duplicate();
            (DeployState::Failed(error), DeployAction::Finish(Err(report)))
        },
    }
}

/// Names what tearing an owner's sandbox down deletes: its namespace, and
/// nothing else. The cluster removes what the namespace holds.
pub fn cleanup(owner: &str) -> (namespace: String)
    ensures
        namespace@ == namespace_of(owner@),
{
    namespace_name(owner)
}

/// A deployment whose three creations succeed asks for the namespace, then
/// the workload, then the service, and ends well.
pub proof fn lemma_deploy_order(owner: Seq<char>)
    ensures
        ({
            let begin = deploy_begin(owner);
            let second = deploy_transition(owner, begin.0, Ok(()));
            let third = deploy_transition(owner, second.0, Ok(()));
            let end = deploy_transition(owner, third.0, Ok(()));
            &&& begin.1 == DeployActionView::Create(
                ResourceView::Namespace(namespace_spec_of(owner)),
            )
            &&& second.1 == DeployActionView::Create(ResourceView::Workload(workload_of(owner)))
            &&& third.1 == DeployActionView::Create(
                ResourceView::Service(service_spec_of(owner)),
            )
            &&& end == (DeployStateView::Deployed, DeployActionView::Finish(Ok(())))
        }),
{
}

/// A creation that fails ends the deployment with its error, at whatever
/// step; and a deployment that has ended never asks for a creation again.
pub proof fn lemma_deploy_stops(
    owner: Seq<char>,
    step: DeployStep,
    error: SandboxErrorView,
    later: Result<(), SandboxErrorView>,
)
    ensures
        deploy_transition(owner, DeployStateView::Creating(step), Err(error)) == (
            DeployStateView::Failed(error),
            DeployActionView::Finish(Err(error)),
        ),
        deploy_transition(owner, DeployStateView::Failed(error), later) == (
            DeployStateView::Failed(error),
            DeployActionView::Finish(Err(error)),
        ),
        deploy_transition(owner, DeployStateView::Deployed, later) == (
            DeployStateView::Deployed,
            DeployActionView::Finish(Ok(())),
        ),
{
}

} // verus!
