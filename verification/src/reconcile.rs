//! The reconciliation of one project, as a machine that hands out one
//! request at a time and takes the answer to it.
//!
//! A reconciliation asks for the repository, resolves its default branch,
//! resolves the environment tag, decides, and writes at most once. The
//! caller performs each pending request and gives the answer to `advance`.

use crate::decision::{
    decide, decide_spec, sha_for_ref, sha_for_ref_spec, tag_state, tag_state_spec, Decision,
    DecisionView,
};
use crate::registry::{GithubProject, GithubProjectView};
use crate::remote::{
    full_ref, tag_ref_path, RefKind, RemoteFailure, RemoteFailureView, RemoteRequest,
    RemoteRequestView, RemoteResponse, RemoteResponseView, ResolvedRef, ResolvedRefView,
};
use crate::views::{option_view, result_view};
use vstd::prelude::*;
use vstd::string::*;

verus! {

/// The remote calls of one reconciliation.
#[derive(Clone, Copy, Debug, PartialEq, Eq, Structural)]
pub enum Step {
    RepositoryFetch,
    BranchResolution,
    TagResolution,
    Create,
    Update,
}

/// Why the reconciliation of a project came to nothing.
#[derive(Debug, PartialEq, Eq)]
pub enum ReconcileError {
    /// The repository names no default branch.
    NoDefaultBranch,
    /// A remote call failed. `step` says which one.
    RemoteError { step: Step, failure: RemoteFailure },
}

/// Mathematical model of a [`ReconcileError`].
pub enum ReconcileErrorView {
    NoDefaultBranch,
    RemoteError { step: Step, failure: RemoteFailureView },
}

impl View for ReconcileError {
    type V = ReconcileErrorView;

    open spec fn view(&self) -> ReconcileErrorView {
        match self {
            ReconcileError::NoDefaultBranch => ReconcileErrorView::NoDefaultBranch,
            ReconcileError::RemoteError { step, failure } => ReconcileErrorView::RemoteError {
                step: *step,
                failure: failure@,
            },
        }
    }
}

impl ReconcileErrorView {
    /// The error in words.
    pub open spec fn message(self) -> Seq<char> {
        match self {
            ReconcileErrorView::NoDefaultBranch => "project does not have main branch defined"@,
            ReconcileErrorView::RemoteError { step, failure } => match step {
                Step::Create => "Unable to create new ref"@,
                Step::Update => "Unable to update existing ref"@,
                _ => match failure {
                    RemoteFailureView::Provider { message } => message,
                    RemoteFailureView::Transport { description } => description,
                    RemoteFailureView::UnexpectedPayload => if step == Step::BranchResolution {
                        "Unexpected ref object type"@
                    } else {
                        "unexpected ref type"@
                    },
                },
            },
        }
    }
}

impl ReconcileError {
    /// The error in words. A failed write is named as the creation or the
    /// move that it was; a failed reading call speaks through the message
    /// of its failure.
    pub fn message(&self) -> (text: String)
        ensures
            text@ == self@.message(),
    {
        match self {
            ReconcileError::NoDefaultBranch => String::from_str(
                "project does not have main branch defined",
            ),
            ReconcileError::RemoteError { step, failure } => match step {
                Step::Create => String::from_str("Unable to create new ref"),
                Step::Update => String::from_str("Unable to update existing ref"),
                _ => match failure {
                    RemoteFailure::Provider { message } => message.clone(),
                    RemoteFailure::Transport { description } => description.clone(),
                    RemoteFailure::UnexpectedPayload => match step {
                        Step::BranchResolution => String::from_str("Unexpected ref object type"),
                        _ => String::from_str("unexpected ref type"),
                    },
                },
            },
        }
    }
}

/// How the reconciliation of a project ended well.
#[derive(Debug, PartialEq, Eq)]
pub enum Outcome {
    /// The tag was already in the appropriate spot. Nothing was written.
    Unchanged,
    /// The tag was created. The provider answered with this reference.
    Created(ResolvedRef),
    /// The tag was moved. The provider answered with this reference.
    Updated(ResolvedRef),
}

/// Mathematical model of an [`Outcome`].
pub enum OutcomeView {
    Unchanged,
    Created(ResolvedRefView),
    Updated(ResolvedRefView),
}

impl View for Outcome {
    type V = OutcomeView;

    open spec fn view(&self) -> OutcomeView {
        match self {
            Outcome::Unchanged => OutcomeView::Unchanged,
            Outcome::Created(reference) => OutcomeView::Created(reference@),
            Outcome::Updated(reference) => OutcomeView::Updated(reference@),
        }
    }
}

/// Where the reconciliation of one project stands.
///
/// Every state but the last two waits for the answer to one request.
#[derive(Debug, PartialEq, Eq)]
pub enum Reconciliation {
    /// Waiting for the metadata of the repository.
    FetchingRepository,
    /// Waiting for the resolution of the default branch.
    ResolvingBranch { branch: String },
    /// Waiting for the resolution of the environment tag.
    ResolvingTag { tracked_sha: String },
    /// Waiting for the creation of the tag at the tracked SHA.
    CreatingTag { tracked_sha: String },
    /// Waiting for the move of the tag to the tracked SHA.
    UpdatingTag { tracked_sha: String },
    /// Ended well.
    Done(Outcome),
    /// Ended with an error.
    Failed(ReconcileError),
}

/// Mathematical model of a [`Reconciliation`].
pub enum ReconciliationView {
    FetchingRepository,
    ResolvingBranch { branch: Seq<char> },
    ResolvingTag { tracked_sha: Seq<char> },
    CreatingTag { tracked_sha: Seq<char> },
    UpdatingTag { tracked_sha: Seq<char> },
    Done(OutcomeView),
    Failed(ReconcileErrorView),
}

impl View for Reconciliation {
    type V = ReconciliationView;

    open spec fn view(&self) -> ReconciliationView {
        match self {
            Reconciliation::FetchingRepository => ReconciliationView::FetchingRepository,
            Reconciliation::ResolvingBranch { branch } => ReconciliationView::ResolvingBranch {
                branch: branch@,
            },
            Reconciliation::ResolvingTag { tracked_sha } => ReconciliationView::ResolvingTag {
                tracked_sha: tracked_sha@,
            },
            Reconciliation::CreatingTag { tracked_sha } => ReconciliationView::CreatingTag {
                tracked_sha: tracked_sha@,
            },
            Reconciliation::UpdatingTag { tracked_sha } => ReconciliationView::UpdatingTag {
                tracked_sha: tracked_sha@,
            },
            Reconciliation::Done(outcome) => ReconciliationView::Done(outcome@),
            Reconciliation::Failed(error) => ReconciliationView::Failed(error@),
        }
    }
}

/// The failure of the remote call `step`.
pub open spec fn remote_error(step: Step, failure: RemoteFailureView) -> ReconciliationView {
    ReconciliationView::Failed(ReconcileErrorView::RemoteError { step, failure })
}

/// The state that follows the decision taken on the tracked SHA and the tag.
pub open spec fn after_decision(decision: DecisionView) -> ReconciliationView {
    match decision {
        DecisionView::NoOp => ReconciliationView::Done(OutcomeView::Unchanged),
        DecisionView::CreateTag(sha) => ReconciliationView::CreatingTag { tracked_sha: sha },
        DecisionView::UpdateTag(sha) => ReconciliationView::UpdatingTag { tracked_sha: sha },
    }
}

/// The state that follows the answer to a write.
pub open spec fn after_write(
    step: Step,
    response: RemoteResponseView,
    outcome: spec_fn(ResolvedRefView) -> OutcomeView,
) -> ReconciliationView {
    match response {
        RemoteResponseView::Reference(reference) => ReconciliationView::Done(outcome(reference)),
        RemoteResponseView::Failure(failure) => remote_error(step, failure),
        RemoteResponseView::Repository { .. } => remote_error(
            step,
            RemoteFailureView::UnexpectedPayload,
        ),
    }
}

impl ReconciliationView {
    /// The reconciliation has ended, well or with an error.
    pub open spec fn is_finished(self) -> bool {
        self is Done || self is Failed
    }

    /// How the reconciliation ended, if it has.
    pub open spec fn result(self) -> Option<Result<OutcomeView, ReconcileErrorView>> {
        match self {
            ReconciliationView::Done(outcome) => Some(Ok(outcome)),
            ReconciliationView::Failed(error) => Some(Err(error)),
            _ => None,
        }
    }

    /// The request whose answer the reconciliation of `project` waits for.
    /// A reconciliation that has ended waits for none.
    pub open spec fn pending(self, project: GithubProjectView) -> Option<RemoteRequestView> {
        match self {
            ReconciliationView::FetchingRepository => Some(
                RemoteRequestView::GetRepository { owner: project.owner, repo: project.repo },
            ),
            ReconciliationView::ResolvingBranch { branch } => Some(
                RemoteRequestView::ResolveRef {
                    owner: project.owner,
                    repo: project.repo,
                    kind: RefKind::Branch,
                    name: branch,
                },
            ),
            ReconciliationView::ResolvingTag { .. } => Some(
                RemoteRequestView::ResolveRef {
                    owner: project.owner,
                    repo: project.repo,
                    kind: RefKind::Tag,
                    name: project.env,
                },
            ),
            ReconciliationView::CreatingTag { tracked_sha } => Some(
                RemoteRequestView::CreateRef {
                    owner: project.owner,
                    repo: project.repo,
                    full_ref: tag_ref_path(project.env),
                    sha: tracked_sha,
                    force: true,
                },
            ),
            ReconciliationView::UpdatingTag { tracked_sha } => Some(
                RemoteRequestView::UpdateRef {
                    owner: project.owner,
                    repo: project.repo,
                    full_ref: tag_ref_path(project.env),
                    sha: tracked_sha,
                    force: true,
                },
            ),
            ReconciliationView::Done(_) => None,
            ReconciliationView::Failed(_) => None,
        }
    }

    /// The state that follows when the pending request is answered by
    /// `response`. A reconciliation that has ended stays as it is.
    pub open spec fn advance(self, response: RemoteResponseView) -> ReconciliationView {
        match self {
            ReconciliationView::FetchingRepository => match response {
                RemoteResponseView::Repository { default_branch: Some(branch) } => {
                    ReconciliationView::ResolvingBranch { branch }
                },
                RemoteResponseView::Repository { default_branch: None } => {
                    ReconciliationView::Failed(ReconcileErrorView::NoDefaultBranch)
                },
                RemoteResponseView::Failure(failure) => remote_error(
                    Step::RepositoryFetch,
                    failure,
                ),
                RemoteResponseView::Reference(_) => remote_error(
                    Step::RepositoryFetch,
                    RemoteFailureView::UnexpectedPayload,
                ),
            },
            ReconciliationView::ResolvingBranch { .. } => match response {
                RemoteResponseView::Reference(resolved) => match sha_for_ref_spec(resolved) {
                    Ok(tracked_sha) => ReconciliationView::ResolvingTag { tracked_sha },
                    Err(failure) => remote_error(Step::BranchResolution, failure),
                },
                RemoteResponseView::Failure(failure) => remote_error(
                    Step::BranchResolution,
                    failure,
                ),
                RemoteResponseView::Repository { .. } => remote_error(
                    Step::BranchResolution,
                    RemoteFailureView::UnexpectedPayload,
                ),
            },
            ReconciliationView::ResolvingTag { tracked_sha } => match tag_state_spec(response) {
                Ok(tag) => after_decision(decide_spec(tracked_sha, tag)),
                Err(failure) => remote_error(Step::TagResolution, failure),
            },
            ReconciliationView::CreatingTag { .. } => after_write(
                Step::Create,
                response,
                |reference: ResolvedRefView| OutcomeView::Created(reference),
            ),
            ReconciliationView::UpdatingTag { .. } => after_write(
                Step::Update,
                response,
                |reference: ResolvedRefView| OutcomeView::Updated(reference),
            ),
            ReconciliationView::Done(_) => self,
            ReconciliationView::Failed(_) => self,
        }
    }
}

impl Reconciliation {
    /// The state in which every reconciliation starts: nothing is known yet,
    /// and the repository is to be fetched.
    pub fn begin() -> (start: Reconciliation)
        ensures
            start@ == ReconciliationView::FetchingRepository,
    {
        Reconciliation::FetchingRepository
    }

    /// Tells whether the reconciliation has ended.
    pub fn is_finished(&self) -> (finished: bool)
        ensures
            finished == self@.is_finished(),
            forall|project: GithubProjectView|
                finished <==> (#[trigger] self@.pending(project)) is None,
    {
        match self {
            Reconciliation::Done(_) => true,
            Reconciliation::Failed(_) => true,
            _ => false,
        }
    }

    /// The request that the caller has to perform next for `project`, or
    /// `None` once the reconciliation has ended.
    pub fn pending(&self, project: &GithubProject) -> (request: Option<RemoteRequest>)
        ensures
            option_view(request) == self@.pending(project@),
    {
        match self {
            Reconciliation::FetchingRepository => Some(
                RemoteRequest::GetRepository {
                    owner: project.owner.clone(),
                    repo: project.repo.clone(),
                },
            ),
            Reconciliation::ResolvingBranch { branch } => Some(
                RemoteRequest::ResolveRef {
                    owner: project.owner.clone(),
                    repo: project.repo.clone(),
                    kind: RefKind::Branch,
                    name: branch.clone(),
                },
            ),
            Reconciliation::ResolvingTag { .. } => Some(
                RemoteRequest::ResolveRef {
                    owner: project.owner.clone(),
                    repo: project.repo.clone(),
                    kind: RefKind::Tag,
                    name: project.env.clone(),
                },
            ),
            Reconciliation::CreatingTag { tracked_sha } => Some(
                RemoteRequest::CreateRef {
                    owner: project.owner.clone(),
                    repo: project.repo.clone(),
                    full_ref: full_ref(project.env.as_str()),
                    sha: tracked_sha.clone(),
                    force: true,
                },
            ),
            Reconciliation::UpdatingTag { tracked_sha } => Some(
                RemoteRequest::UpdateRef {
                    owner: project.owner.clone(),
                    repo: project.repo.clone(),
                    full_ref: full_ref(project.env.as_str()),
                    sha: tracked_sha.clone(),
                    force: true,
                },
            ),
            Reconciliation::Done(_) => None,
            Reconciliation::Failed(_) => None,
        }
    }

    /// Takes the answer to the pending request and moves on.
    ///
    /// A failure ends the reconciliation with the step at which it came.
    /// The one failure that does not is the provider's "Not Found" for the
    /// environment tag: the tag then counts as absent and is created. A
    /// write is asked for only after both resolutions have been answered.
    pub fn advance(self, response: RemoteResponse) -> (next: Reconciliation)
        ensures
            next@ == self@.advance(response@),
    {
        match self {
            Reconciliation::FetchingRepository => match response {
                RemoteResponse::Repository { default_branch: Some(branch) } => {
                    Reconciliation::ResolvingBranch { branch }
                },
                RemoteResponse::Repository { default_branch: None } => {
                    Reconciliation::Failed(ReconcileError::NoDefaultBranch)
                },
                RemoteResponse::Failure(failure) => Reconciliation::Failed(
                    ReconcileError::RemoteError { step: Step::RepositoryFetch, failure },
                ),
                RemoteResponse::Reference(_) => Reconciliation::Failed(
                    ReconcileError::RemoteError {
                        step: Step::RepositoryFetch,
                        failure: RemoteFailure::UnexpectedPayload,
                    },
                ),
            },
            Reconciliation::ResolvingBranch { .. } => match response {
                RemoteResponse::Reference(resolved) => match sha_for_ref(resolved) {
                    Ok(tracked_sha) => Reconciliation::ResolvingTag { tracked_sha },
                    Err(failure) => Reconciliation::Failed(
                        ReconcileError::RemoteError { step: Step::BranchResolution, failure },
                    ),
                },
                RemoteResponse::Failure(failure) => Reconciliation::Failed(
                    ReconcileError::RemoteError { step: Step::BranchResolution, failure },
                ),
                RemoteResponse::Repository { .. } => Reconciliation::Failed(
                    ReconcileError::RemoteError {
                        step: Step::BranchResolution,
                        failure: RemoteFailure::UnexpectedPayload,
                    },
                ),
            },
            Reconciliation::ResolvingTag { tracked_sha } => match tag_state(response) {
                Ok(tag) => match decide(tracked_sha, tag) {
                    Decision::NoOp => Reconciliation::Done(Outcome::Unchanged),
                    Decision::CreateTag(sha) => Reconciliation::CreatingTag { tracked_sha: sha },
                    Decision::UpdateTag(sha) => Reconciliation::UpdatingTag { tracked_sha: sha },
                },
                Err(failure) => Reconciliation::Failed(
                    ReconcileError::RemoteError { step: Step::TagResolution, failure },
                ),
            },
            Reconciliation::CreatingTag { .. } => match response {
                RemoteResponse::Reference(reference) => Reconciliation::Done(
                    Outcome::Created(reference),
                ),
                RemoteResponse::Failure(failure) => Reconciliation::Failed(
                    ReconcileError::RemoteError { step: Step::Create, failure },
                ),
                RemoteResponse::Repository { .. } => Reconciliation::Failed(
                    ReconcileError::RemoteError {
                        step: Step::Create,
                        failure: RemoteFailure::UnexpectedPayload,
                    },
                ),
            },
            Reconciliation::UpdatingTag { .. } => match response {
                RemoteResponse::Reference(reference) => Reconciliation::Done(
                    Outcome::Updated(reference),
                ),
                RemoteResponse::Failure(failure) => Reconciliation::Failed(
                    ReconcileError::RemoteError { step: Step::Update, failure },
                ),
                RemoteResponse::Repository { .. } => Reconciliation::Failed(
                    ReconcileError::RemoteError {
                        step: Step::Update,
                        failure: RemoteFailure::UnexpectedPayload,
                    },
                ),
            },
            Reconciliation::Done(outcome) => Reconciliation::Done(outcome),
            Reconciliation::Failed(error) => Reconciliation::Failed(error),
        }
    }

    /// How the reconciliation ended: `None` while a request is pending.
    pub fn result(self) -> (result: Option<Result<Outcome, ReconcileError>>)
        ensures
            match result {
                Some(ended) => self@.result() == Some(result_view(ended)),
                None => self@.result() is None,
            },
    {
        match self {
            Reconciliation::Done(outcome) => Some(Ok(outcome)),
            Reconciliation::Failed(error) => Some(Err(error)),
            _ => None,
        }
    }
}

} // verus!
