//! One pass over the projects of a registry, in registry order.
//!
//! The pass stops at the first project that is of an unsupported kind or
//! whose reconciliation fails. It succeeds only when every project has been
//! reconciled.

use crate::reconcile::{ReconcileError, ReconcileErrorView, Reconciliation, ReconciliationView};
use crate::registry::{projects_view, SourceProject, SourceProjectView, SourceProjects};
use crate::remote::{RemoteRequest, RemoteRequestView, RemoteResponse, RemoteResponseView};
use crate::views::{option_view, result_view};
use vstd::prelude::*;
use vstd::string::*;

verus! {

/// Why a pass stopped early.
#[derive(Debug, PartialEq, Eq)]
pub enum SyncError {
    /// The project at `index` is of the kind `kind`, which cannot be
    /// reconciled.
    UnsupportedProjectKind { index: usize, kind: String },
    /// The reconciliation of the project at `index` failed.
    ProjectFailed { index: usize, error: ReconcileError },
}

/// Mathematical model of a [`SyncError`].
pub enum SyncErrorView {
    UnsupportedProjectKind { index: int, kind: Seq<char> },
    ProjectFailed { index: int, error: ReconcileErrorView },
}

impl View for SyncError {
    type V = SyncErrorView;

    open spec fn view(&self) -> SyncErrorView {
        match self {
            SyncError::UnsupportedProjectKind { index, kind } => {
                SyncErrorView::UnsupportedProjectKind { index: *index as int, kind: kind@ }
            },
            SyncError::ProjectFailed { index, error } => SyncErrorView::ProjectFailed {
                index: *index as int,
                error: error@,
            },
        }
    }
}

impl SyncErrorView {
    /// The error in words.
    pub open spec fn message(self) -> Seq<char> {
        match self {
            SyncErrorView::UnsupportedProjectKind { kind, .. } => {
                "Project type currently not supported "@ + kind
            },
            SyncErrorView::ProjectFailed { error, .. } => error.message(),
        }
    }
}

impl SyncError {
    /// The error in words: the kind that is not supported, or the message
    /// of the reconciliation that failed.
    pub fn message(&self) -> (text: String)
        ensures
            text@ == self@.message(),
    {
        match self {
            SyncError::UnsupportedProjectKind { kind, .. } => String::from_str(
                "Project type currently not supported ",
            ).concat(kind.as_str()),
            SyncError::ProjectFailed { error, .. } => error.message(),
        }
    }
}

/// Where a pass stands.
enum Progress {
    /// The project at `index` is being reconciled.
    Running { index: usize, current: Reconciliation },
    /// Every project has been reconciled.
    Succeeded,
    /// The pass stopped early.
    Failed(SyncError),
}

/// Mathematical model of the progress of a pass.
pub enum ProgressView {
    Running { index: int, current: ReconciliationView },
    Succeeded,
    Failed(SyncErrorView),
}

impl View for Progress {
    type V = ProgressView;

    closed spec fn view(&self) -> ProgressView {
        match self {
            Progress::Running { index, current } => ProgressView::Running {
                index: *index as int,
                current: current@,
            },
            Progress::Succeeded => ProgressView::Succeeded,
            Progress::Failed(error) => ProgressView::Failed(error@),
        }
    }
}

/// The progress of a pass that turns to the project at `index`: the pass
/// has succeeded when there is no such project, it fails at once on a
/// project of an unsupported kind, and else that project's reconciliation
/// begins.
pub open spec fn enter(projects: Seq<SourceProjectView>, index: int) -> ProgressView {
    if index < 0 || index >= projects.len() {
        ProgressView::Succeeded
    } else {
        match projects[index] {
            SourceProjectView::Github(_) => ProgressView::Running {
                index,
                current: ReconciliationView::FetchingRepository,
            },
            SourceProjectView::Other { kind } => ProgressView::Failed(
                SyncErrorView::UnsupportedProjectKind { index, kind },
            ),
        }
    }
}

impl ProgressView {
    /// A running pass is at a project that exists, is of the supported kind,
    /// and whose reconciliation has not ended.
    pub open spec fn well_formed(self, projects: Seq<SourceProjectView>) -> bool {
        self matches ProgressView::Running { index, current } ==> {
            &&& 0 <= index < projects.len()
            &&& projects[index] is Github
            &&& !current.is_finished()
        }
    }

    /// How the pass ended, if it has.
    pub open spec fn result(self) -> Option<Result<(), SyncErrorView>> {
        match self {
            ProgressView::Running { .. } => None,
            ProgressView::Succeeded => Some(Ok(())),
            ProgressView::Failed(error) => Some(Err(error)),
        }
    }

    /// The request whose answer the pass waits for. A pass that has ended
    /// waits for none.
    pub open spec fn pending(self, projects: Seq<SourceProjectView>) -> Option<RemoteRequestView> {
        match self {
            ProgressView::Running { index, current } => match projects[index] {
                SourceProjectView::Github(project) => current.pending(project),
                SourceProjectView::Other { .. } => None,
            },
            _ => None,
        }
    }

    /// The progress that follows when the pending request is answered by
    /// `response`: the reconciliation of the current project moves on; when
    /// it ends well the pass turns to the next project, and when it fails so
    /// does the pass. A pass that has ended stays as it is.
    pub open spec fn advance(
        self,
        projects: Seq<SourceProjectView>,
        response: RemoteResponseView,
    ) -> ProgressView {
        match self {
            ProgressView::Running { index, current } => match current.advance(response) {
                ReconciliationView::Done(_) => enter(projects, index + 1),
                ReconciliationView::Failed(error) => ProgressView::Failed(
                    SyncErrorView::ProjectFailed { index, error },
                ),
                next => ProgressView::Running { index, current: next },
            },
            _ => self,
        }
    }
}

/// Mathematical model of a [`SyncPass`].
pub struct SyncPassView {
    pub projects: Seq<SourceProjectView>,
    pub progress: ProgressView,
}

impl SyncPassView {
    /// The pass over `projects` before any request.
    pub open spec fn begin(projects: Seq<SourceProjectView>) -> SyncPassView {
        SyncPassView { projects, progress: enter(projects, 0) }
    }

    /// The request whose answer the pass waits for.
    pub open spec fn pending(self) -> Option<RemoteRequestView> {
        self.progress.pending(self.projects)
    }

    /// The pass after the pending request was answered by `response`.
    pub open spec fn advance(self, response: RemoteResponseView) -> SyncPassView {
        SyncPassView {
            projects: self.projects,
            progress: self.progress.advance(self.projects, response),
        }
    }

    /// How the pass ended, if it has.
    pub open spec fn result(self) -> Option<Result<(), SyncErrorView>> {
        self.progress.result()
    }

    /// See [`ProgressView::well_formed`].
    pub open spec fn well_formed(self) -> bool {
        self.progress.well_formed(self.projects)
    }
}

/// A well-formed pass waits for a request exactly as long as it has not
/// ended, and it stays well-formed whatever answer it takes.
pub proof fn lemma_pass_asks_until_it_ends(pass: SyncPassView, response: RemoteResponseView)
    requires
        pass.well_formed(),
    ensures
        pass.pending() is None <==> pass.result() is Some,
        pass.advance(response).well_formed(),
        pass.result() is Some ==> pass.advance(response) == pass,
{
}

/// A pass over the projects of a registry.
///
/// The caller performs the pending request, gives the answer to `advance`,
/// and goes on until no request is pending. `result` then says how the pass
/// ended.
pub struct SyncPass<'a> {
    projects: &'a SourceProjects,
    progress: Progress,
}

impl<'a> View for SyncPass<'a> {
    type V = SyncPassView;

    closed spec fn view(&self) -> SyncPassView {
        SyncPassView { projects: projects_view(self.projects@), progress: self.progress@ }
    }
}

/// Turns to the project at `index`.
fn enter_project(projects: &SourceProjects, index: usize) -> (progress: Progress)
    ensures
        progress@ == enter(projects_view(projects@), index as int),
        progress@.well_formed(projects_view(projects@)),
{
    if index >= projects.len() {
        Progress::Succeeded
    } else {
        match &projects[index] {
            SourceProject::Github(_) => Progress::Running {
                index,
                current: Reconciliation::begin(),
            },
            SourceProject::Other { kind } => Progress::Failed(
                SyncError::UnsupportedProjectKind { index, kind: kind.clone() },
            ),
        }
    }
}

impl<'a> SyncPass<'a> {
    #[verifier::type_invariant]
    spec fn holds_together(self) -> bool {
        self.progress@.well_formed(projects_view(self.projects@))
    }

    /// Starts a pass over `projects`. Nothing has been asked yet.
    ///
    /// When the first project is of an unsupported kind the pass has failed
    /// already, and when there is no project it has succeeded already: in
    /// both cases no request is pending.
    pub fn begin(projects: &'a SourceProjects) -> (pass: SyncPass<'a>)
        ensures
            pass@ == SyncPassView::begin(projects_view(projects@)),
            pass@.well_formed(),
    {
        SyncPass { projects, progress: enter_project(projects, 0) }
    }

    /// The request that the caller has to perform next, or `None` once the
    /// pass has ended.
    pub fn pending(&self) -> (request: Option<RemoteRequest>)
        ensures
            option_view(request) == self@.pending(),
            request is None <==> self@.result() is Some,
    {
        proof {
            use_type_invariant(self);
        }
        match &self.progress {
            Progress::Running { index, current } => match &self.projects[*index] {
                SourceProject::Github(project) => current.pending(project),
                SourceProject::Other { .. } => None,
            },
            _ => None,
        }
    }

    /// Takes the answer to the pending request and moves on.
    pub fn advance(self, response: RemoteResponse) -> (next: SyncPass<'a>)
        ensures
            next@ == self@.advance(response@),
            next@.well_formed(),
    {
        proof {
            use_type_invariant(&self);
        }
        let projects = self.projects;
        let progress = match self.progress {
            Progress::Running { index, current } => match current.advance(response) {
                Reconciliation::Done(_) => {
                    assert(index < projects.len());
                    enter_project(projects, index + 1)
                },
                Reconciliation::Failed(error) => Progress::Failed(
                    SyncError::ProjectFailed { index, error },
                ),
                next => Progress::Running { index, current: next },
            },
            ended => ended,
        };
        SyncPass { projects, progress }
    }

    /// How the pass ended: `None` while a request is pending, `Ok` when
    /// every project was reconciled, and else the error that stopped it.
    pub fn result(self) -> (result: Option<Result<(), SyncError>>)
        ensures
            match result {
                Some(ended) => self@.result() == Some(result_view(ended)),
                None => self@.result() is None,
            },
    {
        match self.progress {
            Progress::Running { .. } => None,
            Progress::Succeeded => Some(Ok(())),
            Progress::Failed(error) => Some(Err(error)),
        }
    }
}

} // verus!
