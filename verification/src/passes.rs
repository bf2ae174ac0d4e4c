//! What holds of whole passes: a pass is the reconciliations of its
//! projects, one after the other in registry order, up to the first project
//! that cannot be reconciled.

use crate::convergence::{lemma_run_ends, run, run_for};
use crate::reconcile::ReconciliationView;
use crate::registry::{GithubProjectView, SourceProjectView};
use crate::remote::{RemoteRequestView, RemoteResponseView};
use crate::sync::{enter, ProgressView, SyncErrorView, SyncPassView};
use vstd::prelude::*;

verus! {

/// A pass under way: where it stands, and the requests that were performed
/// for it, oldest first.
pub struct PassRunView {
    pub pass: SyncPassView,
    pub requests: Seq<RemoteRequestView>,
}

/// The pass `start` against `remote` after at most `steps` more requests.
pub open spec fn continue_for(
    start: PassRunView,
    remote: spec_fn(RemoteRequestView) -> RemoteResponseView,
    steps: nat,
) -> PassRunView
    decreases steps,
{
    if steps == 0 {
        start
    } else {
        let before = continue_for(start, remote, (steps - 1) as nat);
        match before.pass.pending() {
            Some(request) => PassRunView {
                pass: before.pass.advance(remote(request)),
                requests: before.requests.push(request),
            },
            None => before,
        }
    }
}

/// The pass over `projects` against `remote` after at most `steps`
/// requests.
pub open spec fn pass_for(
    projects: Seq<SourceProjectView>,
    remote: spec_fn(RemoteRequestView) -> RemoteResponseView,
    steps: nat,
) -> PassRunView {
    continue_for(
        PassRunView { pass: SyncPassView::begin(projects), requests: Seq::empty() },
        remote,
        steps,
    )
}

/// What the projects from `from` on come to when they are reconciled in
/// order against `remote`: the error of the first project that is of an
/// unsupported kind or whose reconciliation fails, and success when there
/// is no such project.
pub open spec fn result_from(
    projects: Seq<SourceProjectView>,
    remote: spec_fn(RemoteRequestView) -> RemoteResponseView,
    from: int,
) -> Result<(), SyncErrorView>
    decreases projects.len() - from,
{
    if from < 0 || from >= projects.len() {
        Ok(())
    } else {
        match projects[from] {
            SourceProjectView::Other { kind } => Err(
                SyncErrorView::UnsupportedProjectKind { index: from, kind },
            ),
            SourceProjectView::Github(project) => match run(project, remote).state {
                ReconciliationView::Failed(error) => Err(
                    SyncErrorView::ProjectFailed { index: from, error },
                ),
                _ => result_from(projects, remote, from + 1),
            },
        }
    }
}

/// The requests of the projects from `from` on when they are reconciled in
/// order against `remote`: those of each project's reconciliation, up to
/// and with the first reconciliation that fails, and none from a project of
/// an unsupported kind on.
pub open spec fn requests_from(
    projects: Seq<SourceProjectView>,
    remote: spec_fn(RemoteRequestView) -> RemoteResponseView,
    from: int,
) -> Seq<RemoteRequestView>
    decreases projects.len() - from,
{
    if from < 0 || from >= projects.len() {
        Seq::empty()
    } else {
        match projects[from] {
            SourceProjectView::Other { .. } => Seq::empty(),
            SourceProjectView::Github(project) => match run(project, remote).state {
                ReconciliationView::Failed(_) => run(project, remote).requests,
                _ => run(project, remote).requests + requests_from(projects, remote, from + 1),
            },
        }
    }
}

/// The progress of a pass that has ended with `result`.
pub open spec fn ended_with(result: Result<(), SyncErrorView>) -> ProgressView {
    match result {
        Ok(_) => ProgressView::Succeeded,
        Err(error) => ProgressView::Failed(error),
    }
}

/// The progress of a pass whose project at `index` is reconciled as far as
/// `state`.
pub open spec fn progress_at(
    projects: Seq<SourceProjectView>,
    index: int,
    state: ReconciliationView,
) -> ProgressView {
    match state {
        ReconciliationView::Done(_) => enter(projects, index + 1),
        ReconciliationView::Failed(error) => ProgressView::Failed(
            SyncErrorView::ProjectFailed { index, error },
        ),
        _ => ProgressView::Running { index, current: state },
    }
}

/// The pass that has performed `earlier` and then turns to the project at
/// `index`.
pub open spec fn turning_to(
    projects: Seq<SourceProjectView>,
    index: int,
    earlier: Seq<RemoteRequestView>,
) -> PassRunView {
    PassRunView {
        pass: SyncPassView { projects, progress: enter(projects, index) },
        requests: earlier,
    }
}

/// Steps add up: going on for `first` and then for `second` requests is
/// going on for both.
proof fn lemma_continue_adds(
    start: PassRunView,
    remote: spec_fn(RemoteRequestView) -> RemoteResponseView,
    first: nat,
    second: nat,
)
    ensures
        continue_for(start, remote, first + second) == continue_for(
            continue_for(start, remote, first),
            remote,
            second,
        ),
    decreases second,
{
    if second > 0 {
        lemma_continue_adds(start, remote, first, (second - 1) as nat);
        assert((first + second - 1) as nat == first + (second - 1) as nat);
    }
}

/// A pass that has ended stays as it is.
proof fn lemma_ended_pass_stays(
    start: PassRunView,
    remote: spec_fn(RemoteRequestView) -> RemoteResponseView,
    steps: nat,
)
    requires
        start.pass.result() is Some,
    ensures
        continue_for(start, remote, steps) == start,
    decreases steps,
{
    if steps > 0 {
        lemma_ended_pass_stays(start, remote, (steps - 1) as nat);
    }
}

/// While the reconciliation of the project at `index` has not ended, the
/// pass performs its requests, one for one.
proof fn lemma_pass_follows_run(
    projects: Seq<SourceProjectView>,
    remote: spec_fn(RemoteRequestView) -> RemoteResponseView,
    index: int,
    project: GithubProjectView,
    earlier: Seq<RemoteRequestView>,
    steps: nat,
)
    requires
        0 <= index < projects.len(),
        projects[index] == SourceProjectView::Github(project),
        steps > 0 ==> !run_for(project, remote, (steps - 1) as nat).state.is_finished(),
    ensures
        continue_for(turning_to(projects, index, earlier), remote, steps) == (PassRunView {
            pass: SyncPassView {
                projects,
                progress: progress_at(projects, index, run_for(project, remote, steps).state),
            },
            requests: earlier + run_for(project, remote, steps).requests,
        }),
    decreases steps,
{
    if steps == 0 {
        assert(earlier + run_for(project, remote, 0).requests =~= earlier);
    } else {
        let before = (steps - 1) as nat;
        lemma_pass_follows_run(projects, remote, index, project, earlier, before);
        let run_before = run_for(project, remote, before);
        let request = run_before.state.pending(project)->0;
        assert(earlier + run_before.requests.push(request) =~= (earlier
            + run_before.requests).push(request));
    }
}

/// The number of requests that the reconciliation of `project` performs.
pub open spec fn run_length(
    project: GithubProjectView,
    remote: spec_fn(RemoteRequestView) -> RemoteResponseView,
) -> nat {
    run(project, remote).requests.len()
}

/// The pass performs, for the project it turns to, the requests of that
/// project's reconciliation, and then stands where that reconciliation
/// leaves it.
proof fn lemma_pass_performs_run(
    projects: Seq<SourceProjectView>,
    remote: spec_fn(RemoteRequestView) -> RemoteResponseView,
    index: int,
    project: GithubProjectView,
    earlier: Seq<RemoteRequestView>,
)
    requires
        0 <= index < projects.len(),
        projects[index] == SourceProjectView::Github(project),
    ensures
        continue_for(
            turning_to(projects, index, earlier),
            remote,
            run_length(project, remote),
        ) == (PassRunView {
            pass: SyncPassView {
                projects,
                progress: progress_at(projects, index, run(project, remote).state),
            },
            requests: earlier + run(project, remote).requests,
        }),
{
    let length = run_length(project, remote);
    assert(1 <= length <= 4 && run_for(project, remote, length) == run(project, remote)
        && !run_for(project, remote, (length - 1) as nat).state.is_finished()) by {
        reveal_with_fuel(run_for, 5);
    }
    lemma_pass_follows_run(projects, remote, index, project, earlier, length);
}

/// The number of requests that the projects from `from` on take.
pub open spec fn length_from(
    projects: Seq<SourceProjectView>,
    remote: spec_fn(RemoteRequestView) -> RemoteResponseView,
    from: int,
) -> nat {
    requests_from(projects, remote, from).len()
}

/// From the project at `from` on, the pass is the reconciliations of the
/// projects in order.
proof fn lemma_pass_from(
    projects: Seq<SourceProjectView>,
    remote: spec_fn(RemoteRequestView) -> RemoteResponseView,
    from: int,
    earlier: Seq<RemoteRequestView>,
)
    requires
        0 <= from,
    ensures
        continue_for(
            turning_to(projects, from, earlier),
            remote,
            length_from(projects, remote, from),
        ) == (PassRunView {
            pass: SyncPassView {
                projects,
                progress: ended_with(result_from(projects, remote, from)),
            },
            requests: earlier + requests_from(projects, remote, from),
        }),
    decreases projects.len() - from,
{
    let start = turning_to(projects, from, earlier);
    if from >= projects.len() {
        assert(earlier + requests_from(projects, remote, from) =~= earlier);
    } else {
        match projects[from] {
            SourceProjectView::Other { .. } => {
                assert(earlier + requests_from(projects, remote, from) =~= earlier);
            },
            SourceProjectView::Github(project) => {
                let this = run(project, remote);
                lemma_run_ends(project, remote);
                lemma_pass_performs_run(projects, remote, from, project, earlier);
                if !(this.state is Failed) {
                    let done = earlier + this.requests;
                    let rest = length_from(projects, remote, from + 1);
                    lemma_pass_from(projects, remote, from + 1, done);
                    lemma_continue_adds(start, remote, this.requests.len(), rest);
                    assert(done + requests_from(projects, remote, from + 1) =~= earlier
                        + requests_from(projects, remote, from));
                }
            },
        }
    }
}

/// A pass is the reconciliations of its projects in registry order.
///
/// It performs the requests of each project's reconciliation in turn. It
/// stops with the error of the first project that is of an unsupported
/// kind or whose reconciliation fails, and asks nothing for the projects
/// behind that one. It succeeds exactly when every project is of the
/// supported kind and every reconciliation ends well. Once it has ended,
/// it stays as it is.
pub proof fn lemma_pass_is_runs_in_order(
    projects: Seq<SourceProjectView>,
    remote: spec_fn(RemoteRequestView) -> RemoteResponseView,
    steps: nat,
)
    requires
        steps >= length_from(projects, remote, 0),
    ensures
        pass_for(projects, remote, steps).pass.result() == Some(result_from(projects, remote, 0)),
        pass_for(projects, remote, steps).pass.pending() is None,
        pass_for(projects, remote, steps).requests == requests_from(projects, remote, 0),
{
    let start = turning_to(projects, 0, Seq::empty());
    let length = length_from(projects, remote, 0);
    lemma_pass_from(projects, remote, 0, Seq::empty());
    let ended = continue_for(start, remote, length);
    let extra = (steps - length) as nat;
    lemma_continue_adds(start, remote, length, extra);
    lemma_ended_pass_stays(ended, remote, extra);
    assert(length + extra == steps);
    if let Ok(unit) = result_from(projects, remote, 0) {
        assert(unit == ());
    }
}

/// A pass succeeds exactly when every project is of the supported kind and
/// the reconciliation of every project ends well.
pub proof fn lemma_success_means_all(
    projects: Seq<SourceProjectView>,
    remote: spec_fn(RemoteRequestView) -> RemoteResponseView,
    from: int,
)
    requires
        0 <= from,
    ensures
        result_from(projects, remote, from) is Ok <==> forall|i: int|
            from <= i < projects.len() ==> reconciles(#[trigger] projects[i], remote),
    decreases projects.len() - from,
{
    if from < projects.len() {
        lemma_success_means_all(projects, remote, from + 1);
        match projects[from] {
            SourceProjectView::Github(project) => {
                lemma_run_ends(project, remote);
            },
            _ => {},
        }
    }
}

/// The project is of the supported kind and its reconciliation against
/// `remote` ends well.
pub open spec fn reconciles(
    project: SourceProjectView,
    remote: spec_fn(RemoteRequestView) -> RemoteResponseView,
) -> bool {
    project matches SourceProjectView::Github(github) && run(github, remote).state is Done
}

/// A pass whose first project is of an unsupported kind has failed before
/// anything is asked, whatever projects follow.
pub proof fn lemma_unsupported_first_fails_at_once(projects: Seq<SourceProjectView>)
    requires
        projects.len() > 0,
        projects[0] is Other,
    ensures
        SyncPassView::begin(projects).result() == Some(
            Err::<(), SyncErrorView>(
                SyncErrorView::UnsupportedProjectKind { index: 0, kind: projects[0]->kind },
            ),
        ),
        SyncPassView::begin(projects).pending() is None,
{
}

} // verus!
