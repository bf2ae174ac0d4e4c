//! What holds of whole reconciliations, whatever the remote answers.
//!
//! The remote is modelled as a function from requests to answers: within
//! one reconciliation every request gets the answer that the remote has for
//! it. A run performs the pending request, takes the answer, and goes on.

use crate::decision::{decide_spec, DecisionView, TagStateView};
use crate::reconcile::{
    remote_error, OutcomeView, ReconcileErrorView, ReconciliationView, Step,
};
use crate::registry::GithubProjectView;
use crate::remote::{
    tag_ref_path, ObjectKind, RefKind, RemoteFailureView, RemoteRequestView, RemoteResponseView,
    ResolvedRefView,
};
use vstd::prelude::*;

verus! {

/// A reconciliation under way: where it stands, and the requests that were
/// performed for it, oldest first.
pub struct RunView {
    pub state: ReconciliationView,
    pub requests: Seq<RemoteRequestView>,
}

/// The reconciliation of `project` against `remote` after at most `steps`
/// requests.
pub open spec fn run_for(
    project: GithubProjectView,
    remote: spec_fn(RemoteRequestView) -> RemoteResponseView,
    steps: nat,
) -> RunView
    decreases steps,
{
    if steps == 0 {
        RunView { state: ReconciliationView::FetchingRepository, requests: Seq::empty() }
    } else {
        let before = run_for(project, remote, (steps - 1) as nat);
        match before.state.pending(project) {
            Some(request) => RunView {
                state: before.state.advance(remote(request)),
                requests: before.requests.push(request),
            },
            None => before,
        }
    }
}

/// The whole reconciliation of `project` against `remote`.
pub open spec fn run(
    project: GithubProjectView,
    remote: spec_fn(RemoteRequestView) -> RemoteResponseView,
) -> RunView {
    run_for(project, remote, 4)
}

/// The request for the metadata of the repository of `project`.
pub open spec fn repository_request(project: GithubProjectView) -> RemoteRequestView {
    RemoteRequestView::GetRepository { owner: project.owner, repo: project.repo }
}

/// The request that resolves the branch `branch` of `project`.
pub open spec fn branch_request(project: GithubProjectView, branch: Seq<char>) -> RemoteRequestView {
    RemoteRequestView::ResolveRef {
        owner: project.owner,
        repo: project.repo,
        kind: RefKind::Branch,
        name: branch,
    }
}

/// The request that resolves the environment tag of `project`.
pub open spec fn tag_request(project: GithubProjectView) -> RemoteRequestView {
    RemoteRequestView::ResolveRef {
        owner: project.owner,
        repo: project.repo,
        kind: RefKind::Tag,
        name: project.env,
    }
}

/// The request that creates the environment tag of `project` at `sha`.
pub open spec fn create_request(project: GithubProjectView, sha: Seq<char>) -> RemoteRequestView {
    RemoteRequestView::CreateRef {
        owner: project.owner,
        repo: project.repo,
        full_ref: tag_ref_path(project.env),
        sha,
        force: true,
    }
}

/// The request that moves the environment tag of `project` to `sha`.
pub open spec fn update_request(project: GithubProjectView, sha: Seq<char>) -> RemoteRequestView {
    RemoteRequestView::UpdateRef {
        owner: project.owner,
        repo: project.repo,
        full_ref: tag_ref_path(project.env),
        sha,
        force: true,
    }
}

/// The answer that shows a tag object at `sha`.
pub open spec fn tag_at(sha: Seq<char>) -> RemoteResponseView {
    RemoteResponseView::Reference(ResolvedRefView { object_kind: ObjectKind::Tag, sha })
}

/// The state that waits for the resolution of the environment tag, with
/// the default branch at `tracked_sha`.
pub open spec fn resolving_tag(tracked_sha: Seq<char>) -> ReconciliationView {
    ReconciliationView::ResolvingTag { tracked_sha }
}

/// The state that waits for the creation of the tag at `tracked_sha`.
pub open spec fn creating_tag(tracked_sha: Seq<char>) -> ReconciliationView {
    ReconciliationView::CreatingTag { tracked_sha }
}

/// The state that waits for the move of the tag to `tracked_sha`.
pub open spec fn updating_tag(tracked_sha: Seq<char>) -> ReconciliationView {
    ReconciliationView::UpdatingTag { tracked_sha }
}

/// The state of a reconciliation that found the tag in place.
pub open spec fn unchanged() -> ReconciliationView {
    ReconciliationView::Done(OutcomeView::Unchanged)
}

impl RunView {
    /// No request of the run is a write.
    pub open spec fn writes_nothing(self) -> bool {
        forall|i: int| 0 <= i < self.requests.len() ==> !(#[trigger] self.requests[i]).is_write()
    }

    /// No request of the run but the last is a write.
    pub open spec fn writes_last_if_ever(self) -> bool {
        forall|i: int|
            0 <= i < self.requests.len() - 1 ==> !(#[trigger] self.requests[i]).is_write()
    }

    /// The run ended with the tag created or moved.
    pub open spec fn changed_the_tag(self) -> bool {
        self.state matches ReconciliationView::Done(outcome) && !(outcome is Unchanged)
    }
}

/// The default branch that the remote names for the repository of
/// `project`, if it answers with one.
pub open spec fn default_branch(
    project: GithubProjectView,
    remote: spec_fn(RemoteRequestView) -> RemoteResponseView,
) -> Option<Seq<char>> {
    match remote(repository_request(project)) {
        RemoteResponseView::Repository { default_branch } => default_branch,
        _ => None,
    }
}

/// The remote shows the default branch of `project` at `tracked_sha`: the
/// repository names a default branch, and that branch resolves to a commit
/// or a tag with this SHA.
pub open spec fn tracks(
    project: GithubProjectView,
    remote: spec_fn(RemoteRequestView) -> RemoteResponseView,
    tracked_sha: Seq<char>,
) -> bool {
    &&& default_branch(project, remote) matches Some(branch)
    &&& remote(branch_request(project, branch)) matches RemoteResponseView::Reference(resolved)
    &&& resolved.object_kind != ObjectKind::Other
    &&& resolved.sha == tracked_sha
}

/// The write `write` puts the tag that `resolution` asks for.
pub open spec fn writes_what_resolves(
    write: RemoteRequestView,
    resolution: RemoteRequestView,
) -> bool {
    &&& resolution matches RemoteRequestView::ResolveRef { owner, repo, kind: RefKind::Tag, name }
    &&& match write {
        RemoteRequestView::CreateRef { owner: to, repo: at, full_ref, .. } => to == owner && at
            == repo && full_ref == tag_ref_path(name),
        RemoteRequestView::UpdateRef { owner: to, repo: at, full_ref, .. } => to == owner && at
            == repo && full_ref == tag_ref_path(name),
        _ => false,
    }
}

/// The SHA that a write puts its reference at.
pub open spec fn written_sha(write: RemoteRequestView) -> Seq<char> {
    match write {
        RemoteRequestView::CreateRef { sha, .. } => sha,
        RemoteRequestView::UpdateRef { sha, .. } => sha,
        _ => Seq::empty(),
    }
}

/// The remote once `write` has taken effect and nobody else has changed
/// anything: the tag that was written resolves to a tag object at the
/// written SHA, and every other request is answered as before.
pub open spec fn remote_after(
    remote: spec_fn(RemoteRequestView) -> RemoteResponseView,
    write: RemoteRequestView,
) -> spec_fn(RemoteRequestView) -> RemoteResponseView {
    |request: RemoteRequestView|
        if writes_what_resolves(write, request) {
            tag_at(written_sha(write))
        } else {
            remote(request)
        }
}

/// Every reconciliation ends within four requests, and a reconciliation
/// that has ended asks for nothing more.
pub proof fn lemma_run_ends(
    project: GithubProjectView,
    remote: spec_fn(RemoteRequestView) -> RemoteResponseView,
)
    ensures
        run(project, remote).state.is_finished(),
        run(project, remote).state.pending(project) is None,
        1 <= run(project, remote).requests.len() <= 4,
        forall|steps: nat| steps >= 4 ==> run_for(project, remote, steps) == run(project, remote),
{
    reveal_with_fuel(run_for, 5);
    assert forall|steps: nat| steps >= 4 implies run_for(project, remote, steps) == run(
        project,
        remote,
    ) by {
        lemma_ended_run_stays(project, remote, 4, steps);
    }
}

/// Once a run has ended, more steps change nothing.
proof fn lemma_ended_run_stays(
    project: GithubProjectView,
    remote: spec_fn(RemoteRequestView) -> RemoteResponseView,
    ended: nat,
    steps: nat,
)
    requires
        run_for(project, remote, ended).state.is_finished(),
        ended <= steps,
    ensures
        run_for(project, remote, steps) == run_for(project, remote, ended),
    decreases steps,
{
    if steps > ended {
        lemma_ended_run_stays(project, remote, ended, (steps - 1) as nat);
    }
}

/// A reconciliation writes at most once, and only as its last request. The
/// write comes after the repository, the default branch and the tag have
/// been asked for, and it creates or moves the environment tag of the
/// project, forced, to the SHA that the default branch resolved to.
pub proof fn lemma_at_most_one_write(
    project: GithubProjectView,
    remote: spec_fn(RemoteRequestView) -> RemoteResponseView,
)
    ensures
        run(project, remote).writes_last_if_ever(),
        run(project, remote).requests.last().is_write() ==> {
            let requests = run(project, remote).requests;
            let sha = written_sha(requests[3]);
            &&& requests.len() == 4
            &&& requests[0] == repository_request(project)
            &&& requests[1] == branch_request(project, default_branch(project, remote)->0)
            &&& requests[2] == tag_request(project)
            &&& requests[3] == create_request(project, sha) || requests[3] == update_request(
                project,
                sha,
            )
            &&& tracks(project, remote, sha)
        },
{
    reveal_with_fuel(run_for, 5);
}

/// A reconciliation ends with the tag created or moved exactly when its
/// last request was a write that the remote answered with a reference. It
/// ends unchanged only without a write.
pub proof fn lemma_outcome_tells_of_write(
    project: GithubProjectView,
    remote: spec_fn(RemoteRequestView) -> RemoteResponseView,
)
    ensures
        run(project, remote).state == unchanged() ==> run(project, remote).writes_nothing(),
        run(project, remote).changed_the_tag() ==> run(project, remote).requests.last().is_write(),
        run(project, remote).state matches ReconciliationView::Done(outcome) ==> (outcome is Created
            <==> run(project, remote).requests.last() is CreateRef),
        run(project, remote).state matches ReconciliationView::Done(outcome) ==> (outcome is Updated
            <==> run(project, remote).requests.last() is UpdateRef),
{
    reveal_with_fuel(run_for, 5);
}

/// A repository without a default branch ends the reconciliation at once:
/// nothing is resolved and nothing is written.
pub proof fn lemma_no_default_branch_ends_the_run(
    project: GithubProjectView,
    remote: spec_fn(RemoteRequestView) -> RemoteResponseView,
)
    requires
        remote(repository_request(project)) is Repository,
        default_branch(project, remote) is None,
    ensures
        run(project, remote).state == ReconciliationView::Failed(
            ReconcileErrorView::NoDefaultBranch,
        ),
        run(project, remote).requests == seq![repository_request(project)],
{
    reveal_with_fuel(run_for, 5);
    assert(run(project, remote).requests =~= seq![repository_request(project)]);
}

/// The remote call that a state waits for.
pub open spec fn step_of(state: ReconciliationView) -> Step {
    match state {
        ReconciliationView::ResolvingBranch { .. } => Step::BranchResolution,
        ReconciliationView::ResolvingTag { .. } => Step::TagResolution,
        ReconciliationView::CreatingTag { .. } => Step::Create,
        ReconciliationView::UpdatingTag { .. } => Step::Update,
        _ => Step::RepositoryFetch,
    }
}

/// No failure is swallowed but one: whatever call fails, the reconciliation
/// ends with that failure and with the step of that call, unless it is the
/// provider's "Not Found" for the environment tag.
pub proof fn lemma_failures_end_the_reconciliation(
    state: ReconciliationView,
    failure: RemoteFailureView,
)
    requires
        !state.is_finished(),
        !(state is ResolvingTag && failure.is_not_found()),
    ensures
        state.advance(RemoteResponseView::Failure(failure)) == remote_error(
            step_of(state),
            failure,
        ),
{
}

/// When the environment tag already points at the SHA of the default
/// branch, the reconciliation ends unchanged and no request of it is a
/// write.
pub proof fn lemma_no_write_when_in_place(
    project: GithubProjectView,
    remote: spec_fn(RemoteRequestView) -> RemoteResponseView,
    tracked_sha: Seq<char>,
)
    requires
        tracks(project, remote, tracked_sha),
        remote(tag_request(project)) == tag_at(tracked_sha),
    ensures
        resolving_tag(tracked_sha).advance(tag_at(tracked_sha)) == unchanged(),
        unchanged().pending(project) is None,
        run(project, remote).state == unchanged(),
        run(project, remote).requests.len() == 3,
        run(project, remote).writes_nothing(),
{
    reveal_with_fuel(run_for, 5);
}

/// When the provider answers the resolution of the environment tag with
/// "Not Found", the reconciliation goes on as with an absent tag: it asks
/// for the creation of the tag at the SHA of the default branch, and the
/// failure is no error of the reconciliation.
pub proof fn lemma_not_found_creates(
    project: GithubProjectView,
    remote: spec_fn(RemoteRequestView) -> RemoteResponseView,
    tracked_sha: Seq<char>,
    failure: RemoteFailureView,
)
    requires
        tracks(project, remote, tracked_sha),
        remote(tag_request(project)) == RemoteResponseView::Failure(failure),
        failure.is_not_found(),
    ensures
        resolving_tag(tracked_sha).advance(RemoteResponseView::Failure(failure)) == creating_tag(
            tracked_sha,
        ),
        run(project, remote).requests.len() == 4,
        run(project, remote).requests[3] == create_request(project, tracked_sha),
        run(project, remote).state == creating_tag(tracked_sha).advance(
            remote(create_request(project, tracked_sha)),
        ),
{
    reveal_with_fuel(run_for, 5);
}

/// Any other failure of the resolution of the environment tag ends the
/// reconciliation with that failure, at that step. Nothing is decided and
/// nothing is written.
pub proof fn lemma_other_failures_end_the_run(
    project: GithubProjectView,
    remote: spec_fn(RemoteRequestView) -> RemoteResponseView,
    tracked_sha: Seq<char>,
    failure: RemoteFailureView,
)
    requires
        tracks(project, remote, tracked_sha),
        remote(tag_request(project)) == RemoteResponseView::Failure(failure),
        !failure.is_not_found(),
    ensures
        resolving_tag(tracked_sha).advance(RemoteResponseView::Failure(failure)) == remote_error(
            Step::TagResolution,
            failure,
        ),
        run(project, remote).state == remote_error(Step::TagResolution, failure),
        run(project, remote).requests.len() == 3,
        run(project, remote).writes_nothing(),
{
    reveal_with_fuel(run_for, 5);
}

/// Reconciling twice in a row converges: when the first reconciliation
/// created or moved the tag, and the remote then shows the written tag as
/// a tag object at the written SHA with nothing else changed, the second
/// reconciliation ends unchanged and writes nothing.
pub proof fn lemma_second_run_changes_nothing(
    project: GithubProjectView,
    remote: spec_fn(RemoteRequestView) -> RemoteResponseView,
)
    requires
        run(project, remote).changed_the_tag(),
    ensures
        run(project, remote).requests.last().is_write(),
        run(project, remote_after(remote, run(project, remote).requests.last())).state
            == unchanged(),
        run(
            project,
            remote_after(remote, run(project, remote).requests.last()),
        ).writes_nothing(),
{
    reveal_with_fuel(run_for, 5);
}

/// A reconciliation that ended unchanged ends unchanged again as long as
/// the remote answers every reading request as before.
pub proof fn lemma_unchanged_stays_unchanged(
    project: GithubProjectView,
    remote: spec_fn(RemoteRequestView) -> RemoteResponseView,
    later: spec_fn(RemoteRequestView) -> RemoteResponseView,
)
    requires
        run(project, remote).state == unchanged(),
        forall|request: RemoteRequestView|
            !request.is_write() ==> #[trigger] later(request) == remote(request),
    ensures
        run(project, later) == run(project, remote),
{
    reveal_with_fuel(run_for, 5);
}

/// The three cases of the decision do not overlap: the tag is created
/// exactly when it is absent, left alone exactly when it points at the
/// tracked SHA, and moved exactly when it points elsewhere.
pub proof fn lemma_decision_cases(tracked_sha: Seq<char>, tag: TagStateView)
    ensures
        tag is Absent <==> decide_spec(tracked_sha, tag) == DecisionView::CreateTag(tracked_sha),
        tag == TagStateView::Present(tracked_sha) <==> decide_spec(tracked_sha, tag)
            == DecisionView::NoOp,
        (tag is Present && tag != TagStateView::Present(tracked_sha)) <==> decide_spec(
            tracked_sha,
            tag,
        ) == DecisionView::UpdateTag(tracked_sha),
{
}

} // verus!
