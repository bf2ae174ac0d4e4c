use hor_core::reconcile::{Outcome, ReconcileError, Reconciliation, Step};
use hor_core::registry::GithubProject;
use hor_core::remote::{
    ObjectKind, RefKind, RemoteFailure, RemoteRequest, RemoteResponse, ResolvedRef,
};

fn project() -> GithubProject {
    GithubProject {
        owner: "acme".to_string(),
        repo: "widgets".to_string(),
        env: "production".to_string(),
    }
}

fn reference(object_kind: ObjectKind, sha: &str) -> RemoteResponse {
    RemoteResponse::Reference(ResolvedRef { object_kind, sha: sha.to_string() })
}

fn repository(default_branch: Option<&str>) -> RemoteResponse {
    RemoteResponse::Repository { default_branch: default_branch.map(|name| name.to_string()) }
}

fn timeout() -> RemoteFailure {
    RemoteFailure::Transport { description: "timed out".to_string() }
}

fn failed(step: Step, failure: RemoteFailure) -> Reconciliation {
    Reconciliation::Failed(ReconcileError::RemoteError { step, failure })
}

fn resolving_tag() -> Reconciliation {
    Reconciliation::ResolvingTag { tracked_sha: "abc123".to_string() }
}

#[test]
fn a_reconciliation_begins_with_the_repository() {
    let start = Reconciliation::begin();
    assert_eq!(start, Reconciliation::FetchingRepository);
    assert!(!start.is_finished());
    assert_eq!(
        start.pending(&project()),
        Some(RemoteRequest::GetRepository {
            owner: "acme".to_string(),
            repo: "widgets".to_string()
        })
    );
    assert_eq!(start.result(), None);
}

#[test]
fn the_default_branch_is_resolved_next() {
    let state = Reconciliation::begin().advance(repository(Some("trunk")));
    assert_eq!(state, Reconciliation::ResolvingBranch { branch: "trunk".to_string() });
    assert_eq!(
        state.pending(&project()),
        Some(RemoteRequest::ResolveRef {
            owner: "acme".to_string(),
            repo: "widgets".to_string(),
            kind: RefKind::Branch,
            name: "trunk".to_string(),
        })
    );
}

#[test]
fn the_environment_tag_is_resolved_after_the_branch() {
    let state = Reconciliation::ResolvingBranch { branch: "trunk".to_string() }
        .advance(reference(ObjectKind::Commit, "abc123"));
    assert_eq!(state, resolving_tag());
    assert_eq!(
        state.pending(&project()),
        Some(RemoteRequest::ResolveRef {
            owner: "acme".to_string(),
            repo: "widgets".to_string(),
            kind: RefKind::Tag,
            name: "production".to_string(),
        })
    );
}

#[test]
fn a_branch_that_resolves_to_a_tag_object_is_tracked_by_its_sha() {
    let state = Reconciliation::ResolvingBranch { branch: "trunk".to_string() }
        .advance(reference(ObjectKind::Tag, "abc123"));
    assert_eq!(state, resolving_tag());
}

#[test]
fn a_branch_that_resolves_to_another_object_fails() {
    let state = Reconciliation::ResolvingBranch { branch: "trunk".to_string() }
        .advance(reference(ObjectKind::Other, "abc123"));
    assert_eq!(state, failed(Step::BranchResolution, RemoteFailure::UnexpectedPayload));
}

#[test]
fn an_absent_tag_leads_to_its_creation() {
    let state = resolving_tag().advance(RemoteResponse::Failure(RemoteFailure::Provider {
        message: "Not Found".to_string(),
    }));
    assert_eq!(state, Reconciliation::CreatingTag { tracked_sha: "abc123".to_string() });
    assert_eq!(
        state.pending(&project()),
        Some(RemoteRequest::CreateRef {
            owner: "acme".to_string(),
            repo: "widgets".to_string(),
            full_ref: "refs/tags/production".to_string(),
            sha: "abc123".to_string(),
            force: true,
        })
    );
}

#[test]
fn a_tag_elsewhere_leads_to_its_move() {
    let state = resolving_tag().advance(reference(ObjectKind::Tag, "def456"));
    assert_eq!(state, Reconciliation::UpdatingTag { tracked_sha: "abc123".to_string() });
    assert_eq!(
        state.pending(&project()),
        Some(RemoteRequest::UpdateRef {
            owner: "acme".to_string(),
            repo: "widgets".to_string(),
            full_ref: "refs/tags/production".to_string(),
            sha: "abc123".to_string(),
            force: true,
        })
    );
}

#[test]
fn a_tag_in_place_ends_the_reconciliation() {
    let state = resolving_tag().advance(reference(ObjectKind::Tag, "abc123"));
    assert_eq!(state, Reconciliation::Done(Outcome::Unchanged));
    assert!(state.is_finished());
    assert_eq!(state.pending(&project()), None);
    assert_eq!(state.result(), Some(Ok(Outcome::Unchanged)));
}

#[test]
fn a_lightweight_tag_is_an_unexpected_payload() {
    let state = resolving_tag().advance(reference(ObjectKind::Commit, "abc123"));
    assert_eq!(state, failed(Step::TagResolution, RemoteFailure::UnexpectedPayload));
}

#[test]
fn the_answer_to_a_write_is_the_outcome() {
    let created = Reconciliation::CreatingTag { tracked_sha: "abc123".to_string() }
        .advance(reference(ObjectKind::Commit, "abc123"));
    assert_eq!(
        created.result(),
        Some(Ok(Outcome::Created(ResolvedRef {
            object_kind: ObjectKind::Commit,
            sha: "abc123".to_string()
        })))
    );
    let updated = Reconciliation::UpdatingTag { tracked_sha: "abc123".to_string() }
        .advance(reference(ObjectKind::Tag, "abc123"));
    assert_eq!(
        updated.result(),
        Some(Ok(Outcome::Updated(ResolvedRef {
            object_kind: ObjectKind::Tag,
            sha: "abc123".to_string()
        })))
    );
}

#[test]
fn a_failure_carries_the_step_at_which_it_came() {
    assert_eq!(
        Reconciliation::begin().advance(RemoteResponse::Failure(timeout())),
        failed(Step::RepositoryFetch, timeout())
    );
    assert_eq!(
        Reconciliation::ResolvingBranch { branch: "trunk".to_string() }
            .advance(RemoteResponse::Failure(timeout())),
        failed(Step::BranchResolution, timeout())
    );
    assert_eq!(
        resolving_tag().advance(RemoteResponse::Failure(timeout())),
        failed(Step::TagResolution, timeout())
    );
    assert_eq!(
        Reconciliation::CreatingTag { tracked_sha: "abc123".to_string() }
            .advance(RemoteResponse::Failure(timeout())),
        failed(Step::Create, timeout())
    );
    assert_eq!(
        Reconciliation::UpdatingTag { tracked_sha: "abc123".to_string() }
            .advance(RemoteResponse::Failure(timeout())),
        failed(Step::Update, timeout())
    );
}

#[test]
fn not_found_is_absorbed_for_the_tag_only() {
    let not_found = RemoteFailure::Provider { message: "Not Found".to_string() };
    assert_eq!(
        Reconciliation::begin().advance(RemoteResponse::Failure(not_found.clone())),
        failed(Step::RepositoryFetch, not_found.clone())
    );
    assert_eq!(
        Reconciliation::ResolvingBranch { branch: "trunk".to_string() }
            .advance(RemoteResponse::Failure(not_found.clone())),
        failed(Step::BranchResolution, not_found.clone())
    );
    assert_eq!(
        Reconciliation::UpdatingTag { tracked_sha: "abc123".to_string() }
            .advance(RemoteResponse::Failure(not_found.clone())),
        failed(Step::Update, not_found)
    );
}

#[test]
fn an_answer_of_the_wrong_shape_is_an_unexpected_payload() {
    assert_eq!(
        Reconciliation::begin().advance(reference(ObjectKind::Commit, "abc123")),
        failed(Step::RepositoryFetch, RemoteFailure::UnexpectedPayload)
    );
    assert_eq!(
        Reconciliation::ResolvingBranch { branch: "trunk".to_string() }
            .advance(repository(Some("trunk"))),
        failed(Step::BranchResolution, RemoteFailure::UnexpectedPayload)
    );
    assert_eq!(
        resolving_tag().advance(repository(None)),
        failed(Step::TagResolution, RemoteFailure::UnexpectedPayload)
    );
    assert_eq!(
        Reconciliation::CreatingTag { tracked_sha: "abc123".to_string() }
            .advance(repository(None)),
        failed(Step::Create, RemoteFailure::UnexpectedPayload)
    );
    assert_eq!(
        Reconciliation::UpdatingTag { tracked_sha: "abc123".to_string() }
            .advance(repository(None)),
        failed(Step::Update, RemoteFailure::UnexpectedPayload)
    );
}

#[test]
fn a_missing_default_branch_fails_the_reconciliation() {
    let state = Reconciliation::begin().advance(repository(None));
    assert_eq!(state, Reconciliation::Failed(ReconcileError::NoDefaultBranch));
    assert!(state.is_finished());
    assert_eq!(state.pending(&project()), None);
    assert_eq!(state.result(), Some(Err(ReconcileError::NoDefaultBranch)));
}

#[test]
fn a_finished_reconciliation_stays_as_it_is() {
    let done = Reconciliation::Done(Outcome::Unchanged);
    assert_eq!(
        done.advance(reference(ObjectKind::Tag, "def456")),
        Reconciliation::Done(Outcome::Unchanged)
    );
    let failed = Reconciliation::Failed(ReconcileError::NoDefaultBranch);
    assert_eq!(
        failed.advance(repository(Some("trunk"))),
        Reconciliation::Failed(ReconcileError::NoDefaultBranch)
    );
}

#[test]
fn a_pending_reconciliation_has_no_result() {
    assert_eq!(resolving_tag().result(), None);
    assert!(!resolving_tag().is_finished());
    let creating = Reconciliation::CreatingTag { tracked_sha: "abc123".to_string() };
    assert!(!creating.is_finished());
    assert_eq!(creating.result(), None);
}

#[test]
fn errors_speak_in_words() {
    assert_eq!(
        ReconcileError::NoDefaultBranch.message(),
        "project does not have main branch defined".to_string()
    );
    let error = |step: Step, failure: RemoteFailure| ReconcileError::RemoteError { step, failure };
    assert_eq!(error(Step::Create, timeout()).message(), "Unable to create new ref".to_string());
    assert_eq!(
        error(Step::Update, timeout()).message(),
        "Unable to update existing ref".to_string()
    );
    assert_eq!(error(Step::RepositoryFetch, timeout()).message(), "timed out".to_string());
    assert_eq!(
        error(
            Step::TagResolution,
            RemoteFailure::Provider { message: "Bad credentials".to_string() }
        )
        .message(),
        "Bad credentials".to_string()
    );
    assert_eq!(
        error(Step::BranchResolution, RemoteFailure::UnexpectedPayload).message(),
        "Unexpected ref object type".to_string()
    );
    assert_eq!(
        error(Step::TagResolution, RemoteFailure::UnexpectedPayload).message(),
        "unexpected ref type".to_string()
    );
}
