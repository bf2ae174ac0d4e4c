//! Whole reconciliations and passes against a remote that lives in memory
//! and counts what it is asked.

use hor_core::reconcile::{Outcome, ReconcileError, Reconciliation, Step};
use hor_core::registry::{GithubProject, SourceProject};
use hor_core::remote::{
    ObjectKind, RefKind, RemoteFailure, RemoteRequest, RemoteResponse, ResolvedRef,
};
use hor_core::sync::{SyncError, SyncPass};

/// A remote with one repository and at most one tag.
struct FakeRemote {
    default_branch: Option<String>,
    branch_sha: String,
    tag: Result<Option<String>, RemoteFailure>,
    calls: Vec<RemoteRequest>,
}

impl FakeRemote {
    fn new(default_branch: Option<&str>, branch_sha: &str, tag: Option<&str>) -> FakeRemote {
        FakeRemote {
            default_branch: default_branch.map(|name| name.to_string()),
            branch_sha: branch_sha.to_string(),
            tag: Ok(tag.map(|sha| sha.to_string())),
            calls: Vec::new(),
        }
    }

    fn not_found() -> RemoteResponse {
        RemoteResponse::Failure(RemoteFailure::Provider { message: "Not Found".to_string() })
    }

    fn perform(&mut self, request: RemoteRequest) -> RemoteResponse {
        let response = match &request {
            RemoteRequest::GetRepository { .. } => {
                RemoteResponse::Repository { default_branch: self.default_branch.clone() }
            }
            RemoteRequest::ResolveRef { kind: RefKind::Branch, name, .. } => {
                if Some(name) == self.default_branch.as_ref() {
                    RemoteResponse::Reference(ResolvedRef {
                        object_kind: ObjectKind::Commit,
                        sha: self.branch_sha.clone(),
                    })
                } else {
                    FakeRemote::not_found()
                }
            }
            RemoteRequest::ResolveRef { kind: RefKind::Tag, .. } => match &self.tag {
                Ok(Some(sha)) => RemoteResponse::Reference(ResolvedRef {
                    object_kind: ObjectKind::Tag,
                    sha: sha.clone(),
                }),
                Ok(None) => FakeRemote::not_found(),
                Err(failure) => RemoteResponse::Failure(failure.clone()),
            },
            RemoteRequest::CreateRef { sha, .. } | RemoteRequest::UpdateRef { sha, .. } => {
                self.tag = Ok(Some(sha.clone()));
                RemoteResponse::Reference(ResolvedRef {
                    object_kind: ObjectKind::Tag,
                    sha: sha.clone(),
                })
            }
        };
        self.calls.push(request);
        response
    }

    fn writes(&self) -> Vec<&RemoteRequest> {
        self.calls.iter().filter(|call| call.is_write()).collect()
    }

    fn resolutions(&self) -> usize {
        self.calls
            .iter()
            .filter(|call| matches!(call, RemoteRequest::ResolveRef { .. }))
            .count()
    }
}

fn deployment() -> GithubProject {
    GithubProject {
        owner: "acme".to_string(),
        repo: "widgets".to_string(),
        env: "deployment".to_string(),
    }
}

fn reconcile(project: &GithubProject, remote: &mut FakeRemote) -> Result<Outcome, ReconcileError> {
    let mut state = Reconciliation::begin();
    while let Some(request) = state.pending(project) {
        state = state.advance(remote.perform(request));
    }
    state.result().unwrap()
}

fn sync(projects: &Vec<SourceProject>, remote: &mut FakeRemote) -> Result<(), SyncError> {
    let mut pass = SyncPass::begin(projects);
    while let Some(request) = pass.pending() {
        pass = pass.advance(remote.perform(request));
    }
    pass.result().unwrap()
}

#[test]
fn absent_tag_is_created_once() {
    let mut remote = FakeRemote::new(Some("main"), "abc123", None);
    let outcome = reconcile(&deployment(), &mut remote);
    assert_eq!(
        outcome,
        Ok(Outcome::Created(ResolvedRef {
            object_kind: ObjectKind::Tag,
            sha: "abc123".to_string()
        }))
    );
    assert_eq!(
        remote.writes(),
        vec![&RemoteRequest::CreateRef {
            owner: "acme".to_string(),
            repo: "widgets".to_string(),
            full_ref: "refs/tags/deployment".to_string(),
            sha: "abc123".to_string(),
            force: true,
        }]
    );
    assert_eq!(remote.calls.len(), 4);
}

#[test]
fn tag_elsewhere_is_updated_once() {
    let mut remote = FakeRemote::new(Some("main"), "abc123", Some("def456"));
    let outcome = reconcile(&deployment(), &mut remote);
    assert_eq!(
        outcome,
        Ok(Outcome::Updated(ResolvedRef {
            object_kind: ObjectKind::Tag,
            sha: "abc123".to_string()
        }))
    );
    assert_eq!(
        remote.writes(),
        vec![&RemoteRequest::UpdateRef {
            owner: "acme".to_string(),
            repo: "widgets".to_string(),
            full_ref: "refs/tags/deployment".to_string(),
            sha: "abc123".to_string(),
            force: true,
        }]
    );
}

#[test]
fn tag_in_place_writes_nothing() {
    let mut remote = FakeRemote::new(Some("main"), "abc123", Some("abc123"));
    let outcome = reconcile(&deployment(), &mut remote);
    assert_eq!(outcome, Ok(Outcome::Unchanged));
    assert_eq!(remote.writes().len(), 0);
    assert_eq!(remote.calls.len(), 3);
}

#[test]
fn no_default_branch_stops_before_any_resolution() {
    let mut remote = FakeRemote::new(None, "abc123", Some("def456"));
    let outcome = reconcile(&deployment(), &mut remote);
    assert_eq!(outcome, Err(ReconcileError::NoDefaultBranch));
    assert_eq!(remote.resolutions(), 0);
    assert_eq!(remote.writes().len(), 0);
    assert_eq!(
        remote.calls,
        vec![RemoteRequest::GetRepository {
            owner: "acme".to_string(),
            repo: "widgets".to_string()
        }]
    );
}

#[test]
fn server_error_on_tag_resolution_fails_without_write() {
    let mut remote = FakeRemote::new(Some("main"), "abc123", None);
    let failure = RemoteFailure::Provider { message: "Internal Server Error".to_string() };
    remote.tag = Err(failure.clone());
    let outcome = reconcile(&deployment(), &mut remote);
    assert_eq!(
        outcome,
        Err(ReconcileError::RemoteError { step: Step::TagResolution, failure })
    );
    assert_eq!(remote.writes().len(), 0);
}

#[test]
fn authorization_failure_on_tag_resolution_is_not_absorbed() {
    let mut remote = FakeRemote::new(Some("main"), "abc123", None);
    let failure = RemoteFailure::Provider { message: "Bad credentials".to_string() };
    remote.tag = Err(failure.clone());
    let outcome = reconcile(&deployment(), &mut remote);
    assert_eq!(
        outcome,
        Err(ReconcileError::RemoteError { step: Step::TagResolution, failure })
    );
    assert_eq!(remote.writes().len(), 0);
    assert_eq!(remote.calls.len(), 3);
}

#[test]
fn timeout_on_tag_resolution_is_not_absorbed() {
    let mut remote = FakeRemote::new(Some("main"), "abc123", None);
    let failure = RemoteFailure::Transport { description: "Not Found".to_string() };
    remote.tag = Err(failure.clone());
    let outcome = reconcile(&deployment(), &mut remote);
    assert_eq!(
        outcome,
        Err(ReconcileError::RemoteError { step: Step::TagResolution, failure })
    );
    assert_eq!(remote.writes().len(), 0);
}

#[test]
fn unsupported_project_first_fails_before_any_call() {
    let projects = vec![
        SourceProject::Other { kind: "gitlab".to_string() },
        SourceProject::Github(deployment()),
    ];
    let mut remote = FakeRemote::new(Some("main"), "abc123", None);
    let outcome = sync(&projects, &mut remote);
    assert_eq!(
        outcome,
        Err(SyncError::UnsupportedProjectKind { index: 0, kind: "gitlab".to_string() })
    );
    assert_eq!(remote.calls.len(), 0);
}

#[test]
fn unsupported_project_second_fails_after_the_first_was_reconciled() {
    let projects = vec![
        SourceProject::Github(deployment()),
        SourceProject::Other { kind: "gitlab".to_string() },
    ];
    let mut remote = FakeRemote::new(Some("main"), "abc123", None);
    let outcome = sync(&projects, &mut remote);
    assert_eq!(
        outcome,
        Err(SyncError::UnsupportedProjectKind { index: 1, kind: "gitlab".to_string() })
    );
    assert_eq!(remote.writes().len(), 1);
    assert_eq!(remote.calls.len(), 4);
}

#[test]
fn second_reconciliation_changes_nothing_after_create() {
    let mut remote = FakeRemote::new(Some("main"), "abc123", None);
    let first = reconcile(&deployment(), &mut remote);
    assert!(matches!(first, Ok(Outcome::Created(_))));
    let second = reconcile(&deployment(), &mut remote);
    assert_eq!(second, Ok(Outcome::Unchanged));
    assert_eq!(remote.writes().len(), 1);
    assert_eq!(remote.calls.len(), 7);
}

#[test]
fn second_reconciliation_changes_nothing_after_update() {
    let mut remote = FakeRemote::new(Some("main"), "abc123", Some("def456"));
    let first = reconcile(&deployment(), &mut remote);
    assert!(matches!(first, Ok(Outcome::Updated(_))));
    let second = reconcile(&deployment(), &mut remote);
    assert_eq!(second, Ok(Outcome::Unchanged));
    assert_eq!(remote.writes().len(), 1);
}

#[test]
fn pass_over_no_projects_succeeds_without_a_call() {
    let projects: Vec<SourceProject> = Vec::new();
    let mut remote = FakeRemote::new(Some("main"), "abc123", None);
    assert_eq!(sync(&projects, &mut remote), Ok(()));
    assert_eq!(remote.calls.len(), 0);
}

#[test]
fn pass_reconciles_every_project_in_order() {
    let production = GithubProject {
        owner: "acme".to_string(),
        repo: "widgets".to_string(),
        env: "production".to_string(),
    };
    let projects = vec![
        SourceProject::Github(deployment()),
        SourceProject::Github(production),
    ];
    let mut remote = FakeRemote::new(Some("main"), "abc123", None);
    assert_eq!(sync(&projects, &mut remote), Ok(()));
    // The first project creates the tag; the second finds the fake's one tag in place.
    assert_eq!(remote.calls.len(), 7);
    assert_eq!(
        remote.calls[2],
        RemoteRequest::ResolveRef {
            owner: "acme".to_string(),
            repo: "widgets".to_string(),
            kind: RefKind::Tag,
            name: "deployment".to_string(),
        }
    );
    assert_eq!(
        remote.calls[6],
        RemoteRequest::ResolveRef {
            owner: "acme".to_string(),
            repo: "widgets".to_string(),
            kind: RefKind::Tag,
            name: "production".to_string(),
        }
    );
}

#[test]
fn pass_stops_at_the_first_failing_project() {
    let projects = vec![
        SourceProject::Github(deployment()),
        SourceProject::Github(deployment()),
    ];
    let mut remote = FakeRemote::new(None, "abc123", None);
    let outcome = sync(&projects, &mut remote);
    assert_eq!(
        outcome,
        Err(SyncError::ProjectFailed { index: 0, error: ReconcileError::NoDefaultBranch })
    );
    assert_eq!(remote.calls.len(), 1);
}
