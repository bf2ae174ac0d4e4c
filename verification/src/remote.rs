//! The boundary with the hosting provider: the requests that the crate hands
//! out and the answers that it takes back, as plain values.

use crate::views::option_view;
use vstd::prelude::*;
use vstd::string::*;

verus! {

/// The kind of a named reference.
#[derive(Clone, Copy, Debug, PartialEq, Eq, Structural)]
pub enum RefKind {
    Branch,
    Tag,
}

/// The kind of object that a reference points to.
#[derive(Clone, Copy, Debug, PartialEq, Eq, Structural)]
pub enum ObjectKind {
    Commit,
    /// An annotated tag.
    Tag,
    /// Anything else that the provider may report, such as a tree or a blob.
    Other,
}

/// A reference resolved by the provider.
#[derive(Debug, PartialEq, Eq)]
pub struct ResolvedRef {
    pub object_kind: ObjectKind,
    pub sha: String,
}

/// Mathematical model of a [`ResolvedRef`].
pub struct ResolvedRefView {
    pub object_kind: ObjectKind,
    pub sha: Seq<char>,
}

impl View for ResolvedRef {
    type V = ResolvedRefView;

    open spec fn view(&self) -> ResolvedRefView {
        ResolvedRefView { object_kind: self.object_kind, sha: self.sha@ }
    }
}

impl Clone for ResolvedRef {
    fn clone(&self) -> (copy: ResolvedRef)
        ensures
            copy == *self,
    {
        ResolvedRef { object_kind: self.object_kind, sha: self.sha.clone() }
    }
}

/// Why a request brought no usable answer.
#[derive(Debug, PartialEq, Eq)]
pub enum RemoteFailure {
    /// The provider answered with an error payload that carries this message.
    Provider { message: String },
    /// The request failed in any other way: the network, a timeout, an
    /// answer that could not be decoded.
    Transport { description: String },
    /// The answer arrived, but not in a shape that the pending step can use.
    UnexpectedPayload,
}

/// Mathematical model of a [`RemoteFailure`].
pub enum RemoteFailureView {
    Provider { message: Seq<char> },
    Transport { description: Seq<char> },
    UnexpectedPayload,
}

impl View for RemoteFailure {
    type V = RemoteFailureView;

    open spec fn view(&self) -> RemoteFailureView {
        match self {
            RemoteFailure::Provider { message } => RemoteFailureView::Provider {
                message: message@,
            },
            RemoteFailure::Transport { description } => RemoteFailureView::Transport {
                description: description@,
            },
            RemoteFailure::UnexpectedPayload => RemoteFailureView::UnexpectedPayload,
        }
    }
}

impl Clone for RemoteFailure {
    fn clone(&self) -> (copy: RemoteFailure)
        ensures
            copy == *self,
    {
        match self {
            RemoteFailure::Provider { message } => RemoteFailure::Provider {
                message: message.clone(),
            },
            RemoteFailure::Transport { description } => RemoteFailure::Transport {
                description: description.clone(),
            },
            RemoteFailure::UnexpectedPayload => RemoteFailure::UnexpectedPayload,
        }
    }
}

/// The message with which the provider says that a thing does not exist.
pub open spec fn not_found_message() -> Seq<char> {
    "Not Found"@
}

impl RemoteFailureView {
    /// The provider itself said that the thing asked for does not exist.
    pub open spec fn is_not_found(self) -> bool {
        self matches RemoteFailureView::Provider { message } && message == not_found_message()
    }
}

impl RemoteFailure {
    /// Tells whether the provider said that the thing asked for does not
    /// exist. Only an error payload of the provider counts, and only with
    /// exactly that message.
    pub fn is_not_found(&self) -> (found_nothing: bool)
        ensures
            found_nothing == self@.is_not_found(),
    {
        match self {
            RemoteFailure::Provider { message } => {
                let expected = String::from_str("Not Found");
                *message == expected
            },
            _ => false,
        }
    }
}

/// A request to the provider.
#[derive(Debug, PartialEq, Eq)]
pub enum RemoteRequest {
    /// Fetch the metadata of a repository.
    GetRepository { owner: String, repo: String },
    /// Resolve a branch or a tag, given by its short name.
    ResolveRef { owner: String, repo: String, kind: RefKind, name: String },
    /// Create the reference `full_ref` at `sha`.
    CreateRef { owner: String, repo: String, full_ref: String, sha: String, force: bool },
    /// Move the reference `full_ref` to `sha`.
    UpdateRef { owner: String, repo: String, full_ref: String, sha: String, force: bool },
}

/// Mathematical model of a [`RemoteRequest`].
pub enum RemoteRequestView {
    GetRepository { owner: Seq<char>, repo: Seq<char> },
    ResolveRef { owner: Seq<char>, repo: Seq<char>, kind: RefKind, name: Seq<char> },
    CreateRef {
        owner: Seq<char>,
        repo: Seq<char>,
        full_ref: Seq<char>,
        sha: Seq<char>,
        force: bool,
    },
    UpdateRef {
        owner: Seq<char>,
        repo: Seq<char>,
        full_ref: Seq<char>,
        sha: Seq<char>,
        force: bool,
    },
}

impl View for RemoteRequest {
    type V = RemoteRequestView;

    open spec fn view(&self) -> RemoteRequestView {
        match self {
            RemoteRequest::GetRepository { owner, repo } => RemoteRequestView::GetRepository {
                owner: owner@,
                repo: repo@,
            },
            RemoteRequest::ResolveRef { owner, repo, kind, name } => RemoteRequestView::ResolveRef {
                owner: owner@,
                repo: repo@,
                kind: *kind,
                name: name@,
            },
            RemoteRequest::CreateRef {
                owner,
                repo,
                full_ref,
                sha,
                force,
            } => RemoteRequestView::CreateRef {
                owner: owner@,
                repo: repo@,
                full_ref: full_ref@,
                sha: sha@,
                force: *force,
            },
            RemoteRequest::UpdateRef {
                owner,
                repo,
                full_ref,
                sha,
                force,
            } => RemoteRequestView::UpdateRef {
                owner: owner@,
                repo: repo@,
                full_ref: full_ref@,
                sha: sha@,
                force: *force,
            },
        }
    }
}

impl RemoteRequestView {
    /// The request changes what the remote holds.
    pub open spec fn is_write(self) -> bool {
        self is CreateRef || self is UpdateRef
    }
}

impl RemoteRequest {
    /// Tells whether the request changes what the remote holds.
    pub fn is_write(&self) -> (write: bool)
        ensures
            write == self@.is_write(),
    {
        match self {
            RemoteRequest::CreateRef { .. } => true,
            RemoteRequest::UpdateRef { .. } => true,
            _ => false,
        }
    }
}

/// The answer of the provider to one request.
#[derive(Debug, PartialEq, Eq)]
pub enum RemoteResponse {
    /// The metadata of a repository, as far as the crate reads it.
    Repository { default_branch: Option<String> },
    /// A reference: the one resolved, created or moved.
    Reference(ResolvedRef),
    /// The request failed.
    Failure(RemoteFailure),
}

/// Mathematical model of a [`RemoteResponse`].
pub enum RemoteResponseView {
    Repository { default_branch: Option<Seq<char>> },
    Reference(ResolvedRefView),
    Failure(RemoteFailureView),
}

impl View for RemoteResponse {
    type V = RemoteResponseView;

    open spec fn view(&self) -> RemoteResponseView {
        match self {
            RemoteResponse::Repository { default_branch } => RemoteResponseView::Repository {
                default_branch: option_view(*default_branch),
            },
            RemoteResponse::Reference(resolved) => RemoteResponseView::Reference(resolved@),
            RemoteResponse::Failure(failure) => RemoteResponseView::Failure(failure@),
        }
    }
}

/// The full path of the tag that stands for an environment.
pub open spec fn tag_ref_path(env: Seq<char>) -> Seq<char> {
    "refs/tags/"@ + env
}

/// The full path of the tag that stands for the environment `env`:
/// `refs/tags/` followed by the environment's name.
pub fn full_ref(env: &str) -> (path: String)
    ensures
        path@ == tag_ref_path(env@),
{
    String::from_str("refs/tags/").concat(env)
}

/// The route to which a new reference of a repository is posted.
pub open spec fn create_ref_route_spec(owner: Seq<char>, repo: Seq<char>) -> Seq<char> {
    "/repos/"@ + owner + "/"@ + repo + "/git/refs"@
}

/// The route under which one reference of a repository is patched.
pub open spec fn update_ref_route_spec(
    owner: Seq<char>,
    repo: Seq<char>,
    reference: Seq<char>,
) -> Seq<char> {
    "/repos/"@ + owner + "/"@ + repo + "/git/refs/"@ + reference
}

/// The route to which a new reference of `owner`'s repository `repo` is
/// posted: `/repos/<owner>/<repo>/git/refs`.
pub fn create_ref_route(owner: &str, repo: &str) -> (route: String)
    ensures
        route@ == create_ref_route_spec(owner@, repo@),
{
    String::from_str("/repos/").concat(owner).concat("/").concat(repo).concat("/git/refs")
}

/// The route under which the reference `reference` of `owner`'s repository
/// `repo` is patched: `/repos/<owner>/<repo>/git/refs/<reference>`.
pub fn update_ref_route(owner: &str, repo: &str, reference: &str) -> (route: String)
    ensures
        route@ == update_ref_route_spec(owner@, repo@, reference@),
{
    String::from_str("/repos/").concat(owner).concat("/").concat(repo).concat(
        "/git/refs/",
    ).concat(reference)
}

} // verus!
