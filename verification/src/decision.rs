//! The three-way decision on an environment tag.

use crate::remote::{
    ObjectKind, RemoteFailure, RemoteFailureView, RemoteResponse, RemoteResponseView, ResolvedRef,
    ResolvedRefView,
};
use crate::views::result_view;
use vstd::prelude::*;

verus! {

/// What is known of the environment tag after one resolution.
#[derive(Debug, PartialEq, Eq)]
pub enum TagState {
    /// The remote holds no such tag.
    Absent,
    /// The tag exists and points at this SHA.
    Present(String),
}

/// Mathematical model of a [`TagState`].
pub enum TagStateView {
    Absent,
    Present(Seq<char>),
}

impl View for TagState {
    type V = TagStateView;

    open spec fn view(&self) -> TagStateView {
        match self {
            TagState::Absent => TagStateView::Absent,
            TagState::Present(sha) => TagStateView::Present(sha@),
        }
    }
}

/// What has to happen to the environment tag.
#[derive(Debug, PartialEq, Eq)]
pub enum Decision {
    /// The tag already points at the tracked SHA.
    NoOp,
    /// The tag is missing and has to be created at this SHA.
    CreateTag(String),
    /// The tag points elsewhere and has to be moved to this SHA.
    UpdateTag(String),
}

/// Mathematical model of a [`Decision`].
pub enum DecisionView {
    NoOp,
    CreateTag(Seq<char>),
    UpdateTag(Seq<char>),
}

impl View for Decision {
    type V = DecisionView;

    open spec fn view(&self) -> DecisionView {
        match self {
            Decision::NoOp => DecisionView::NoOp,
            Decision::CreateTag(sha) => DecisionView::CreateTag(sha@),
            Decision::UpdateTag(sha) => DecisionView::UpdateTag(sha@),
        }
    }
}

/// The decision that follows from the tracked SHA and the state of the tag.
pub open spec fn decide_spec(tracked_sha: Seq<char>, tag: TagStateView) -> DecisionView {
    match tag {
        TagStateView::Absent => DecisionView::CreateTag(tracked_sha),
        TagStateView::Present(tag_sha) => if tag_sha == tracked_sha {
            DecisionView::NoOp
        } else {
            DecisionView::UpdateTag(tracked_sha)
        },
    }
}

/// Compares the tracked SHA with the tag and says what has to be done: a
/// missing tag is created at the tracked SHA, a tag that points there is
/// left alone, and a tag that points elsewhere is moved there.
pub fn decide(tracked_sha: String, tag: TagState) -> (decision: Decision)
    ensures
        decision@ == decide_spec(tracked_sha@, tag@),
        tag@ is Absent ==> decision@ == DecisionView::CreateTag(tracked_sha@),
        tag@ == TagStateView::Present(tracked_sha@) ==> decision@ == DecisionView::NoOp,
        tag@ matches TagStateView::Present(tag_sha) && tag_sha != tracked_sha@ ==> decision@
            == DecisionView::UpdateTag(tracked_sha@),
{
    match tag {
        TagState::Absent => Decision::CreateTag(tracked_sha),
        TagState::Present(tag_sha) => if tag_sha == tracked_sha {
            Decision::NoOp
        } else {
            Decision::UpdateTag(tracked_sha)
        },
    }
}

/// The SHA that a resolved branch stands for, or the failure that takes its
/// place when the reference points at neither a commit nor a tag.
pub open spec fn sha_for_ref_spec(git_ref: ResolvedRefView) -> Result<Seq<char>, RemoteFailureView> {
    match git_ref.object_kind {
        ObjectKind::Commit => Ok(git_ref.sha),
        ObjectKind::Tag => Ok(git_ref.sha),
        ObjectKind::Other => Err(RemoteFailureView::UnexpectedPayload),
    }
}

/// Takes the SHA out of a resolved reference that points at a commit or at
/// a tag. Any other object is refused as an unexpected payload.
pub fn sha_for_ref(git_ref: ResolvedRef) -> (sha: Result<String, RemoteFailure>)
    ensures
        result_view(sha) == sha_for_ref_spec(git_ref@),
{
    match git_ref.object_kind {
        ObjectKind::Commit => Ok(git_ref.sha),
        ObjectKind::Tag => Ok(git_ref.sha),
        ObjectKind::Other => Err(RemoteFailure::UnexpectedPayload),
    }
}

/// What the answer to the resolution of the environment tag says of the tag.
///
/// A tag object gives the SHA it carries, taken as it is: nothing is
/// dereferenced further. The provider's word that nothing was found means
/// that the tag is absent. Every other failure stays a failure, and so does
/// an answer of any other shape.
pub open spec fn tag_state_spec(response: RemoteResponseView) -> Result<
    TagStateView,
    RemoteFailureView,
> {
    match response {
        RemoteResponseView::Reference(resolved) => match resolved.object_kind {
            ObjectKind::Tag => Ok(TagStateView::Present(resolved.sha)),
            _ => Err(RemoteFailureView::UnexpectedPayload),
        },
        RemoteResponseView::Failure(failure) => if failure.is_not_found() {
            Ok(TagStateView::Absent)
        } else {
            Err(failure)
        },
        RemoteResponseView::Repository { .. } => Err(RemoteFailureView::UnexpectedPayload),
    }
}

/// Reads the state of the environment tag off the answer to its resolution.
///
/// "Not Found" from the provider is no error here: it means that the tag
/// is absent. No other failure is taken for absence.
pub fn tag_state(response: RemoteResponse) -> (state: Result<TagState, RemoteFailure>)
    ensures
        result_view(state) == tag_state_spec(response@),
        response@ matches RemoteResponseView::Failure(failure) ==> result_view(state) == (
        if failure.is_not_found() {
            Ok::<TagStateView, RemoteFailureView>(TagStateView::Absent)
        } else {
            Err::<TagStateView, RemoteFailureView>(failure)
        }),
{
    match response {
        RemoteResponse::Reference(resolved) => match resolved.object_kind {
            ObjectKind::Tag => Ok(TagState::Present(resolved.sha)),
            _ => Err(RemoteFailure::UnexpectedPayload),
        },
        RemoteResponse::Failure(failure) => if failure.is_not_found() {
            Ok(TagState::Absent)
        } else {
            Err(failure)
        },
        RemoteResponse::Repository { .. } => Err(RemoteFailure::UnexpectedPayload),
    }
}

} // verus!
