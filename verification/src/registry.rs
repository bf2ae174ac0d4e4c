//! The projects to track, and where they come from.

pub mod file;
pub mod githubapp;

use vstd::prelude::*;

verus! {

/// A repository on the GitHub-like provider and the environment whose tag
/// follows its default branch.
#[derive(Debug, PartialEq, Eq)]
pub struct GithubProject {
    pub owner: String,
    pub repo: String,
    pub env: String,
}

/// Mathematical model of a [`GithubProject`].
pub struct GithubProjectView {
    pub owner: Seq<char>,
    pub repo: Seq<char>,
    pub env: Seq<char>,
}

impl View for GithubProject {
    type V = GithubProjectView;

    open spec fn view(&self) -> GithubProjectView {
        GithubProjectView { owner: self.owner@, repo: self.repo@, env: self.env@ }
    }
}

impl Clone for GithubProject {
    fn clone(&self) -> (copy: GithubProject)
        ensures
            copy == *self,
    {
        GithubProject { owner: self.owner.clone(), repo: self.repo.clone(), env: self.env.clone() }
    }
}

/// A tracked project, tagged with the kind of provider that hosts it.
#[derive(Debug, PartialEq, Eq)]
#[non_exhaustive]
pub enum SourceProject {
    Github(GithubProject),
    /// A project of a provider kind that this crate cannot reconcile.
    Other { kind: String },
}

/// Mathematical model of a [`SourceProject`].
pub enum SourceProjectView {
    Github(GithubProjectView),
    Other { kind: Seq<char> },
}

impl View for SourceProject {
    type V = SourceProjectView;

    open spec fn view(&self) -> SourceProjectView {
        match self {
            SourceProject::Github(project) => SourceProjectView::Github(project@),
            SourceProject::Other { kind } => SourceProjectView::Other { kind: kind@ },
        }
    }
}

impl Clone for SourceProject {
    fn clone(&self) -> (copy: SourceProject)
        ensures
            copy == *self,
    {
        match self {
            SourceProject::Github(project) => SourceProject::Github(project.clone()),
            SourceProject::Other { kind } => SourceProject::Other { kind: kind.clone() },
        }
    }
}

pub type SourceProjects = Vec<SourceProject>;

/// The projects of a list, each by its model, in order.
pub open spec fn projects_view(projects: Seq<SourceProject>) -> Seq<SourceProjectView> {
    projects.map_values(|project: SourceProject| project@)
}

/// A source of tracked projects.
pub trait Registry: Send + Sync {
    /// The projects that the registry holds, in the order in which it hands them out.
    spec fn projects(&self) -> Seq<SourceProject>;

    fn get_projects(&self) -> (projects: &SourceProjects)
        ensures
            projects@ == self.projects(),
    ;
}

} // verus!
