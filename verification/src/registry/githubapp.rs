//! The registry of a GitHub App installation.

use crate::registry::{Registry, SourceProject, SourceProjects};
use vstd::prelude::*;

verus! {

/// The projects that a GitHub App installation tracks. It starts out
/// empty.
pub struct GithubAppRegistry(SourceProjects);

impl Default for GithubAppRegistry {
    fn default() -> (registry: GithubAppRegistry)
        ensures
            registry.projects() == Seq::<SourceProject>::empty(),
    {
        GithubAppRegistry(Vec::new())
    }
}

impl Registry for GithubAppRegistry {
    closed spec fn projects(&self) -> Seq<SourceProject> {
        self.0@
    }

    fn get_projects(&self) -> (projects: &SourceProjects) {
        &self.0
    }
}

} // verus!
