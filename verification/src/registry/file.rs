//! A registry whose projects were read from a configuration file.

use crate::registry::{Registry, SourceProject, SourceProjects};
use vstd::prelude::*;

verus! {

/// The projects that a configuration file lists, in the order of the file.
pub struct FileBasedRegistry {
    source_projects: Box<SourceProjects>,
}

impl FileBasedRegistry {
    /// The registry that holds the projects read from the file.
    pub fn from_projects(projects: SourceProjects) -> (registry: FileBasedRegistry)
        ensures
            registry.projects() == projects@,
    {
        FileBasedRegistry { source_projects: Box::new(projects) }
    }
}

impl Registry for FileBasedRegistry {
    closed spec fn projects(&self) -> Seq<SourceProject> {
        self.source_projects@
    }

    fn get_projects(&self) -> (projects: &SourceProjects) {
        &*self.source_projects
    }
}

} // verus!
