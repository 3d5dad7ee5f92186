//! What outlives the window: the open projects and the active one.
//!
//! Only the id and the path of each project are kept. Results and selections
//! belong to a sitting and are gone after a reload.

use crate::model::ProjectView;
use crate::model::StateView;
use crate::project::Project;
use crate::run_args::RunArgs;
use crate::state::views;
use crate::text::clone_bytes;
use crate::state::State;
use crate::state::Status;
use vstd::prelude::*;

verus! {

/// What is kept of a project.
#[derive(Debug)]
pub struct SavedProject {
    pub id: u32,
    pub path: Vec<u8>,
}

/// What is kept of the state.
#[derive(Debug)]
pub struct SaveOpenProjects {
    pub open_projects: Vec<SavedProject>,
    pub active_project: u32,
}

impl View for SavedProject {
    type V = ProjectView;

    /// A saved project is seen as the project it becomes when loaded.
    open spec fn view(&self) -> ProjectView {
        ProjectView::fresh(self.id, self.path@)
    }
}

/// What a list of saved projects is seen as.
pub open spec fn saved_views(projects: Seq<SavedProject>) -> Seq<ProjectView> {
    projects.map_values(|p: SavedProject| p@)
}

/// The projects as they are after a reload: without results, without selection.
pub open spec fn kept(projects: Seq<ProjectView>) -> Seq<ProjectView> {
    projects.map_values(|p: ProjectView| ProjectView::fresh(p.id, p.path))
}

impl StateView {
    /// The state that a window starts with when it finds these projects saved.
    pub open spec fn loaded(projects: Seq<ProjectView>, active: u32) -> StateView {
        StateView {
            projects,
            active,
            running: false,
            csd: false,
            alert: None,
            run_args: RunArgs { lib: false, bin: false, docs: false, workspace: true, no_fail_fast: true },
        }
    }
}

impl Default for SaveOpenProjects {
    /// Nothing open: what a first start, or a file that cannot be read, stands
    /// for.
    fn default() -> (saved: Self)
        ensures
            saved.open_projects@.len() == 0,
            saved.active_project == 0,
    {
        SaveOpenProjects { open_projects: Vec::new(), active_project: 0 }
    }
}

impl State {
    /// What is to be saved of this state.
    pub fn to_saved(&self) -> (saved: SaveOpenProjects)
        ensures
            saved_views(saved.open_projects@) == kept(self@.projects),
            saved.active_project == self@.active,
    {
        let mut list: Vec<SavedProject> = Vec::new();
        let mut i: usize = 0;
        while i < self.open_projects.len()
            invariant
                i <= self.open_projects@.len(),
                list@.len() == i,
                forall|j: int| 0 <= j < i ==> (#[trigger] list@[j])@ == ProjectView::fresh(
                    self.open_projects@[j].id,
                    self.open_projects@[j].path@,
                ),
            decreases self.open_projects@.len() - i,
        {
            let project = &self.open_projects[i];
            list.push(SavedProject { id: project.id, path: clone_bytes(&project.path) });
            i += 1;
        }
        proof {
            assert(saved_views(list@) =~= kept(self@.projects));
        }
        SaveOpenProjects { open_projects: list, active_project: self.active_project }
    }

    /// The state that a window starts with: what was saved, and nothing open
    /// where what was saved could not be read.
    pub fn restore(saved: Option<SaveOpenProjects>) -> (state: State)
        ensures
            state@ == (match saved {
                Some(found) => StateView::loaded(saved_views(found.open_projects@), found.active_project),
                None => StateView::loaded(Seq::<ProjectView>::empty(), 0),
            }),
    {
        match saved {
            Some(found) => State::from_saved(found),
            None => State::default(),
        }
    }

    /// The state that a window starts with when it finds `saved`.
    pub fn from_saved(saved: SaveOpenProjects) -> (state: State)
        ensures
            state@ == StateView::loaded(saved_views(saved.open_projects@), saved.active_project),
    {
        let mut list: Vec<Project> = Vec::new();
        let mut i: usize = 0;
        while i < saved.open_projects.len()
            invariant
                i <= saved.open_projects@.len(),
                list@.len() == i,
                forall|j: int| 0 <= j < i ==> (#[trigger] list@[j])@ == saved.open_projects@[j]@,
            decreases saved.open_projects@.len() - i,
        {
            let kept = &saved.open_projects[i];
            list.push(Project::new(kept.id, clone_bytes(&kept.path)));
            i += 1;
        }
        proof {
            assert(views(list@) =~= saved_views(saved.open_projects@));
        }
        State {
            open_projects: list,
            active_project: saved.active_project,
            status: Status::default(),
            csd: false,
            alert: None,
            run_args: RunArgs::default(),
        }
    }
}

} // verus!
