//! The state as mathematics: what every operation of the state is held to.
//!
//! A project is seen as its id, the bytes of its path, its groups of results and
//! its selected test; the state as the list of its projects, the active id, and
//! the rest of its fields. Each operation of the state has its counterpart here,
//! a function from one such value to the next.

use crate::alert::AlertView;
use crate::results::flat_tests;
use crate::run_args::RunArgs;
use cargo_ptest::parse::ParsedTest;
use cargo_ptest::parse::ParsedTestGroup;
use vstd::prelude::*;

verus! {

/// The id that no project has: as the active id it says that none is active.
pub const NO_PROJECT: u32 = 0;

/// A project as plain values.
pub struct ProjectView {
    pub id: u32,
    /// The bytes that name the project's folder.
    pub path: Seq<u8>,
    pub tests: Option<Seq<ParsedTestGroup>>,
    pub selected_test: Option<usize>,
}

impl ProjectView {
    /// A project as it is when its folder has just been opened.
    pub open spec fn fresh(id: u32, path: Seq<u8>) -> ProjectView {
        ProjectView { id, path, tests: None, selected_test: None }
    }

    /// The tests of all groups in one list; none before the first run.
    pub open spec fn tests_linear(self) -> Option<Seq<ParsedTest>> {
        match self.tests {
            Some(groups) => Some(flat_tests(groups)),
            None => None,
        }
    }

    /// The selected test: the one at the selected index of the list of all tests,
    /// where there are tests, an index is selected, and the list reaches that far.
    pub open spec fn selected(self) -> Option<ParsedTest> {
        match (self.tests_linear(), self.selected_test) {
            (Some(tests), Some(index)) => if index < tests.len() {
                Some(tests[index as int])
            } else {
                None
            },
            _ => None,
        }
    }

    /// The project with the results of a new run. The selection belonged to the
    /// old list and is dropped.
    pub open spec fn with_tests(self, tests: Seq<ParsedTestGroup>) -> ProjectView {
        ProjectView { tests: Some(tests), selected_test: None, ..self }
    }

    /// The project without results and without a selection.
    pub open spec fn cleared(self) -> ProjectView {
        ProjectView { tests: None, selected_test: None, ..self }
    }

    /// The project with another selection.
    pub open spec fn selecting(self, selection: Option<usize>) -> ProjectView {
        ProjectView { selected_test: selection, ..self }
    }
}

/// Whether one of the projects has this id.
pub open spec fn has_id(projects: Seq<ProjectView>, id: u32) -> bool {
    exists|i: int| 0 <= i < projects.len() && (#[trigger] projects[i]).id == id
}

/// Whether one of the projects lies at this path.
pub open spec fn has_path(projects: Seq<ProjectView>, path: Seq<u8>) -> bool {
    exists|i: int| 0 <= i < projects.len() && (#[trigger] projects[i]).path == path
}

/// The projects with this id, in their order.
pub open spec fn with_id(projects: Seq<ProjectView>, id: u32) -> Seq<ProjectView> {
    projects.filter(|p: ProjectView| p.id == id)
}

/// The projects with any other id, in their order.
pub open spec fn without_id(projects: Seq<ProjectView>, id: u32) -> Seq<ProjectView> {
    projects.filter(|p: ProjectView| p.id != id)
}

/// The largest id among the projects, 0 where there are none.
pub open spec fn max_id(projects: Seq<ProjectView>) -> int
    decreases projects.len(),
{
    if projects.len() == 0 {
        0
    } else {
        let rest = max_id(projects.drop_last());
        if projects.last().id > rest {
            projects.last().id as int
        } else {
            rest
        }
    }
}

/// No two projects share an id.
pub open spec fn distinct_ids(projects: Seq<ProjectView>) -> bool {
    forall|i: int, j: int|
        0 <= i < j < projects.len() ==> (#[trigger] projects[i]).id != (#[trigger] projects[j]).id
}

/// The projects, each one with id `id` changed by `change`.
pub open spec fn change_id(
    projects: Seq<ProjectView>,
    id: u32,
    change: spec_fn(ProjectView) -> ProjectView,
) -> Seq<ProjectView> {
    Seq::new(
        projects.len(),
        |i: int|
            if projects[i].id == id {
                change(projects[i])
            } else {
                projects[i]
            },
    )
}

/// The state as plain values.
pub struct StateView {
    pub projects: Seq<ProjectView>,
    pub active: u32,
    pub running: bool,
    pub csd: bool,
    pub alert: Option<AlertView>,
    pub run_args: RunArgs,
}

impl StateView {
    /// What the state is held to between operations: no two projects share an id,
    /// none has the id 0, and the active id is 0 or that of a project.
    pub open spec fn wf(self) -> bool {
        &&& distinct_ids(self.projects)
        &&& !has_id(self.projects, NO_PROJECT)
        &&& (self.active == NO_PROJECT || has_id(self.projects, self.active))
    }

    /// The active project: the one with the active id, where exactly one has it.
    pub open spec fn active_project(self) -> Option<ProjectView> {
        let found = with_id(self.projects, self.active);
        if found.len() == 1 {
            Some(found[0])
        } else {
            None
        }
    }

    /// The selected test of the active project.
    pub open spec fn selected_test(self) -> Option<ParsedTest> {
        match self.active_project() {
            Some(project) => project.selected(),
            None => None,
        }
    }

    /// How many tests the active project's last run had.
    pub open spec fn tests_run(self) -> Option<nat> {
        match self.active_project() {
            Some(project) => match project.tests_linear() {
                Some(tests) => Some(tests.len()),
                None => None,
            },
            None => None,
        }
    }

    /// The state with one project more, which becomes the active one.
    pub open spec fn add_project(self, project: ProjectView) -> StateView {
        StateView { projects: self.projects.push(project), active: project.id, ..self }
    }

    /// The state after the folder at `path` was opened. A path that is open
    /// already changes nothing. A new one becomes a project with the next id
    /// behind the largest, and that project becomes the active one.
    pub open spec fn add_project_by_path(self, path: Seq<u8>) -> StateView {
        if has_path(self.projects, path) {
            self
        } else {
            self.add_project(ProjectView::fresh((max_id(self.projects) + 1) as u32, path))
        }
    }

    /// Whether the folder at `path` can be opened: it is open already, or an id
    /// is left for it.
    pub open spec fn can_add(self, path: Seq<u8>) -> bool {
        has_path(self.projects, path) || max_id(self.projects) < u32::MAX
    }

    /// The state after the folders at `paths` were opened, one after the other.
    pub open spec fn add_projects_by_path(self, paths: Seq<Seq<u8>>) -> StateView
        decreases paths.len(),
    {
        if paths.len() == 0 {
            self
        } else {
            self.add_projects_by_path(paths.drop_last()).add_project_by_path(paths.last())
        }
    }

    /// Whether the folders at `paths` can be opened one after the other.
    pub open spec fn can_add_all(self, paths: Seq<Seq<u8>>) -> bool
        decreases paths.len(),
    {
        paths.len() == 0 || (self.can_add_all(paths.drop_last()) && self.add_projects_by_path(
            paths.drop_last(),
        ).can_add(paths.last()))
    }

    /// The state without the projects that have this id. Where that was the
    /// active id, the first project left becomes active, and none where none is
    /// left.
    pub open spec fn remove_project(self, id: u32) -> StateView {
        let rest = without_id(self.projects, id);
        StateView {
            projects: rest,
            active: if id != self.active {
                self.active
            } else if rest.len() > 0 {
                rest[0].id
            } else {
                NO_PROJECT
            },
            ..self
        }
    }

    /// The state with another active project. An id that no project has changes
    /// nothing.
    pub open spec fn set_active_project(self, id: u32) -> StateView {
        if has_id(self.projects, id) {
            StateView { active: id, ..self }
        } else {
            self
        }
    }

    /// The state with the results of a run stored in the project with this id.
    pub open spec fn set_tests(self, id: u32, tests: Seq<ParsedTestGroup>) -> StateView {
        StateView {
            projects: change_id(self.projects, id, |p: ProjectView| p.with_tests(tests)),
            ..self
        }
    }

    /// The state with the results and the selection of this project dropped.
    pub open spec fn clear_tests(self, id: u32) -> StateView {
        StateView { projects: change_id(self.projects, id, |p: ProjectView| p.cleared()), ..self }
    }

    /// The state with another selection in the active project.
    pub open spec fn select(self, selection: Option<usize>) -> StateView {
        StateView {
            projects: change_id(self.projects, self.active, |p: ProjectView| p.selecting(selection)),
            ..self
        }
    }

    /// The state showing this alert.
    pub open spec fn with_alert(self, alert: AlertView) -> StateView {
        StateView { alert: Some(alert), ..self }
    }

    /// The state showing no alert.
    pub open spec fn without_alert(self) -> StateView {
        StateView { alert: None, ..self }
    }
}

} // verus!
