//! The application's state and the operations that change it.

use crate::alert::Alert;
use crate::alert::AlertSeverity;
use crate::alert::AlertView;
use crate::laws::law_clear_resets_tests_and_selection;
use crate::laws::law_new_results_drop_selection;
use crate::laws::law_open_folder;
use crate::laws::law_open_folders;
use crate::laws::law_remove_reassigns_active;
use crate::laws::law_selection;
use crate::model::has_id;
use crate::model::has_path;
use crate::model::max_id;
use crate::model::change_id;
use crate::model::ProjectView;
use crate::model::StateView;
use crate::model::NO_PROJECT;
use crate::project::opt_project;
use crate::project::Project;
use crate::results::clone_groups;
use crate::results::clone_test;
use crate::results::linear_tests;
use crate::run_args::RunArgs;
use crate::text::opt_text;
use crate::text::byte_lists;
use crate::text::clone_bytes;
use crate::text::same_bytes;
use cargo_ptest::parse::ParsedTest;
use cargo_ptest::parse::ParsedTestGroup;
use vstd::prelude::*;

verus! {

/// What the status bar reports.
#[derive(Clone, Copy, Debug, PartialEq, Eq, Structural)]
pub struct Status {
    /// Whether a test run is under way.
    pub running_tests: bool,
}

impl Default for Status {
    fn default() -> (status: Self)
        ensures
            !status.running_tests,
    {
        Status { running_tests: false }
    }
}

impl Status {
    /// What the status bar says of the run.
    pub fn label(&self) -> (text: &'static str)
        ensures
            text@ == (if self.running_tests {
                "Running tests"@
            } else {
                "Idle"@
            }),
    {
        if self.running_tests {
            "Running tests"
        } else {
            "Idle"
        }
    }
}

/// Everything the window shows.
#[derive(Debug)]
pub struct State {
    /// The open projects, in the order of their tabs.
    pub open_projects: Vec<Project>,
    /// Id of the project on show; 0 where none is.
    pub active_project: u32,
    pub status: Status,
    /// Whether the window draws its own decorations.
    pub csd: bool,
    /// The alert on show.
    pub alert: Option<Alert>,
    /// The flags of the next run.
    pub run_args: RunArgs,
}

/// What can be done to a project in place.
enum Change {
    /// Store the results of a run and drop the selection.
    Tests(Vec<ParsedTestGroup>),
    /// Drop the results and the selection.
    Clear,
    /// Select a test, or none.
    Select(Option<usize>),
}

impl Change {
    /// The project after the change.
    spec fn applied(self, project: ProjectView) -> ProjectView {
        match self {
            Change::Tests(tests) => project.with_tests(tests@),
            Change::Clear => project.cleared(),
            Change::Select(selection) => project.selecting(selection),
        }
    }
}

/// What a list of projects is seen as.
pub open spec fn views(projects: Seq<Project>) -> Seq<ProjectView> {
    projects.map_values(|p: Project| p@)
}

/// What an optional alert is seen as.
pub open spec fn opt_alert(alert: Option<Alert>) -> Option<AlertView> {
    match alert {
        Some(a) => Some(a@),
        None => None,
    }
}

impl View for State {
    type V = StateView;

    open spec fn view(&self) -> StateView {
        StateView {
            projects: views(self.open_projects@),
            active: self.active_project,
            running: self.status.running_tests,
            csd: self.csd,
            alert: opt_alert(self.alert),
            run_args: self.run_args,
        }
    }
}

/// One project more in the list is one view more in the list of views.
proof fn lemma_views_push(projects: Seq<Project>, project: Project)
    ensures
        views(projects.push(project)) == views(projects).push(project@),
{
    assert(views(projects.push(project)) =~= views(projects).push(project@));
}

/// The views of the first projects are the first of the views.
proof fn lemma_views_take(projects: Seq<Project>, n: int)
    requires
        0 <= n <= projects.len(),
    ensures
        views(projects.take(n)) == views(projects).take(n),
        n < projects.len() ==> views(projects).take(n + 1) == views(projects).take(n).push(projects[n]@),
        views(projects).take(projects.len() as int) == views(projects),
{
    assert(views(projects.take(n)) =~= views(projects).take(n));
    if n < projects.len() {
        assert(views(projects).take(n + 1) =~= views(projects).take(n).push(projects[n]@));
    }
    assert(views(projects).take(projects.len() as int) =~= views(projects));
}

/// Folders that can be opened one after the other can be opened up to any point.
proof fn lemma_can_add_prefix(state: StateView, paths: Seq<Seq<u8>>, n: int)
    requires
        state.can_add_all(paths),
        0 <= n <= paths.len(),
    ensures
        state.can_add_all(paths.take(n)),
    decreases paths.len(),
{
    if n == paths.len() {
        assert(paths.take(n) =~= paths);
    } else {
        lemma_can_add_prefix(state, paths.drop_last(), n);
        assert(paths.drop_last().take(n) =~= paths.take(n));
    }
}

impl Default for State {
    /// The state of a window that has nothing open.
    fn default() -> (state: Self)
        ensures
            state@ == (StateView {
                projects: Seq::<ProjectView>::empty(),
                active: NO_PROJECT,
                running: false,
                csd: false,
                alert: None,
                run_args: RunArgs { lib: false, bin: false, docs: false, workspace: true, no_fail_fast: true },
            }),
            state@.wf(),
    {
        let state = State {
            open_projects: Vec::new(),
            active_project: 0,
            status: Status::default(),
            csd: false,
            alert: None,
            run_args: RunArgs::default(),
        };
        proof {
            assert(views(state.open_projects@) =~= Seq::<ProjectView>::empty());
        }
        state
    }
}

impl Clone for State {
    fn clone(&self) -> (copy: Self)
        ensures
            copy@ == self@,
    {
        let mut projects: Vec<Project> = Vec::new();
        let mut i: usize = 0;
        while i < self.open_projects.len()
            invariant
                i <= self.open_projects@.len(),
                projects@.len() == i,
                forall|j: int| 0 <= j < i ==> (#[trigger] projects@[j])@ == self.open_projects@[j]@,
            decreases self.open_projects@.len() - i,
        {
            projects.push(self.open_projects[i].clone());
            i += 1;
        }
        proof {
            assert(views(projects@) =~= views(self.open_projects@));
        }
        let alert = match &self.alert {
            Some(alert) => Some(alert.clone()),
            None => None,
        };
        State {
            open_projects: projects,
            active_project: self.active_project,
            status: self.status,
            csd: self.csd,
            alert,
            run_args: self.run_args,
        }
    }
}

impl State {
    /// Whether the folder at `path` is open already.
    pub fn has_path(&self, path: &Vec<u8>) -> (found: bool)
        ensures
            found == has_path(self@.projects, path@),
    {
        let mut i: usize = 0;
        while i < self.open_projects.len()
            invariant
                i <= self.open_projects@.len(),
                forall|j: int| 0 <= j < i ==> (#[trigger] self@.projects[j]).path != path@,
            decreases self.open_projects@.len() - i,
        {
            if same_bytes(&self.open_projects[i].path, path) {
                proof {
                    assert(self@.projects[i as int].path == path@);
                }
                return true;
            }
            i += 1;
        }
        false
    }

    /// Whether a project has this id.
    pub fn has_id(&self, id: u32) -> (found: bool)
        ensures
            found == has_id(self@.projects, id),
    {
        let mut i: usize = 0;
        while i < self.open_projects.len()
            invariant
                i <= self.open_projects@.len(),
                forall|j: int| 0 <= j < i ==> (#[trigger] self@.projects[j]).id != id,
            decreases self.open_projects@.len() - i,
        {
            if self.open_projects[i].id == id {
                proof {
                    assert(self@.projects[i as int].id == id);
                }
                return true;
            }
            i += 1;
        }
        false
    }

    /// The largest id in use, 0 where nothing is open.
    pub fn largest_id(&self) -> (id: u32)
        ensures
            id == max_id(self@.projects),
    {
        let mut id: u32 = 0;
        let mut i: usize = 0;
        while i < self.open_projects.len()
            invariant
                i <= self.open_projects@.len(),
                id == max_id(self@.projects.take(i as int)),
            decreases self.open_projects@.len() - i,
        {
            proof {
                lemma_views_take(self.open_projects@, i as int);
                assert(self@.projects.take(i as int + 1).drop_last() =~= self@.projects.take(i as int));
            }
            if self.open_projects[i].id > id {
                id = self.open_projects[i].id;
            }
            i += 1;
        }
        proof {
            lemma_views_take(self.open_projects@, i as int);
        }
        id
    }

    /// Whether the folder at `path` can be opened: it is open already, or an id
    /// is left for it.
    pub fn can_add(&self, path: &Vec<u8>) -> (ok: bool)
        ensures
            ok == self@.can_add(path@),
    {
        self.has_path(path) || self.largest_id() < u32::MAX
    }

    /// Whether the folders at `paths` can be opened one after the other.
    pub fn can_add_all(&self, paths: &Vec<Vec<u8>>) -> (ok: bool)
        ensures
            ok == self@.can_add_all(byte_lists(paths@)),
    {
        let ghost all = byte_lists(paths@);
        let mut probe = self.clone();
        let mut i: usize = 0;
        proof {
            assert(all.take(0) =~= Seq::<Seq<u8>>::empty());
        }
        while i < paths.len()
            invariant
                all == byte_lists(paths@),
                i <= paths@.len(),
                self@.can_add_all(all.take(i as int)),
                probe@ == self@.add_projects_by_path(all.take(i as int)),
            decreases paths@.len() - i,
        {
            proof {
                assert(all.take(i as int + 1).drop_last() =~= all.take(i as int));
                assert(all.take(i as int + 1).last() == paths@[i as int]@);
            }
            if !probe.can_add(&paths[i]) {
                proof {
                    if self@.can_add_all(all) {
                        lemma_can_add_prefix(self@, all, i as int + 1);
                    }
                }
                return false;
            }
            probe.add_project_by_path(clone_bytes(&paths[i]));
            i += 1;
        }
        proof {
            assert(all.take(i as int) =~= all);
        }
        true
    }

    /// Opens the folder at `path`, unless it is open already: the new project
    /// gets the id behind the largest in use and becomes the active one.
    pub fn add_project_by_path(&mut self, path: Vec<u8>)
        requires
            old(self)@.can_add(path@),
        ensures
            final(self)@ == old(self)@.add_project_by_path(path@),
            old(self)@.wf() ==> final(self)@.wf(),
    {
        proof {
            law_open_folder(self@, path@);
        }
        if self.has_path(&path) {
            return ;
        }
        let id: u32 = self.largest_id() + 1;
        self.add_project(Project::new(id, path));
    }

    /// Adds a project and makes it the active one.
    pub fn add_project(&mut self, project: Project)
        ensures
            final(self)@ == old(self)@.add_project(project@),
    {
        let id: u32 = project.id;
        proof {
            lemma_views_push(self.open_projects@, project);
        }
        self.open_projects.push(project);
        self.active_project = id;
    }

    /// Opens the folders at `paths`, one after the other.
    pub fn add_projects_by_path(&mut self, paths: &Vec<Vec<u8>>)
        requires
            old(self)@.can_add_all(byte_lists(paths@)),
        ensures
            final(self)@ == old(self)@.add_projects_by_path(byte_lists(paths@)),
            old(self)@.wf() ==> final(self)@.wf(),
    {
        proof {
            law_open_folders(self@, byte_lists(paths@));
        }
        let ghost all = byte_lists(paths@);
        let mut i: usize = 0;
        proof {
            assert(all.take(0) =~= Seq::<Seq<u8>>::empty());
        }
        while i < paths.len()
            invariant
                all == byte_lists(paths@),
                i <= paths@.len(),
                old(self)@.can_add_all(all),
                self@ == old(self)@.add_projects_by_path(all.take(i as int)),
            decreases paths@.len() - i,
        {
            proof {
                assert(all.take(i as int + 1).drop_last() =~= all.take(i as int));
                assert(all.take(i as int + 1).last() == paths@[i as int]@);
                lemma_can_add_prefix(old(self)@, all, i as int + 1);
            }
            self.add_project_by_path(clone_bytes(&paths[i]));
            i += 1;
        }
        proof {
            assert(all.take(i as int) =~= all);
        }
    }

    /// Closes the project with this id. Where it was the active one, the first
    /// project left becomes active, and none where none is left.
    pub fn remove_project(&mut self, id: u32)
        ensures
            final(self)@ == old(self)@.remove_project(id),
            old(self)@.wf() ==> final(self)@.wf(),
    {
        proof {
            law_remove_reassigns_active(self@, id);
        }
        let ghost before = self@.projects;
        let ghost keep = |p: ProjectView| p.id != id;
        let mut i: usize = 0;
        let ghost mut seen: int = 0;
        proof {
            assert(self@.projects.take(0) =~= Seq::<ProjectView>::empty());
            assert(before.take(0) =~= Seq::<ProjectView>::empty());
            assert(before.take(0).filter(keep) =~= Seq::<ProjectView>::empty()) by {
                reveal(Seq::filter);
            }
            assert(self@.projects.skip(0) =~= before.skip(0));
        }
        while i < self.open_projects.len()
            invariant
                before == old(self)@.projects,
                keep == |p: ProjectView| p.id != id,
                i <= self.open_projects@.len(),
                0 <= seen <= before.len(),
                self@.projects.take(i as int) == before.take(seen).filter(keep),
                self@.projects.skip(i as int) == before.skip(seen),
                self.active_project == old(self).active_project,
                self.status == old(self).status,
                self.csd == old(self).csd,
                self.alert == old(self).alert,
                self.run_args == old(self).run_args,
            decreases self.open_projects@.len() - i,
        {
            let ghost current = self@.projects;
            proof {
                assert(current.skip(i as int).len() == before.skip(seen).len());
                assert(current[i as int] == current.skip(i as int)[0]);
                assert(before[seen] == before.skip(seen)[0]);
                assert(before.take(seen + 1) =~= before.take(seen).push(before[seen]));
                before.take(seen).lemma_filter_push(before[seen], keep);
            }
            if self.open_projects[i].id == id {
                self.open_projects.remove(i);
                proof {
                    assert(self@.projects =~= current.remove(i as int));
                    assert(self@.projects.take(i as int) =~= current.take(i as int));
                    assert(self@.projects.skip(i as int) =~= current.skip(i as int).skip(1));
                    assert(before.skip(seen + 1) =~= before.skip(seen).skip(1));
                }
            } else {
                proof {
                    assert(current.take(i as int + 1) =~= current.take(i as int).push(current[i as int]));
                    assert(current.skip(i as int + 1) =~= current.skip(i as int).skip(1));
                    assert(before.skip(seen + 1) =~= before.skip(seen).skip(1));
                }
                i += 1;
            }
            proof {
                seen = seen + 1;
            }
        }
        proof {
            assert(self@.projects.take(i as int) =~= self@.projects);
            assert(self@.projects.skip(i as int).len() == 0);
            assert(before.take(seen) =~= before);
        }
        if id == self.active_project {
            if self.open_projects.len() > 0 {
                self.active_project = self.open_projects[0].id;
            } else {
                self.active_project = NO_PROJECT;
            }
        }
    }

    /// Shows the project with this id. An id that no project has changes
    /// nothing.
    pub fn set_active_project(&mut self, id: u32)
        ensures
            final(self)@ == old(self)@.set_active_project(id),
            old(self)@.wf() ==> final(self)@.wf(),
    {
        if self.has_id(id) {
            self.active_project = id;
        }
    }

    /// Where the active project stands in the list; `None` unless exactly one
    /// project has the active id.
    pub fn active_index(&self) -> (found: Option<usize>)
        ensures
            match found {
                Some(k) => k < self.open_projects@.len() && self@.active_project() == Some(self.open_projects@[k as int]@),
                None => self@.active_project().is_none(),
            },
    {
        let ghost all = self@.projects;
        let ghost wanted = |p: ProjectView| p.id == self.active_project;
        let mut count: usize = 0;
        let mut first: usize = 0;
        let mut i: usize = 0;
        proof {
            assert(all.take(0) =~= Seq::<ProjectView>::empty());
            assert(all.take(0).filter(wanted) =~= Seq::<ProjectView>::empty()) by {
                reveal(Seq::filter);
            }
        }
        while i < self.open_projects.len()
            invariant
                all == self@.projects,
                wanted == |p: ProjectView| p.id == self.active_project,
                i <= self.open_projects@.len(),
                count <= i,
                count == all.take(i as int).filter(wanted).len(),
                count > 0 ==> first < i && all.take(i as int).filter(wanted)[0] == all[first as int],
            decreases self.open_projects@.len() - i,
        {
            proof {
                assert(all.take(i as int + 1) =~= all.take(i as int).push(all[i as int]));
                all.take(i as int).lemma_filter_push(all[i as int], wanted);
            }
            if self.open_projects[i].id == self.active_project {
                if count == 0 {
                    first = i;
                }
                count += 1;
            }
            i += 1;
        }
        proof {
            assert(all.take(i as int) =~= all);
        }
        if count == 1 {
            Some(first)
        } else {
            None
        }
    }

    /// A copy of the active project.
    pub fn get_active_project(&self) -> (project: Option<Project>)
        ensures
            opt_project(project) == self@.active_project(),
    {
        match self.active_index() {
            Some(k) => Some(self.open_projects[k].clone()),
            None => None,
        }
    }

    /// Whether a project is on show.
    pub fn has_active_project(&self) -> (yes: bool)
        ensures
            yes == self@.active_project().is_some(),
    {
        self.active_index().is_some()
    }

    /// Stores the results of a run in the project with this id, and drops that
    /// project's selection.
    pub fn set_tests(&mut self, id: u32, tests: Vec<ParsedTestGroup>)
        ensures
            final(self)@ == old(self)@.set_tests(id, tests@),
            old(self)@.wf() ==> final(self)@.wf(),
    {
        proof {
            law_new_results_drop_selection(self@, id, tests@);
        }
        let change = Change::Tests(tests);
        self.change_projects(id, &change);
        proof {
            assert(change_id(old(self)@.projects, id, |p: ProjectView| change.applied(p)) =~= change_id(
                old(self)@.projects,
                id,
                |p: ProjectView| p.with_tests(tests@),
            ));
        }
    }

    /// Drops the results and the selection of the project with this id.
    pub fn clear_tests(&mut self, id: u32)
        ensures
            final(self)@ == old(self)@.clear_tests(id),
            old(self)@.wf() ==> final(self)@.wf(),
    {
        proof {
            law_clear_resets_tests_and_selection(self@, id);
        }
        let change = Change::Clear;
        self.change_projects(id, &change);
        proof {
            assert(change_id(old(self)@.projects, id, |p: ProjectView| change.applied(p)) =~= change_id(
                old(self)@.projects,
                id,
                |p: ProjectView| p.cleared(),
            ));
        }
    }

    /// Selects the test at `index` of the active project's list of tests.
    pub fn select_test(&mut self, index: usize)
        ensures
            final(self)@ == old(self)@.select(Some(index)),
            old(self)@.wf() ==> final(self)@.wf(),
    {
        proof {
            law_selection(self@, Some(index));
        }
        self.set_selection(Some(index));
    }

    /// Drops the active project's selection.
    pub fn unselect_test(&mut self)
        ensures
            final(self)@ == old(self)@.select(None),
            old(self)@.wf() ==> final(self)@.wf(),
    {
        proof {
            law_selection(self@, None);
        }
        self.set_selection(None);
    }

    fn set_selection(&mut self, selection: Option<usize>)
        ensures
            final(self)@ == old(self)@.select(selection),
    {
        let id: u32 = self.active_project;
        let change = Change::Select(selection);
        self.change_projects(id, &change);
        proof {
            assert(change_id(old(self)@.projects, id, |p: ProjectView| change.applied(p)) =~= change_id(
                old(self)@.projects,
                id,
                |p: ProjectView| p.selecting(selection),
            ));
        }
    }

    /// Applies `change` to every project with this id, and leaves the rest of
    /// the state as it is.
    fn change_projects(&mut self, id: u32, change: &Change)
        ensures
            final(self)@ == (StateView {
                projects: change_id(old(self)@.projects, id, |p: ProjectView| change.applied(p)),
                ..old(self)@
            }),
    {
        let ghost before = self@.projects;
        let n: usize = self.open_projects.len();
        let mut i: usize = 0;
        while i < n
            invariant
                before == old(self)@.projects,
                n == before.len(),
                i <= n,
                self.open_projects@.len() == n,
                forall|j: int|
                    0 <= j < i ==> (#[trigger] self.open_projects@[j])@ == (if before[j].id == id {
                        change.applied(before[j])
                    } else {
                        before[j]
                    }),
                forall|j: int| i <= j < n ==> (#[trigger] self.open_projects@[j])@ == before[j],
                self.active_project == old(self).active_project,
                self.status == old(self).status,
                self.csd == old(self).csd,
                self.alert == old(self).alert,
                self.run_args == old(self).run_args,
            decreases n - i,
        {
            if self.open_projects[i].id == id {
                match change {
                    Change::Tests(tests) => {
                        self.open_projects[i].tests = Some(clone_groups(tests));
                        self.open_projects[i].selected_test = None;
                    },
                    Change::Clear => {
                        self.open_projects[i].tests = None;
                        self.open_projects[i].selected_test = None;
                    },
                    Change::Select(selection) => {
                        self.open_projects[i].selected_test = *selection;
                    },
                }
            }
            i += 1;
        }
        proof {
            assert(self@.projects =~= change_id(before, id, |p: ProjectView| change.applied(p)));
        }
    }

    /// A copy of the selected test of the active project: the test at the
    /// selected index of its list of tests, where there is one.
    pub fn get_selected_test(&self) -> (test: Option<ParsedTest>)
        ensures
            test == self@.selected_test(),
    {
        let k: usize = match self.active_index() {
            Some(k) => k,
            None => {
                return None;
            },
        };
        let project = &self.open_projects[k];
        let index: usize = match project.selected_test {
            Some(index) => index,
            None => {
                return None;
            },
        };
        match &project.tests {
            Some(groups) => {
                let tests = linear_tests(groups);
                if index < tests.len() {
                    Some(clone_test(&tests[index]))
                } else {
                    None
                }
            },
            None => None,
        }
    }

    /// Shows an alert of the given severity, in place of any that is showing. It
    /// stays for `time` milliseconds, or until the user closes it where `time` is
    /// `None`.
    pub fn show_alert(&mut self, severity: AlertSeverity, title: Option<String>, message: String, time: Option<u64>)
        ensures
            final(self)@ == old(self)@.with_alert(AlertView::of(severity, opt_text(title), message@, time)),
    {
        self.alert = Some(Alert::new(severity, title, message, time));
    }

    /// Shows an alert that reports a success.
    pub fn alert_success(&mut self, title: Option<String>, message: String, time: Option<u64>)
        ensures
            final(self)@ == old(self)@.with_alert(
                AlertView::of(AlertSeverity::SUCCESS, opt_text(title), message@, time),
            ),
    {
        self.show_alert(AlertSeverity::SUCCESS, title, message, time);
    }

    /// Shows an alert that informs.
    pub fn alert_info(&mut self, title: Option<String>, message: String, time: Option<u64>)
        ensures
            final(self)@ == old(self)@.with_alert(
                AlertView::of(AlertSeverity::INFO, opt_text(title), message@, time),
            ),
    {
        self.show_alert(AlertSeverity::INFO, title, message, time);
    }

    /// Shows an alert that warns.
    pub fn alert_warning(&mut self, title: Option<String>, message: String, time: Option<u64>)
        ensures
            final(self)@ == old(self)@.with_alert(
                AlertView::of(AlertSeverity::WARNING, opt_text(title), message@, time),
            ),
    {
        self.show_alert(AlertSeverity::WARNING, title, message, time);
    }

    /// Shows an alert that reports an error.
    pub fn alert_error(&mut self, title: Option<String>, message: String, time: Option<u64>)
        ensures
            final(self)@ == old(self)@.with_alert(
                AlertView::of(AlertSeverity::ERROR, opt_text(title), message@, time),
            ),
    {
        self.show_alert(AlertSeverity::ERROR, title, message, time);
    }

    /// Takes the alert away.
    pub fn alert_clear(&mut self)
        ensures
            final(self)@ == old(self)@.without_alert(),
    {
        self.alert = None;
    }

    /// How many tests the latest run of the active project had; `None` where no
    /// project is on show or it has no results.
    pub fn tests_run(&self) -> (count: Option<usize>)
        ensures
            match count {
                Some(n) => self@.tests_run() == Some(n as nat),
                None => self@.tests_run().is_none(),
            },
    {
        match self.active_index() {
            Some(k) => match &self.open_projects[k].tests {
                Some(groups) => Some(linear_tests(groups).len()),
                None => None,
            },
            None => None,
        }
    }
}

} // verus!
