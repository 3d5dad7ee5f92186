//! What the window lists: a tab for each project, a line for each test of the
//! project on show, and the parts of that project's path.

use crate::model::ProjectView;
use crate::model::StateView;
use crate::paths::path_segments;
use crate::paths::segments;
use crate::paths::shown_text;
use crate::project::shown_name;
use crate::results::clone_test;
use crate::results::linear_tests;
use crate::state::State;
use crate::text::texts;
use cargo_ptest::parse::ParsedTest;
use vstd::prelude::*;

verus! {

/// The tab of a project.
#[derive(Clone, Debug)]
pub struct TabBarItem {
    /// The name on the tab.
    pub name: String,
    /// Id of the project that the tab stands for.
    pub project_id: u32,
    /// Whether that project is the one on show.
    pub active: bool,
}

/// A line of the list of tests.
#[derive(Debug)]
pub struct TestListItem {
    /// Where the test stands in the list; a click on the line selects this index.
    pub index: usize,
    /// The test on the line.
    pub test_data: ParsedTest,
}

impl StateView {
    /// The path of the project on show, as it shows; empty where none is.
    pub open spec fn shown_path(self) -> Seq<char> {
        match self.active_project() {
            Some(project) => shown_text(project.path),
            None => Seq::empty(),
        }
    }

    /// The tests of the project on show; none where no project is on show or it
    /// has no results.
    pub open spec fn shown_tests(self) -> Seq<ParsedTest> {
        match self.active_project() {
            Some(project) => match project.tests_linear() {
                Some(tests) => tests,
                None => Seq::empty(),
            },
            None => Seq::empty(),
        }
    }
}

/// Whether `tab` is the tab of `project` in a state whose active id is `active`,
/// on a system of this kind.
pub open spec fn is_tab_of(tab: TabBarItem, project: ProjectView, active: u32, windows: bool) -> bool {
    &&& tab.name@ == shown_name(project.path, windows)
    &&& tab.project_id == project.id
    &&& tab.active == (project.id == active)
}

impl State {
    /// The tabs: one for each project, in the order of the projects. A tab shows
    /// the name of its project, and is active where its project
    /// has the active id.
    pub fn tabs(&self, windows: bool) -> (tabs: Vec<TabBarItem>)
        ensures
            tabs@.len() == self@.projects.len(),
            forall|i: int|
                0 <= i < tabs@.len() ==> is_tab_of(#[trigger] tabs@[i], self@.projects[i], self@.active, windows),
    {
        let mut tabs: Vec<TabBarItem> = Vec::new();
        let mut i: usize = 0;
        while i < self.open_projects.len()
            invariant
                i <= self.open_projects@.len(),
                tabs@.len() == i,
                forall|j: int|
                    0 <= j < i ==> is_tab_of(#[trigger] tabs@[j], self@.projects[j], self@.active, windows),
            decreases self.open_projects@.len() - i,
        {
            let project = &self.open_projects[i];
            proof {
                assert(self@.projects[i as int] == project@);
            }
            tabs.push(
                TabBarItem {
                    name: project.display_name(windows),
                    project_id: project.id,
                    active: project.id == self.active_project,
                },
            );
            i += 1;
        }
        tabs
    }

    /// The path of the project on show, as it shows: its text, the word `ERROR`
    /// where it spells none, and nothing where no project is on show.
    pub fn shown_path(&self) -> (text: String)
        ensures
            text@ == self@.shown_path(),
    {
        match self.active_index() {
            Some(k) => self.open_projects[k].path_string(),
            None => String::new(),
        }
    }

    /// The components of the path of the project on show: the crumbs of the
    /// path bar.
    pub fn breadcrumbs(&self) -> (crumbs: Vec<String>)
        ensures
            texts(crumbs@) == segments(self@.shown_path()),
    {
        let path = self.shown_path();
        path_segments(path.as_str())
    }

    /// The lines of the list of tests: one for each test of the project on
    /// show, each with its index in the list.
    pub fn test_items(&self) -> (items: Vec<TestListItem>)
        ensures
            items@.len() == self@.shown_tests().len(),
            forall|i: int|
                0 <= i < items@.len() ==> (#[trigger] items@[i]).index == i && items@[i].test_data
                    == self@.shown_tests()[i],
    {
        let tests: Vec<ParsedTest> = match self.active_index() {
            Some(k) => match &self.open_projects[k].tests {
                Some(groups) => linear_tests(groups),
                None => Vec::new(),
            },
            None => Vec::new(),
        };
        let mut items: Vec<TestListItem> = Vec::new();
        let mut i: usize = 0;
        while i < tests.len()
            invariant
                tests@ == self@.shown_tests(),
                i <= tests@.len(),
                items@.len() == i,
                forall|j: int|
                    0 <= j < i ==> (#[trigger] items@[j]).index == j && items@[j].test_data == tests@[j],
            decreases tests@.len() - i,
        {
            items.push(TestListItem { index: i, test_data: clone_test(&tests[i]) });
            i += 1;
        }
        items
    }
}

} // verus!
