//! An open project: a folder, and the results of its latest test run.

use crate::model::ProjectView;
use crate::paths::last_component;
use crate::paths::last_component_of;
use crate::paths::path_string_of;
use crate::paths::path_to_text;
use crate::paths::shown_text;
use crate::paths::text_of;
use crate::paths::SEPARATOR;
use crate::paths::WINDOWS_SEPARATOR;
use crate::results::clone_groups;
use crate::text::clone_bytes;
use crate::results::linear_tests;
use cargo_ptest::parse::ParsedTest;
use cargo_ptest::parse::ParsedTestGroup;
use vstd::prelude::*;
use vstd::string::*;

verus! {

/// A folder that the user opened, with the results of its latest test run.
#[derive(Debug)]
pub struct Project {
    /// Tells the open projects apart. 0 stands for no project.
    pub id: u32,
    /// The folder: the bytes of its path, as the file system has them.
    pub path: Vec<u8>,
    /// The results of the latest run; `None` before the first and after a clear.
    pub tests: Option<Vec<ParsedTestGroup>>,
    /// Index of the selected test in the list that `tests_linear` returns.
    pub selected_test: Option<usize>,
}

/// The groups that an optional list holds.
pub open spec fn opt_groups(groups: Option<Vec<ParsedTestGroup>>) -> Option<Seq<ParsedTestGroup>> {
    match groups {
        Some(list) => Some(list@),
        None => None,
    }
}

/// The tests that an optional list holds.
pub open spec fn opt_tests(tests: Option<Vec<ParsedTest>>) -> Option<Seq<ParsedTest>> {
    match tests {
        Some(list) => Some(list@),
        None => None,
    }
}

/// What an optional project is seen as.
pub open spec fn opt_project(project: Option<Project>) -> Option<ProjectView> {
    match project {
        Some(p) => Some(p@),
        None => None,
    }
}

/// The separator that splits a path into components on this kind of system.
pub open spec fn separator_for(windows: bool) -> char {
    if windows {
        WINDOWS_SEPARATOR
    } else {
        SEPARATOR
    }
}

/// The name that a path shows on a tab.
pub open spec fn shown_name(path: Seq<u8>, windows: bool) -> Seq<char> {
    match text_of(path) {
        Some(text) => last_component(text, separator_for(windows)),
        None => "ERROR"@,
    }
}

impl View for Project {
    type V = ProjectView;

    open spec fn view(&self) -> ProjectView {
        ProjectView {
            id: self.id,
            path: self.path@,
            tests: opt_groups(self.tests),
            selected_test: self.selected_test,
        }
    }
}

impl Project {
    /// A project for the folder at `path`, without results.
    pub fn new(id: u32, path: Vec<u8>) -> (project: Self)
        ensures
            project@ == ProjectView::fresh(id, path@),
    {
        Project { id, path, tests: None, selected_test: None }
    }

    /// The name on the project's tab: the last component of its path, split at
    /// the backslash on Windows and at the slash elsewhere; the word `ERROR` for
    /// a path that spells no text.
    pub fn display_name(&self, windows: bool) -> (name: String)
        ensures
            name@ == shown_name(self@.path, windows),
    {
        let sep = if windows {
            WINDOWS_SEPARATOR
        } else {
            SEPARATOR
        };
        match path_to_text(&self.path) {
            Some(text) => last_component_of(text.as_str(), sep),
            None => String::from_str("ERROR"),
        }
    }

    /// The project's path as text; the word `ERROR` for a path that spells none.
    pub fn path_string(&self) -> (text: String)
        ensures
            text@ == shown_text(self@.path),
    {
        path_string_of(&self.path)
    }

    /// The tests of all groups in one list, in the order of the groups; `None`
    /// where the project has no results.
    pub fn tests_linear(&self) -> (tests: Option<Vec<ParsedTest>>)
        ensures
            opt_tests(tests) == self@.tests_linear(),
    {
        match &self.tests {
            Some(groups) => Some(linear_tests(groups)),
            None => None,
        }
    }
}

impl Default for Project {
    /// The project that stands for none: id 0, an empty path, no results.
    fn default() -> (project: Self)
        ensures
            project@ == ProjectView::fresh(0, Seq::<u8>::empty()),
    {
        Project { id: 0, path: Vec::new(), tests: None, selected_test: None }
    }
}

impl Clone for Project {
    fn clone(&self) -> (copy: Self)
        ensures
            copy@ == self@,
    {
        let tests = match &self.tests {
            Some(groups) => Some(clone_groups(groups)),
            None => None,
        };
        Project { id: self.id, path: clone_bytes(&self.path), tests, selected_test: self.selected_test }
    }
}

} // verus!
