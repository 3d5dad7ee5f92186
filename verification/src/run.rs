//! A test run, from the click to the results.
//!
//! The state decides what to run and what becomes of the outcome. Running the
//! tests is the caller's part: it takes the request that `begin_run` hands out,
//! runs it, and hands the outcome to `finish_run`, together with the id of the
//! project that the request named. The results go to that project, whatever the
//! user has put on show in the meantime.

use crate::alert::AlertSeverity;
use crate::alert::AlertType;
use crate::alert::AlertView;
use crate::model::StateView;
use crate::run_args::flag_list;
use crate::state::State;
use crate::text::byte_lists;
use crate::text::clone_bytes;
use crate::text::texts;
use cargo_ptest::parse::ParsedTestGroup;
use vstd::prelude::*;
use vstd::string::*;

verus! {

/// How long an alert shows that goes away by itself, in milliseconds.
pub const ALERT_TIME: u64 = 5000;

/// What to run: the tests of the project with the id `project_id`, which lies
/// in the folder whose path has the bytes `dir`, with the arguments `args`. The id goes back to
/// `finish_run` with the outcome, so that the results reach the project that was
/// run.
#[derive(Debug)]
pub struct RunRequest {
    pub project_id: u32,
    pub dir: Vec<u8>,
    pub args: Vec<String>,
}

/// The alert that reports a run that failed with the error `error`.
pub open spec fn run_failure(error: Seq<char>) -> AlertView {
    AlertView {
        title: Some("cargo_ptest: RunError"@),
        message: "Could not run tests: "@ + error,
        severity: AlertSeverity::ERROR,
        kind: AlertType::Timed(ALERT_TIME),
    }
}

/// The alert that reports that no folder came back from the folder dialog.
pub open spec fn no_folder() -> AlertView {
    AlertView {
        title: None,
        message: "Could not open this path"@,
        severity: AlertSeverity::ERROR,
        kind: AlertType::Timed(ALERT_TIME),
    }
}

impl StateView {
    /// The state while a run is under way.
    pub open spec fn begin_run(self) -> StateView {
        StateView { running: true, ..self }
    }

    /// The state after a run of the project with this id that ended well: its
    /// results are stored in that project, whichever project is on show by now,
    /// and no run is under way.
    pub open spec fn finish_run(self, id: u32, groups: Seq<ParsedTestGroup>) -> StateView {
        StateView { running: false, ..self.set_tests(id, groups) }
    }

    /// The state after a run that failed: an alert reports the error. Nothing
    /// else changes.
    pub open spec fn fail_run(self, error: Seq<char>) -> StateView {
        self.with_alert(run_failure(error))
    }
}

impl State {
    /// Starts a run of the active project's tests: marks the state as running
    /// and says what to run. Without an active project there is nothing to run,
    /// and nothing changes. A run that is under way does not stand in the way of
    /// another.
    pub fn begin_run(&mut self) -> (request: Option<RunRequest>)
        ensures
            match request {
                Some(run) => {
                    &&& old(self)@.active_project() matches Some(project)
                    &&& run.project_id == project.id
                    &&& run.dir@ == project.path
                    &&& texts(run.args@) == flag_list(old(self)@.run_args)
                    &&& final(self)@ == old(self)@.begin_run()
                },
                None => old(self)@.active_project().is_none() && final(self)@ == old(self)@,
            },
            old(self)@.wf() ==> final(self)@.wf(),
    {
        match self.active_index() {
            Some(k) => {
                let project_id: u32 = self.open_projects[k].id;
                let dir = clone_bytes(&self.open_projects[k].path);
                let args = self.run_args.into_vec();
                self.status.running_tests = true;
                Some(RunRequest { project_id, dir, args })
            },
            None => None,
        }
    }

    /// Takes in the outcome of the run of the project with the id `id`, the one
    /// that `begin_run` named in its request. Results go to that project, and
    /// the run is over. An error is shown as an alert; the answer is then the
    /// time in milliseconds after which the alert is to be cleared.
    pub fn finish_run(&mut self, id: u32, outcome: Result<Vec<ParsedTestGroup>, String>) -> (clear_after: Option<
        u64,
    >)
        ensures
            match outcome {
                Ok(groups) => final(self)@ == old(self)@.finish_run(id, groups@) && clear_after.is_none(),
                Err(error) => final(self)@ == old(self)@.fail_run(error@) && clear_after == Some(ALERT_TIME),
            },
            old(self)@.wf() ==> final(self)@.wf(),
    {
        match outcome {
            Ok(groups) => {
                self.set_tests(id, groups);
                self.status.running_tests = false;
                None
            },
            Err(error) => {
                let title = String::from_str("cargo_ptest: RunError");
                let mut message = String::from_str("Could not run tests: ");
                message.append(error.as_str());
                self.alert_error(Some(title), message, Some(ALERT_TIME));
                Some(ALERT_TIME)
            },
        }
    }

    /// Takes in what the folder dialog gave: opens each folder, or, where the
    /// dialog gave none, shows an alert. The answer is then the time in
    /// milliseconds after which the alert is to be cleared.
    pub fn open_folders(&mut self, picked: Option<Vec<Vec<u8>>>) -> (clear_after: Option<u64>)
        requires
            picked matches Some(paths) ==> old(self)@.can_add_all(byte_lists(paths@)),
        ensures
            match picked {
                Some(paths) => final(self)@ == old(self)@.add_projects_by_path(byte_lists(paths@))
                    && clear_after.is_none(),
                None => final(self)@ == old(self)@.with_alert(no_folder()) && clear_after == Some(ALERT_TIME),
            },
            old(self)@.wf() ==> final(self)@.wf(),
    {
        match picked {
            Some(paths) => {
                self.add_projects_by_path(&paths);
                None
            },
            None => {
                self.alert_error(None, String::from_str("Could not open this path"), Some(ALERT_TIME));
                Some(ALERT_TIME)
            },
        }
    }
}

} // verus!
