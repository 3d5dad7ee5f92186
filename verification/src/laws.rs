//! What holds of the state's operations, whatever the state.
//!
//! Each law is stated of the state as mathematics, which is what the operations
//! of the state are held to.

use crate::alert::AlertView;
use crate::model::change_id;
use crate::model::distinct_ids;
use crate::model::has_id;
use crate::model::has_path;
use crate::model::max_id;
use crate::model::with_id;
use crate::model::without_id;
use crate::model::ProjectView;
use crate::model::StateView;
use crate::model::NO_PROJECT;
use crate::persist::kept;
use cargo_ptest::parse::ParsedTestGroup;
use vstd::prelude::*;

verus! {

/// What a filter lets through was there before, and meets the filter.
proof fn lemma_filtered_was_there(projects: Seq<ProjectView>, pred: spec_fn(ProjectView) -> bool, k: int)
    requires
        0 <= k < projects.filter(pred).len(),
    ensures
        pred(projects.filter(pred)[k]),
        exists|i: int| 0 <= i < projects.len() && #[trigger] projects[i] == projects.filter(pred)[k],
{
    let found = projects.filter(pred)[k];
    projects.lemma_filter_pred(pred, k);
    assert(projects.filter(pred).contains(found));
    projects.lemma_filter_contains_rev(pred, found);
    let i = choose|i: int| 0 <= i < projects.len() && projects[i] == found;
    assert(projects[i] == found);
}

/// What meets a filter gets through it.
proof fn lemma_kept_is_there(projects: Seq<ProjectView>, pred: spec_fn(ProjectView) -> bool, i: int)
    requires
        0 <= i < projects.len(),
        pred(projects[i]),
    ensures
        exists|k: int| 0 <= k < projects.filter(pred).len() && #[trigger] projects.filter(pred)[k] == projects[i],
{
    projects.lemma_filter_contains(pred, i);
    let k = choose|k: int| 0 <= k < projects.filter(pred).len() && projects.filter(pred)[k] == projects[i];
    assert(projects.filter(pred)[k] == projects[i]);
}

/// A filter leaves distinct ids distinct.
proof fn lemma_filter_keeps_distinct(projects: Seq<ProjectView>, pred: spec_fn(ProjectView) -> bool)
    requires
        distinct_ids(projects),
    ensures
        distinct_ids(projects.filter(pred)),
    decreases projects.len(),
{
    reveal(Seq::filter);
    if projects.len() > 0 {
        let front = projects.drop_last();
        let last = projects.last();
        assert(distinct_ids(front)) by {
            assert forall|i: int, j: int| 0 <= i < j < front.len() implies (#[trigger] front[i]).id != (
            #[trigger] front[j]).id by {
                assert(front[i] == projects[i]);
                assert(front[j] == projects[j]);
            }
        }
        lemma_filter_keeps_distinct(front, pred);
        if pred(last) {
            let kept = front.filter(pred);
            let all = projects.filter(pred);
            assert(all == kept.push(last));
            assert forall|i: int, j: int| 0 <= i < j < all.len() implies (#[trigger] all[i]).id != (
            #[trigger] all[j]).id by {
                if j < kept.len() {
                    assert(all[i] == kept[i]);
                    assert(all[j] == kept[j]);
                } else {
                    assert(all[i] == kept[i]);
                    lemma_filtered_was_there(front, pred, i);
                    let k = choose|k: int| 0 <= k < front.len() && #[trigger] front[k] == kept[i];
                    assert(projects[k] == front[k]);
                    assert(projects[projects.len() - 1] == last);
                }
            }
        }
    }
}

/// Among distinct ids, no id is had twice.
proof fn lemma_at_most_one(projects: Seq<ProjectView>, id: u32)
    requires
        distinct_ids(projects),
    ensures
        with_id(projects, id).len() <= 1,
{
    let found = with_id(projects, id);
    let pred = |p: ProjectView| p.id == id;
    lemma_filter_keeps_distinct(projects, pred);
    if found.len() >= 2 {
        lemma_filtered_was_there(projects, pred, 0);
        lemma_filtered_was_there(projects, pred, 1);
        assert(found[0].id != found[1].id);
    }
}

/// An id is in use just when the list of its projects is not empty.
proof fn lemma_has_id_is_found(projects: Seq<ProjectView>, id: u32)
    ensures
        has_id(projects, id) <==> with_id(projects, id).len() > 0,
{
    let pred = |p: ProjectView| p.id == id;
    if has_id(projects, id) {
        let i = choose|i: int| 0 <= i < projects.len() && (#[trigger] projects[i]).id == id;
        lemma_kept_is_there(projects, pred, i);
    }
    if with_id(projects, id).len() > 0 {
        lemma_filtered_was_there(projects, pred, 0);
        let i = choose|i: int| 0 <= i < projects.len() && #[trigger] projects[i] == projects.filter(pred)[0];
        assert(projects[i].id == id);
    }
}

/// No project's id is above the largest.
pub proof fn lemma_max_id_bounds(projects: Seq<ProjectView>)
    ensures
        0 <= max_id(projects) <= u32::MAX,
        forall|i: int| 0 <= i < projects.len() ==> (#[trigger] projects[i]).id <= max_id(projects),
    decreases projects.len(),
{
    if projects.len() > 0 {
        let front = projects.drop_last();
        lemma_max_id_bounds(front);
        assert forall|i: int| 0 <= i < projects.len() implies (#[trigger] projects[i]).id <= max_id(
            projects,
        ) by {
            if i < front.len() {
                assert(projects[i] == front[i]);
            }
        }
    }
}

/// A change to the projects of one id leaves every id where it was.
proof fn lemma_change_keeps_ids(
    projects: Seq<ProjectView>,
    id: u32,
    change: spec_fn(ProjectView) -> ProjectView,
)
    requires
        forall|p: ProjectView| (#[trigger] change(p)).id == p.id,
    ensures
        change_id(projects, id, change).len() == projects.len(),
        forall|i: int| 0 <= i < projects.len() ==> (#[trigger] change_id(projects, id, change)[i]).id == projects[i].id,
        distinct_ids(projects) ==> distinct_ids(change_id(projects, id, change)),
        forall|other: u32| has_id(change_id(projects, id, change), other) <==> has_id(projects, other),
{
    let changed = change_id(projects, id, change);
    assert forall|other: u32| has_id(changed, other) <==> has_id(projects, other) by {
        if has_id(changed, other) {
            let i = choose|i: int| 0 <= i < changed.len() && (#[trigger] changed[i]).id == other;
            assert(projects[i].id == other);
        }
        if has_id(projects, other) {
            let i = choose|i: int| 0 <= i < projects.len() && (#[trigger] projects[i]).id == other;
            assert(changed[i].id == other);
        }
    }
    if distinct_ids(projects) {
        assert forall|i: int, j: int| 0 <= i < j < changed.len() implies (#[trigger] changed[i]).id != (
        #[trigger] changed[j]).id by {
            assert(projects[i].id != projects[j].id);
        }
    }
}

/// A change to the projects of one id changes the one project that has it.
proof fn lemma_change_of_found(
    projects: Seq<ProjectView>,
    id: u32,
    change: spec_fn(ProjectView) -> ProjectView,
    target: u32,
)
    requires
        forall|p: ProjectView| (#[trigger] change(p)).id == p.id,
    ensures
        with_id(change_id(projects, id, change), target).len() == with_id(projects, target).len(),
        with_id(projects, target).len() > 0 ==> with_id(change_id(projects, id, change), target)[0] == (if target
            == id {
            change(with_id(projects, target)[0])
        } else {
            with_id(projects, target)[0]
        }),
    decreases projects.len(),
{
    reveal(Seq::filter);
    let pred = |p: ProjectView| p.id == target;
    let changed = change_id(projects, id, change);
    if projects.len() > 0 {
        let front = projects.drop_last();
        lemma_change_of_found(front, id, change, target);
        assert(changed.drop_last() =~= change_id(front, id, change));
        assert(changed.last().id == projects.last().id);
    }
}

/// Setting the active project to an id that no project has changes nothing.
pub proof fn law_unknown_id_is_ignored(state: StateView, id: u32)
    requires
        !has_id(state.projects, id),
    ensures
        state.set_active_project(id) == state,
{
}

/// Setting the active project to the id of a project makes that id the active
/// one, changes nothing else, and keeps a sound state sound.
pub proof fn law_known_id_becomes_active(state: StateView, id: u32)
    requires
        has_id(state.projects, id),
    ensures
        state.set_active_project(id).active == id,
        state.set_active_project(id).projects == state.projects,
        state.wf() ==> state.set_active_project(id).wf(),
{
}

/// Removing the active project makes the first project left the active one, and
/// none where none is left. Removing another leaves the active one as it was.
/// Either way no project with the removed id is left, the others stay in their
/// order, and a sound state stays sound.
pub proof fn law_remove_reassigns_active(state: StateView, id: u32)
    ensures
        state.remove_project(id).projects == without_id(state.projects, id),
        !has_id(state.remove_project(id).projects, id),
        id == state.active && without_id(state.projects, id).len() > 0 ==> state.remove_project(id).active
            == without_id(state.projects, id)[0].id,
        id == state.active && without_id(state.projects, id).len() == 0 ==> state.remove_project(id).active
            == NO_PROJECT,
        id != state.active ==> state.remove_project(id).active == state.active,
        state.wf() ==> state.remove_project(id).wf(),
{
    let keep = |p: ProjectView| p.id != id;
    let rest = without_id(state.projects, id);
    let after = state.remove_project(id);
    if has_id(rest, id) {
        let k = choose|k: int| 0 <= k < rest.len() && (#[trigger] rest[k]).id == id;
        lemma_filtered_was_there(state.projects, keep, k);
    }
    if state.wf() {
        lemma_filter_keeps_distinct(state.projects, keep);
        if has_id(rest, NO_PROJECT) {
            let k = choose|k: int| 0 <= k < rest.len() && (#[trigger] rest[k]).id == NO_PROJECT;
            lemma_filtered_was_there(state.projects, keep, k);
            let i = choose|i: int| 0 <= i < state.projects.len() && #[trigger] state.projects[i] == rest[k];
            assert(state.projects[i].id == NO_PROJECT);
        }
        if id != state.active && state.active != NO_PROJECT {
            let i = choose|i: int| 0 <= i < state.projects.len() && (#[trigger] state.projects[i]).id == state.active;
            lemma_kept_is_there(state.projects, keep, i);
            let k = choose|k: int| 0 <= k < rest.len() && #[trigger] rest[k] == state.projects[i];
            assert(rest[k].id == state.active);
        }
        if id == state.active && rest.len() > 0 {
            assert(rest[0].id == after.active);
        }
    }
}

/// Clearing the tests of an id leaves every project of that id without results
/// and without a selection, leaves the other projects and the rest of the state
/// as they were, and keeps a sound state sound.
pub proof fn law_clear_resets_tests_and_selection(state: StateView, id: u32)
    ensures
        state.clear_tests(id).projects.len() == state.projects.len(),
        forall|i: int|
            0 <= i < state.projects.len() && state.projects[i].id == id ==> (#[trigger] state.clear_tests(
                id,
            ).projects[i]) == ProjectView::fresh(id, state.projects[i].path),
        forall|i: int|
            0 <= i < state.projects.len() && state.projects[i].id != id ==> (#[trigger] state.clear_tests(
                id,
            ).projects[i]) == state.projects[i],
        state.clear_tests(id).active == state.active,
        id == state.active ==> state.clear_tests(id).selected_test().is_none(),
        id == state.active ==> state.clear_tests(id).tests_run().is_none(),
        state.wf() ==> state.clear_tests(id).wf(),
{
    let change = |p: ProjectView| p.cleared();
    lemma_change_keeps_ids(state.projects, id, change);
    lemma_change_of_found(state.projects, id, change, state.active);
}

/// New results for an id replace the old ones in every project of that id and
/// drop its selection; the other projects and the rest of the state stay as they
/// were, and a sound state stays sound.
pub proof fn law_new_results_drop_selection(state: StateView, id: u32, tests: Seq<ParsedTestGroup>)
    ensures
        state.set_tests(id, tests).projects.len() == state.projects.len(),
        forall|i: int|
            0 <= i < state.projects.len() && state.projects[i].id == id ==> (#[trigger] state.set_tests(
                id,
                tests,
            ).projects[i]) == (ProjectView {
                tests: Some(tests),
                selected_test: None,
                ..state.projects[i]
            }),
        forall|i: int|
            0 <= i < state.projects.len() && state.projects[i].id != id ==> (#[trigger] state.set_tests(
                id,
                tests,
            ).projects[i]) == state.projects[i],
        state.set_tests(id, tests).active == state.active,
        id == state.active ==> state.set_tests(id, tests).selected_test().is_none(),
        state.wf() ==> state.set_tests(id, tests).wf(),
{
    let change = |p: ProjectView| p.with_tests(tests);
    lemma_change_keeps_ids(state.projects, id, change);
    lemma_change_of_found(state.projects, id, change, state.active);
}

/// A selection changes the active project's selection and nothing else, and
/// keeps a sound state sound. The selected test is then the one at that index of
/// the active project's tests, where the list reaches that far.
pub proof fn law_selection(state: StateView, selection: Option<usize>)
    ensures
        state.select(selection).active == state.active,
        state.select(selection).projects.len() == state.projects.len(),
        forall|i: int|
            0 <= i < state.projects.len() ==> (#[trigger] state.select(selection).projects[i]) == (if state.projects[i].id
                == state.active {
                state.projects[i].selecting(selection)
            } else {
                state.projects[i]
            }),
        state.select(selection).active_project() == (match state.active_project() {
            Some(project) => Some(project.selecting(selection)),
            None => None,
        }),
        state.wf() ==> state.select(selection).wf(),
{
    let change = |p: ProjectView| p.selecting(selection);
    lemma_change_keeps_ids(state.projects, state.active, change);
    lemma_change_of_found(state.projects, state.active, change, state.active);
}

/// In a sound state a project is on show just when the active id is not 0, and
/// the project on show is one of the open projects and has the active id.
pub proof fn law_active_project(state: StateView)
    requires
        state.wf(),
    ensures
        state.active_project().is_some() <==> state.active != NO_PROJECT,
        state.active_project() matches Some(project) ==> project.id == state.active && state.projects.contains(
            project,
        ),
{
    lemma_at_most_one(state.projects, state.active);
    lemma_has_id_is_found(state.projects, state.active);
    if state.active_project().is_some() {
        lemma_filtered_was_there(state.projects, |p: ProjectView| p.id == state.active, 0);
    }
}

/// Adding a project puts it behind the others and makes it the active one. The
/// state stays sound where the project's id is not 0 and not in use.
pub proof fn law_add_project(state: StateView, project: ProjectView)
    ensures
        state.add_project(project).projects == state.projects.push(project),
        state.add_project(project).active == project.id,
        state.wf() && project.id != NO_PROJECT && !has_id(state.projects, project.id) ==> state.add_project(
            project,
        ).wf(),
{
    let after = state.add_project(project);
    if state.wf() && project.id != NO_PROJECT && !has_id(state.projects, project.id) {
        assert forall|i: int, j: int| 0 <= i < j < after.projects.len() implies (#[trigger] after.projects[i]).id
            != (#[trigger] after.projects[j]).id by {
            if j < state.projects.len() {
                assert(state.projects[i].id != state.projects[j].id);
            } else {
                assert(state.projects[i].id != project.id);
            }
        }
        if has_id(after.projects, NO_PROJECT) {
            let i = choose|i: int| 0 <= i < after.projects.len() && (#[trigger] after.projects[i]).id == NO_PROJECT;
            if i < state.projects.len() {
                assert(state.projects[i].id == NO_PROJECT);
            }
        }
        assert(after.projects[state.projects.len() as int].id == project.id);
    }
}

/// Opening a folder that is open already changes nothing. Opening another adds
/// a project without results, whose id is above all ids in use, and makes it the
/// active one; a sound state stays sound.
pub proof fn law_open_folder(state: StateView, path: Seq<u8>)
    requires
        state.can_add(path),
    ensures
        has_path(state.projects, path) ==> state.add_project_by_path(path) == state,
        !has_path(state.projects, path) ==> {
            &&& state.add_project_by_path(path).projects == state.projects.push(
                ProjectView::fresh((max_id(state.projects) + 1) as u32, path),
            )
            &&& state.add_project_by_path(path).active == max_id(state.projects) + 1
            &&& !has_id(state.projects, state.add_project_by_path(path).active)
        },
        has_path(state.add_project_by_path(path).projects, path),
        state.wf() ==> state.add_project_by_path(path).wf(),
{
    lemma_max_id_bounds(state.projects);
    if !has_path(state.projects, path) {
        let id = (max_id(state.projects) + 1) as u32;
        let project = ProjectView::fresh(id, path);
        if has_id(state.projects, id) {
            let i = choose|i: int| 0 <= i < state.projects.len() && (#[trigger] state.projects[i]).id == id;
            assert(state.projects[i].id <= max_id(state.projects));
        }
        law_add_project(state, project);
        let after = state.add_project_by_path(path);
        assert(after.projects[state.projects.len() as int].path == path);
    }
}

/// Opening folders one after the other keeps a sound state sound, and leaves
/// each of the folders open.
pub proof fn law_open_folders(state: StateView, paths: Seq<Seq<u8>>)
    requires
        state.can_add_all(paths),
    ensures
        state.wf() ==> state.add_projects_by_path(paths).wf(),
        forall|k: int| 0 <= k < paths.len() ==> has_path(state.add_projects_by_path(paths).projects, #[trigger] paths[k]),
    decreases paths.len(),
{
    if paths.len() > 0 {
        let front = paths.drop_last();
        let before = state.add_projects_by_path(front);
        let after = state.add_projects_by_path(paths);
        law_open_folders(state, front);
        law_open_folder(before, paths.last());
        assert forall|k: int| 0 <= k < paths.len() implies has_path(after.projects, #[trigger] paths[k]) by {
            if k < front.len() {
                assert(front[k] == paths[k]);
                let i = choose|i: int| 0 <= i < before.projects.len() && (#[trigger] before.projects[i]).path == paths[k];
                if !has_path(before.projects, paths.last()) {
                    assert(after.projects[i] == before.projects[i]);
                }
            }
        }
    }
}

/// What is saved and loaded again has the same projects in the same order, each
/// with its id and its path, and the same active id; results and selections are
/// not kept. A sound state is sound again after the reload.
pub proof fn law_reload(state: StateView)
    ensures
        StateView::loaded(kept(state.projects), state.active).active == state.active,
        StateView::loaded(kept(state.projects), state.active).projects.len() == state.projects.len(),
        forall|i: int|
            0 <= i < state.projects.len() ==> (#[trigger] StateView::loaded(
                kept(state.projects),
                state.active,
            ).projects[i]) == ProjectView::fresh(state.projects[i].id, state.projects[i].path),
        state.wf() ==> StateView::loaded(kept(state.projects), state.active).wf(),
{
    let after = StateView::loaded(kept(state.projects), state.active);
    if state.wf() {
        assert forall|i: int, j: int| 0 <= i < j < after.projects.len() implies (#[trigger] after.projects[i]).id
            != (#[trigger] after.projects[j]).id by {
            assert(state.projects[i].id != state.projects[j].id);
        }
        if has_id(after.projects, NO_PROJECT) {
            let i = choose|i: int| 0 <= i < after.projects.len() && (#[trigger] after.projects[i]).id == NO_PROJECT;
            assert(state.projects[i].id == NO_PROJECT);
        }
        if state.active != NO_PROJECT {
            let i = choose|i: int| 0 <= i < state.projects.len() && (#[trigger] state.projects[i]).id == state.active;
            assert(after.projects[i].id == state.active);
        }
    }
}

/// An alert, shown or cleared, leaves the projects and the active id alone.
pub proof fn law_alerts_leave_projects(state: StateView, alert: AlertView)
    ensures
        state.with_alert(alert).projects == state.projects,
        state.with_alert(alert).active == state.active,
        state.with_alert(alert).alert == Some(alert),
        state.without_alert().projects == state.projects,
        state.without_alert().active == state.active,
        state.without_alert().alert.is_none(),
        state.wf() ==> state.with_alert(alert).wf() && state.without_alert().wf(),
{
}

/// A run that ends well stores its results in the project that was run, drops
/// that project's selection and ends the run. The project on show and its
/// selection are touched only where it is the one that was run. A run that fails
/// shows an alert and changes nothing else. A sound state stays sound through a
/// run.
pub proof fn law_run(state: StateView, id: u32, groups: Seq<ParsedTestGroup>, error: Seq<char>)
    ensures
        state.begin_run().running,
        state.begin_run().projects == state.projects,
        state.begin_run().active == state.active,
        !state.finish_run(id, groups).running,
        state.finish_run(id, groups).active == state.active,
        state.finish_run(id, groups).projects == state.set_tests(id, groups).projects,
        forall|i: int|
            0 <= i < state.projects.len() ==> (#[trigger] state.finish_run(id, groups).projects[i]) == (if state.projects[i].id
                == id {
                state.projects[i].with_tests(groups)
            } else {
                state.projects[i]
            }),
        id == state.active ==> state.finish_run(id, groups).selected_test().is_none(),
        id != state.active ==> state.finish_run(id, groups).active_project() == state.active_project(),
        id != state.active ==> state.finish_run(id, groups).selected_test() == state.selected_test(),
        state.fail_run(error).projects == state.projects,
        state.fail_run(error).running == state.running,
        state.fail_run(error).alert.is_some(),
        state.wf() ==> state.begin_run().wf() && state.finish_run(id, groups).wf() && state.fail_run(error).wf(),
{
    law_new_results_drop_selection(state, id, groups);
    let change = |p: ProjectView| p.with_tests(groups);
    lemma_change_of_found(state.projects, id, change, state.active);
    let stored = state.set_tests(id, groups);
    assert(state.finish_run(id, groups).active_project() == stored.active_project());
}

} // verus!
