//! What holds of the commands taken together.
//!
//! The engine never touches the disk, so these statements are about what it
//! asks for: which operations a command plans, in which order, and when a run
//! hands them out. That a copy duplicates bytes and a removal removes is the
//! filesystem's part.

use vstd::prelude::*;
use crate::commands::{
    after_paste, cd_outcome, clip_outcome, clipped, editable_check, editor_outcome, landing,
    new_dir_check, new_dirs_outcome, new_file_check, new_files_outcome, paste_outcome,
    paste_verdicts, remove_outcome, rename_outcome, transfer, transfers,
};
use crate::judging::{
    file_check, file_verdicts, first_rejection, first_rejection_is_earliest, rejected_at,
};
use crate::errors::{
    copy_failed, missing_file, stale_source, wrong_arity, CommandErrorView, ErrorKind,
};
use crate::lookups::{answer, arity_of, wanted};
use crate::parser::Verb;
use crate::paths::ResolvedView;
use crate::plan::{ops_of, FsOpView, RunView, StepView};
use crate::types::{ClipEntryView, StateView};

verus! {

/// The operations that the outcome of a command asks for: those of its
/// steps, and none where the command was refused.
pub open spec fn requested(outcome: Result<Seq<StepView>, CommandErrorView>) -> Seq<FsOpView> {
    match outcome {
        Ok(steps) => ops_of(steps),
        Err(_) => Seq::empty(),
    }
}

/// A run that has carried out nothing yet.
pub open spec fn fresh(steps: Seq<StepView>) -> RunView {
    RunView { steps, done: 0, failed: false }
}

/// Removing a single file that does not resolve is refused as a failure to
/// resolve a path, and asks nothing of the filesystem.
pub proof fn remove_of_missing_file_is_refused(
    tail: Seq<Seq<char>>,
    found: Seq<Option<ResolvedView>>,
)
    requires
        tail.len() == 1,
        answer(found, 0) is None,
    ensures
        remove_outcome(tail, found) == Err::<Seq<StepView>, CommandErrorView>(missing_file()),
        missing_file().kind == ErrorKind::PathResolution,
        requested(remove_outcome(tail, found)).len() == 0,
{
    let verdicts = file_verdicts(1, found);
    assert(verdicts.take(0) =~= Seq::empty());
    rejected_at(verdicts, 0);
}

/// A removal is all or nothing. It is accepted exactly when there is at least
/// one argument and every argument resolves to something that is no directory;
/// then it deletes each of them, in order, and nothing else. Otherwise, be it
/// for a single argument among many, it asks nothing of the filesystem.
pub proof fn remove_is_all_or_nothing(tail: Seq<Seq<char>>, found: Seq<Option<ResolvedView>>)
    ensures
        remove_outcome(tail, found) is Ok <==> {
            &&& tail.len() >= 1
            &&& forall|i: int|
                0 <= i < tail.len() ==> (#[trigger] answer(found, i)) is Some && !answer(
                    found,
                    i,
                )->0.is_dir
        },
        remove_outcome(tail, found) is Ok ==> requested(remove_outcome(tail, found)) == Seq::new(
            tail.len(),
            |i: int| FsOpView::RemoveFile { path: answer(found, i)->0.path },
        ),
        remove_outcome(tail, found) is Err ==> requested(remove_outcome(tail, found)).len() == 0,
{
    let verdicts = file_verdicts(tail.len(), found);
    first_rejection_is_earliest(verdicts);
    if tail.len() >= 1 {
        if first_rejection(verdicts) is None {
            assert forall|i: int| 0 <= i < tail.len() implies (#[trigger] answer(found, i)) is Some
                && !answer(found, i)->0.is_dir by {
                assert(verdicts[i] is None);
            }
            assert(requested(remove_outcome(tail, found)) =~= Seq::new(
                tail.len(),
                |i: int| FsOpView::RemoveFile { path: answer(found, i)->0.path },
            ));
        } else {
            let k = choose|k: int|
                0 <= k < verdicts.len() && verdicts[k] == first_rejection(verdicts);
            assert(file_check(answer(found, k)) is Some);
        }
    }
}

/// A command with the wrong number of arguments is refused for that, whatever
/// its arguments are and whatever was found for them.
pub proof fn wrong_count_is_refused_first(
    verb: Verb,
    tail: Seq<Seq<char>>,
    found: Seq<Option<ResolvedView>>,
    state: StateView,
    is_cut: bool,
    editor: Option<Seq<char>>,
)
    requires
        !arity_of(verb).accepts(tail.len()),
    ensures
        wanted(verb, tail, state.cwd) == Err::<Seq<Option<Seq<char>>>, CommandErrorView>(
            wrong_arity(arity_of(verb)),
        ),
        wrong_arity(arity_of(verb)).kind == ErrorKind::ArgumentCount,
        verb == Verb::CD ==> cd_outcome(tail, found) == Err::<Seq<char>, CommandErrorView>(
            wrong_arity(arity_of(verb)),
        ),
        verb == Verb::RM ==> remove_outcome(tail, found) == Err::<
            Seq<StepView>,
            CommandErrorView,
        >(wrong_arity(arity_of(verb))),
        verb == Verb::CP || verb == Verb::CT ==> clip_outcome(tail, found, is_cut, state) == Err::<
            StateView,
            CommandErrorView,
        >(wrong_arity(arity_of(verb))),
        verb == Verb::PS ==> paste_outcome(tail, state) == Err::<Seq<StepView>, CommandErrorView>(
            wrong_arity(arity_of(verb)),
        ) && after_paste(tail, state) == state,
        verb == Verb::RN ==> rename_outcome(tail, found) == Err::<
            Seq<StepView>,
            CommandErrorView,
        >(wrong_arity(arity_of(verb))),
        verb == Verb::NF ==> new_files_outcome(tail, found) == Err::<
            Seq<StepView>,
            CommandErrorView,
        >(wrong_arity(arity_of(verb))),
        verb == Verb::ND ==> new_dirs_outcome(tail, found) == Err::<
            Seq<StepView>,
            CommandErrorView,
        >(wrong_arity(arity_of(verb))),
        verb == Verb::ED ==> editor_outcome(tail, found, editor) == Err::<
            Seq<StepView>,
            CommandErrorView,
        >(wrong_arity(arity_of(verb))),
{
}

/// One bad argument refuses the whole command. Where any argument of a
/// removal, a clip, an edit or a creation is rejected, the command is refused
/// and asks nothing of the filesystem, however many of its other arguments
/// would have passed.
pub proof fn one_rejection_refuses_the_command(
    tail: Seq<Seq<char>>,
    found: Seq<Option<ResolvedView>>,
    state: StateView,
    is_cut: bool,
    editor: Option<Seq<char>>,
    k: int,
)
    requires
        0 <= k < tail.len(),
    ensures
        file_check(answer(found, k)) is Some ==> {
            &&& remove_outcome(tail, found) is Err
            &&& requested(remove_outcome(tail, found)).len() == 0
            &&& clip_outcome(tail, found, is_cut, state) is Err
        },
        editable_check(tail[k], answer(found, k)) is Some ==> {
            &&& editor_outcome(tail, found, editor) is Err
            &&& requested(editor_outcome(tail, found, editor)).len() == 0
        },
        new_file_check(tail[k], answer(found, k)) is Some ==> {
            &&& new_files_outcome(tail, found) is Err
            &&& requested(new_files_outcome(tail, found)).len() == 0
        },
        new_dir_check(tail[k], answer(found, k)) is Some ==> {
            &&& new_dirs_outcome(tail, found) is Err
            &&& requested(new_dirs_outcome(tail, found)).len() == 0
        },
{
    let files = file_verdicts(tail.len(), found);
    first_rejection_is_earliest(files);
    assert(files[k] == file_check(answer(found, k)));
    let edits = Seq::new(tail.len(), |i: int| editable_check(tail[i], answer(found, i)));
    first_rejection_is_earliest(edits);
    assert(edits[k] == editable_check(tail[k], answer(found, k)));
    let new_files = Seq::new(tail.len(), |i: int| new_file_check(tail[i], answer(found, i)));
    first_rejection_is_earliest(new_files);
    assert(new_files[k] == new_file_check(tail[k], answer(found, k)));
    let new_dirs = Seq::new(tail.len(), |i: int| new_dir_check(tail[i], answer(found, i)));
    first_rejection_is_earliest(new_dirs);
    assert(new_dirs[k] == new_dir_check(tail[k], answer(found, k)));
}

/// Where a path does not resolve, the command that names it alone is refused
/// with a failure to resolve a path.
pub proof fn unresolved_path_is_reported(
    tail: Seq<Seq<char>>,
    found: Seq<Option<ResolvedView>>,
    state: StateView,
    is_cut: bool,
    editor: Option<Seq<char>>,
)
    requires
        tail.len() == 1,
        answer(found, 0) is None,
    ensures
        cd_outcome(tail, found) matches Err(error) && error.kind == ErrorKind::PathResolution,
        remove_outcome(tail, found) matches Err(error) && error.kind == ErrorKind::PathResolution,
        clip_outcome(tail, found, is_cut, state) matches Err(error) && error.kind
            == ErrorKind::PathResolution,
        editor_outcome(tail, found, editor) matches Err(error) && error.kind
            == ErrorKind::PathResolution,
{
    let verdicts = file_verdicts(1, found);
    assert(verdicts.take(0) =~= Seq::empty());
    rejected_at(verdicts, 0);
    let edits = Seq::new(tail.len(), |i: int| editable_check(tail[i], answer(found, i)));
    assert(edits.take(0) =~= Seq::empty());
    rejected_at(edits, 0);
}

/// A rename whose source does not resolve is refused in the same way.
pub proof fn unresolved_source_is_reported(
    tail: Seq<Seq<char>>,
    found: Seq<Option<ResolvedView>>,
)
    requires
        tail.len() == 2,
        answer(found, 0) is None,
    ensures
        rename_outcome(tail, found) matches Err(error) && error.kind == ErrorKind::PathResolution,
{
}

/// Pasting an empty clipboard succeeds and does nothing: no step is planned,
/// the session stays as it is, and a run of no steps has ended in success
/// before anything is carried out.
pub proof fn paste_of_empty_clipboard_does_nothing(state: StateView)
    requires
        state.clip.len() == 0,
    ensures
        paste_outcome(Seq::empty(), state) == Ok::<Seq<StepView>, CommandErrorView>(Seq::empty()),
        after_paste(Seq::empty(), state) == state,
        !fresh(Seq::empty()).is_pending(),
        fresh(Seq::empty()).verdict() == Some(Ok::<(), CommandErrorView>(())),
{
    assert(paste_verdicts(state.clip) =~= Seq::empty());
    assert(after_paste(Seq::empty(), state) =~= state);
}

/// Only files get onto the clipboard: where a clip is accepted, every one of
/// its arguments resolved, and to something that is no directory.
pub proof fn clipped_entries_are_files(
    tail: Seq<Seq<char>>,
    found: Seq<Option<ResolvedView>>,
    state: StateView,
    is_cut: bool,
    k: int,
)
    requires
        clip_outcome(tail, found, is_cut, state) is Ok,
        0 <= k < tail.len(),
    ensures
        answer(found, k) is Some,
        !answer(found, k)->0.is_dir,
        clip_outcome(tail, found, is_cut, state)->Ok_0.clip[state.clip.len() + k]
            == (ClipEntryView { path: answer(found, k)->0.path, name: tail[k], is_cut }),
{
    let verdicts = file_verdicts(tail.len(), found);
    first_rejection_is_earliest(verdicts);
    assert(verdicts[k] is None);
}

/// Only a change of directory moves the session. Clipping files and pasting
/// them leave the current directory where it is.
pub proof fn only_cd_moves_the_session(
    tail: Seq<Seq<char>>,
    found: Seq<Option<ResolvedView>>,
    state: StateView,
    is_cut: bool,
)
    ensures
        clip_outcome(tail, found, is_cut, state) matches Ok(next) ==> next.cwd == state.cwd,
        after_paste(tail, state).cwd == state.cwd,
{
}

/// How many steps it takes to paste `entries`.
pub open spec fn step_count(entries: Seq<ClipEntryView>) -> nat
    decreases entries.len(),
{
    if entries.len() == 0 {
        0
    } else {
        step_count(entries.drop_last()) + if entries.last().is_cut {
            2nat
        } else {
            1nat
        }
    }
}

/// The steps of entry `i` stand together among the steps of all entries, after
/// those of the entries before it.
pub proof fn transfers_hold_each_entry(entries: Seq<ClipEntryView>, dir: Seq<char>, i: int)
    requires
        0 <= i < entries.len(),
    ensures
        transfers(entries, dir).len() == step_count(entries),
        step_count(entries.take(i)) + transfer(entries[i], dir).len() <= step_count(entries),
        forall|k: int|
            0 <= k < transfer(entries[i], dir).len() ==> transfers(entries, dir)[step_count(
                entries.take(i),
            ) + k] == #[trigger] transfer(entries[i], dir)[k],
    decreases entries.len(),
{
    let shorter = entries.drop_last();
    transfers_count(entries, dir);
    transfers_count(shorter, dir);
    if i == entries.len() - 1 {
        assert(entries.take(i) =~= shorter);
    } else {
        transfers_hold_each_entry(shorter, dir, i);
        assert(shorter.take(i) =~= entries.take(i));
        assert(shorter[i] == entries[i]);
    }
}

/// Pasting takes one step for each copied entry and two for each cut one.
pub proof fn transfers_count(entries: Seq<ClipEntryView>, dir: Seq<char>)
    ensures
        transfers(entries, dir).len() == step_count(entries),
    decreases entries.len(),
{
    if entries.len() > 0 {
        transfers_count(entries.drop_last(), dir);
    }
}

/// Every step of a paste stems from an entry of the clipboard: it duplicates
/// the file of an entry, or removes the file of a cut entry.
pub proof fn transfers_stem_from_entries(entries: Seq<ClipEntryView>, dir: Seq<char>, s: int)
    requires
        0 <= s < transfers(entries, dir).len(),
    ensures
        exists|i: int|
            0 <= i < entries.len() && {
                ||| transfers(entries, dir)[s].op == (FsOpView::CopyFile {
                    from: (#[trigger] entries[i]).path,
                    to: landing(entries[i].path, dir),
                })
                ||| entries[i].is_cut && transfers(entries, dir)[s].op == (FsOpView::RemoveFile {
                    path: entries[i].path,
                })
            },
    decreases entries.len(),
{
    let shorter = entries.drop_last();
    let last = entries.len() - 1;
    if s < transfers(shorter, dir).len() {
        transfers_stem_from_entries(shorter, dir, s);
        let i = choose|i: int|
            0 <= i < shorter.len() && {
                ||| transfers(shorter, dir)[s].op == (FsOpView::CopyFile {
                    from: (#[trigger] shorter[i]).path,
                    to: landing(shorter[i].path, dir),
                })
                ||| shorter[i].is_cut && transfers(shorter, dir)[s].op == (FsOpView::RemoveFile {
                    path: shorter[i].path,
                })
            };
        assert(entries[i] == shorter[i]);
    } else {
        let k = s - transfers(shorter, dir).len();
        assert(transfers(entries, dir)[s] == transfer(entries[last], dir)[k]);
        assert(entries[last] == entries.last());
    }
}

/// Copy, then paste. For every file that a copy clipped, the paste that comes
/// next, in whichever directory the session then is, plans one duplication of
/// that file into that directory, under the file's own name. And it plans no
/// removal of that file, unless the clipboard held the same file as cut
/// before.
pub proof fn copy_then_paste_duplicates(
    tail: Seq<Seq<char>>,
    found: Seq<Option<ResolvedView>>,
    state: StateView,
    dir: Seq<char>,
    k: int,
)
    requires
        0 <= k < tail.len(),
        clip_outcome(tail, found, false, state) is Ok,
        paste_outcome(
            Seq::empty(),
            StateView { cwd: dir, clip: clip_outcome(tail, found, false, state)->Ok_0.clip },
        ) is Ok,
        forall|j: int|
            0 <= j < state.clip.len() && state.clip[j].is_cut ==> (#[trigger] state.clip[j]).path
                != answer(found, k)->0.path,
    ensures
        ({
            let source = answer(found, k)->0.path;
            let plan = paste_outcome(
                Seq::empty(),
                StateView { cwd: dir, clip: clip_outcome(tail, found, false, state)->Ok_0.clip },
            )->Ok_0;
            &&& exists|s: int|
                0 <= s < plan.len() && (#[trigger] plan[s]).op == (FsOpView::CopyFile {
                    from: source,
                    to: landing(source, dir),
                })
            &&& forall|s: int|
                0 <= s < plan.len() ==> (#[trigger] plan[s]).op != (FsOpView::RemoveFile {
                    path: source,
                })
        }),
{
    let source = answer(found, k)->0.path;
    let clip = clip_outcome(tail, found, false, state)->Ok_0.clip;
    let plan = transfers(clip, dir);
    let at = state.clip.len() + k;
    assert(clip == state.clip + clipped(tail, found, false));
    assert(clip[at] == clipped(tail, found, false)[k]);
    transfers_hold_each_entry(clip, dir, at);
    let s0 = step_count(clip.take(at)) as int;
    assert(plan[s0 + 0] == transfer(clip[at], dir)[0]);
    assert(plan[s0].op == (FsOpView::CopyFile { from: source, to: landing(source, dir) }));
    assert forall|s: int| 0 <= s < plan.len() implies (#[trigger] plan[s]).op
        != (FsOpView::RemoveFile { path: source }) by {
        transfers_stem_from_entries(clip, dir, s);
        let i = choose|i: int|
            0 <= i < clip.len() && {
                ||| plan[s].op == (FsOpView::CopyFile {
                    from: (#[trigger] clip[i]).path,
                    to: landing(clip[i].path, dir),
                })
                ||| clip[i].is_cut && plan[s].op == (FsOpView::RemoveFile { path: clip[i].path })
            };
        if clip[i].is_cut && plan[s].op == (FsOpView::RemoveFile { path: clip[i].path }) {
            if i < state.clip.len() {
                assert(clip[i] == state.clip[i]);
            } else {
                assert(clip[i] == clipped(tail, found, false)[i - state.clip.len()]);
            }
        }
    }
}

/// Cut, then paste. For every file that a cut clipped, the paste that comes
/// next plans one duplication of that file into the session's directory,
/// under the file's own name, and as the very next step the removal of the
/// file at its source. Both failures name the file as the user typed it, and
/// a failed removal is reported as a stale source, a class of its own.
pub proof fn cut_then_paste_moves(
    tail: Seq<Seq<char>>,
    found: Seq<Option<ResolvedView>>,
    state: StateView,
    dir: Seq<char>,
    k: int,
)
    requires
        0 <= k < tail.len(),
        clip_outcome(tail, found, true, state) is Ok,
        paste_outcome(
            Seq::empty(),
            StateView { cwd: dir, clip: clip_outcome(tail, found, true, state)->Ok_0.clip },
        ) is Ok,
    ensures
        ({
            let source = answer(found, k)->0.path;
            let plan = paste_outcome(
                Seq::empty(),
                StateView { cwd: dir, clip: clip_outcome(tail, found, true, state)->Ok_0.clip },
            )->Ok_0;
            exists|s: int|
                {
                    &&& 0 <= s && s + 1 < plan.len()
                    &&& (#[trigger] plan[s]).op == (FsOpView::CopyFile {
                        from: source,
                        to: landing(source, dir),
                    })
                    &&& plan[s].failure == copy_failed(tail[k])
                    &&& plan[s + 1].op == (FsOpView::RemoveFile { path: source })
                    &&& plan[s + 1].failure == stale_source(tail[k])
                    &&& stale_source(tail[k]).kind == ErrorKind::PartialCompletion
                }
        }),
{
    let source = answer(found, k)->0.path;
    let clip = clip_outcome(tail, found, true, state)->Ok_0.clip;
    let plan = transfers(clip, dir);
    let at = state.clip.len() + k;
    assert(clip == state.clip + clipped(tail, found, true));
    assert(clip[at] == clipped(tail, found, true)[k]);
    transfers_hold_each_entry(clip, dir, at);
    let s0 = step_count(clip.take(at)) as int;
    assert(plan[s0 + 0] == transfer(clip[at], dir)[0]);
    assert(plan[s0 + 1] == transfer(clip[at], dir)[1]);
    assert(plan[s0].op == (FsOpView::CopyFile { from: source, to: landing(source, dir) }));
    assert(plan[s0].failure == copy_failed(tail[k]));
    assert(plan[s0 + 1].op == (FsOpView::RemoveFile { path: source }));
    assert(plan[s0 + 1].failure == stale_source(tail[k]));
    assert(s0 + 1 < plan.len());
    assert(stale_source(tail[k]).kind == ErrorKind::PartialCompletion);
    let planned = paste_outcome(
        Seq::empty(),
        StateView { cwd: dir, clip: clip_outcome(tail, found, true, state)->Ok_0.clip },
    )->Ok_0;
    assert(planned == plan);
    assert({
        &&& 0 <= s0 && s0 + 1 < planned.len()
        &&& (#[trigger] planned[s0]).op == (FsOpView::CopyFile {
            from: source,
            to: landing(source, dir),
        })
        &&& planned[s0].failure == copy_failed(tail[k])
        &&& planned[s0 + 1].op == (FsOpView::RemoveFile { path: source })
        &&& planned[s0 + 1].failure == stale_source(tail[k])
        &&& stale_source(tail[k]).kind == ErrorKind::PartialCompletion
    });
}

/// Reports after the end of a run change nothing.
pub proof fn ended_run_stays(run: RunView, answers: Seq<bool>)
    requires
        !run.is_pending(),
    ensures
        run.after(answers) == run,
    decreases answers.len(),
{
    if answers.len() > 0 {
        ended_run_stays(run, answers.drop_last());
    }
}

/// The first failure ends a run for good: once a step has failed nothing is
/// pending, whatever is reported afterwards, and the verdict is the failure of
/// that step.
pub proof fn failure_ends_the_run(run: RunView, answers: Seq<bool>)
    requires
        run.wf(),
        run.is_pending(),
    ensures
        !run.settled(false).after(answers).is_pending(),
        run.settled(false).after(answers).verdict() == Some(
            Err::<(), CommandErrorView>(run.steps[run.done as int].failure),
        ),
        run.settled(false).after(answers).done == run.done,
{
    ended_run_stays(run.settled(false), answers);
}

/// A run goes through its steps in order and never skips one. After any
/// reports, the steps counted as done are as many as the reports of success
/// that came before the first report of failure, and never fewer than before:
/// what was done is not undone. A step is pending only while every report so
/// far was a success.
pub proof fn run_keeps_order(steps: Seq<StepView>, answers: Seq<bool>)
    ensures
        fresh(steps).after(answers).wf(),
        fresh(steps).after(answers).steps == steps,
        fresh(steps).after(answers).done <= answers.len(),
        forall|i: int|
            0 <= i < fresh(steps).after(answers).done ==> #[trigger] answers[i],
        fresh(steps).after(answers).is_pending() ==> fresh(steps).after(answers).done
            == answers.len(),
        fresh(steps).after(answers).failed ==> fresh(steps).after(answers).done < answers.len()
            && !answers[fresh(steps).after(answers).done as int],
        answers.len() > 0 ==> fresh(steps).after(answers.drop_last()).done <= fresh(steps).after(
            answers,
        ).done,
    decreases answers.len(),
{
    if answers.len() > 0 {
        let earlier = answers.drop_last();
        run_keeps_order(steps, earlier);
        let before = fresh(steps).after(earlier);
        let now = fresh(steps).after(answers);
        assert(now == before.settled(answers.last()));
        assert forall|i: int| 0 <= i < now.done implies #[trigger] answers[i] by {
            if i < before.done {
                assert(earlier[i]);
            }
        }
        if now.failed {
            if before.failed {
                assert(!earlier[before.done as int]);
            }
        }
    }
}

} // verus!
