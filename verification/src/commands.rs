//! One function per verb.
//!
//! Every verb first checks how many arguments it was given. A verb with
//! path arguments then judges each of them by what the caller found on disk
//! for it, and gives up on the first one it rejects: nothing is asked of the
//! filesystem unless every argument passed. What is to be done then comes back
//! as a list of steps for a [`Run`](crate::plan::Run).

use vstd::prelude::*;
use vstd::string::*;
use crate::errors::{
    arity_error, copy_failed, copy_failed_error, create_dir_failed, create_dir_failed_error,
    create_file_failed, create_file_failed_error, delete_failed, delete_failed_error,
    editor_failed, editor_failed_error, missing_dir, missing_dir_error, missing_file,
    missing_file_error, missing_parent_of_dir, missing_parent_of_dir_error,
    missing_parent_of_file, missing_parent_of_file_error, names_no_dir, names_no_dir_error,
    names_no_file, names_no_file_error, no_parent, no_parent_error, not_a_directory,
    not_a_directory_error, not_a_file, not_a_file_error, rename_failed, rename_failed_error,
    stale_source, stale_source_error, unprocessable, unprocessable_error, wrong_arity, Arity,
    CommandError, CommandErrorView,
};
use crate::judging::{
    checked_files, file_verdicts, first_rejection, found_paths, passed_at, rejected_at,
};
use crate::lookups::{answer, answer_at};
use crate::paths::{
    ends_in_separator, ends_with_separator, file_name, final_component, join, joined, parent,
    parent_path, Resolved, ResolvedView,
};
use crate::plan::{planned, FsOp, FsOpView, Step, StepView};
use crate::text::{framed, prefixed};
use crate::types::{ClipEntryView, State, StateView};

verus! {

/// The step that deletes the file at `path`.
pub open spec fn removal(path: Seq<char>) -> StepView {
    StepView {
        op: FsOpView::RemoveFile { path },
        failure: delete_failed(path),
        notice: Some("Successfully removed file "@ + path),
    }
}

/// What `rm` comes to: one deletion for each argument, in order, if there is at
/// least one argument and each is an existing file; otherwise the first thing
/// that is wrong.
pub open spec fn remove_outcome(
    tail: Seq<Seq<char>>,
    found: Seq<Option<ResolvedView>>,
) -> Result<Seq<StepView>, CommandErrorView> {
    if !Arity::OneOrMore.accepts(tail.len()) {
        Err(wrong_arity(Arity::OneOrMore))
    } else {
        match first_rejection(file_verdicts(tail.len(), found)) {
            Some(error) => Err(error),
            None => Ok(Seq::new(tail.len(), |i: int| removal(answer(found, i)->0.path))),
        }
    }
}

/// `rm`: removes files.
pub fn remove_files(tail: Vec<String>, found: &Vec<Option<Resolved>>) -> (result: Result<
    Vec<Step>,
    CommandError,
>)
    ensures
        planned(result) == remove_outcome(tail.deep_view(), found.deep_view()),
{
    if !Arity::OneOrMore.admits(tail.len()) {
        return Err(arity_error(Arity::OneOrMore));
    }
    let paths = match checked_files(tail.len(), found) {
        Ok(paths) => paths,
        Err(error) => {
            return Err(error);
        },
    };
    let mut steps: Vec<Step> = Vec::new();
    let mut i: usize = 0;
    while i < paths.len()
        invariant
            i <= paths.len(),
            steps.deep_view() == Seq::new(i as nat, |k: int| removal(paths.deep_view()[k])),
        decreases paths.len() - i,
    {
        let ghost so_far = steps.deep_view();
        let path = paths[i].as_str();
        let step = Step {
            op: FsOp::RemoveFile { path: path.to_owned() },
            failure: delete_failed_error(path),
            notice: Some(prefixed("Successfully removed file ", path)),
        };
        assert(step@ =~= removal(paths.deep_view()[i as int]));
        steps.push(step);
        assert(steps.deep_view() =~= so_far.push(removal(paths.deep_view()[i as int])));
        assert(steps.deep_view() =~= Seq::new(
            (i + 1) as nat,
            |k: int| removal(paths.deep_view()[k]),
        ));
        i = i + 1;
    }
    proof {
        let wanted = Seq::new(
            tail.deep_view().len(),
            |i: int| removal(answer(found.deep_view(), i)->0.path),
        );
        assert(paths.deep_view().len() == tail.len());
        assert forall|k: int| 0 <= k < wanted.len() implies steps.deep_view()[k] == wanted[k] by {
            assert(paths.deep_view()[k] == found_paths(tail.len() as nat, found.deep_view())[k]);
        }
        assert(steps.deep_view() =~= wanted);
    }
    Ok(steps)
}

/// The clipboard entries that clipping `tail` makes: one for each argument, with
/// the path found for it and the argument itself as its name.
pub open spec fn clipped(
    tail: Seq<Seq<char>>,
    found: Seq<Option<ResolvedView>>,
    is_cut: bool,
) -> Seq<ClipEntryView> {
    Seq::new(
        tail.len(),
        |i: int| ClipEntryView { path: answer(found, i)->0.path, name: tail[i], is_cut },
    )
}

/// What `cp` and `ct` come to: the session with one more clipboard entry for
/// each argument, in order, if there is at least one argument and each is an
/// existing file; otherwise the first thing that is wrong.
pub open spec fn clip_outcome(
    tail: Seq<Seq<char>>,
    found: Seq<Option<ResolvedView>>,
    is_cut: bool,
    state: StateView,
) -> Result<StateView, CommandErrorView> {
    if !Arity::OneOrMore.accepts(tail.len()) {
        Err(wrong_arity(Arity::OneOrMore))
    } else {
        match first_rejection(file_verdicts(tail.len(), found)) {
            Some(error) => Err(error),
            None => Ok(
                StateView { cwd: state.cwd, clip: state.clip + clipped(tail, found, is_cut) },
            ),
        }
    }
}

/// Clips the files of `tail`, to be copied or, with `is_cut`, moved by the next
/// paste. A refused command leaves the session as it was.
pub fn add_to_clip(
    tail: Vec<String>,
    found: &Vec<Option<Resolved>>,
    state: &mut State,
    is_cut: bool,
) -> (result: Result<(), CommandError>)
    ensures
        match result {
            Ok(_) => clip_outcome(tail.deep_view(), found.deep_view(), is_cut, old(state)@)
                == Ok::<StateView, CommandErrorView>(final(state)@),
            Err(error) => {
                &&& clip_outcome(tail.deep_view(), found.deep_view(), is_cut, old(state)@)
                    == Err::<StateView, CommandErrorView>(error@)
                &&& final(state)@ == old(state)@
            },
        },
{
    if !Arity::OneOrMore.admits(tail.len()) {
        return Err(arity_error(Arity::OneOrMore));
    }
    let paths = match checked_files(tail.len(), found) {
        Ok(paths) => paths,
        Err(error) => {
            return Err(error);
        },
    };
    let ghost entries = clipped(tail.deep_view(), found.deep_view(), is_cut);
    let mut i: usize = 0;
    assert(state@.clip =~= old(state)@.clip + entries.take(0));
    while i < tail.len()
        invariant
            i <= tail.len(),
            paths.deep_view() == found_paths(tail.len() as nat, found.deep_view()),
            entries == clipped(tail.deep_view(), found.deep_view(), is_cut),
            state@.cwd == old(state)@.cwd,
            state@.clip == old(state)@.clip + entries.take(i as int),
        decreases tail.len() - i,
    {
        let ghost before = state@.clip;
        assert(paths.deep_view().len() == tail.len());
        assert(paths.deep_view()[i as int] == answer(found.deep_view(), i as int)->0.path);
        state.add_to_clip(paths[i].clone(), tail[i].clone(), is_cut);
        assert(state@.clip =~= old(state)@.clip + entries.take(i + 1)) by {
            assert(entries.take(i + 1) =~= entries.take(i as int).push(entries[i as int]));
        }
        i = i + 1;
    }
    assert(entries.take(tail.len() as int) =~= entries);
    assert(state@ =~= (StateView { cwd: old(state)@.cwd, clip: old(state)@.clip + entries }));
    Ok(())
}

/// `cp`: clips files to be copied.
pub fn copy(
    tail: Vec<String>,
    found: &Vec<Option<Resolved>>,
    state: &mut State,
) -> (result: Result<(), CommandError>)
    ensures
        match result {
            Ok(_) => clip_outcome(tail.deep_view(), found.deep_view(), false, old(state)@)
                == Ok::<StateView, CommandErrorView>(final(state)@),
            Err(error) => {
                &&& clip_outcome(tail.deep_view(), found.deep_view(), false, old(state)@)
                    == Err::<StateView, CommandErrorView>(error@)
                &&& final(state)@ == old(state)@
            },
        },
{
    add_to_clip(tail, found, state, false)
}

/// `ct`: clips files to be moved.
pub fn cut(
    tail: Vec<String>,
    found: &Vec<Option<Resolved>>,
    state: &mut State,
) -> (result: Result<(), CommandError>)
    ensures
        match result {
            Ok(_) => clip_outcome(tail.deep_view(), found.deep_view(), true, old(state)@)
                == Ok::<StateView, CommandErrorView>(final(state)@),
            Err(error) => {
                &&& clip_outcome(tail.deep_view(), found.deep_view(), true, old(state)@)
                    == Err::<StateView, CommandErrorView>(error@)
                &&& final(state)@ == old(state)@
            },
        },
{
    add_to_clip(tail, found, state, true)
}

/// What the user is told when `file` was copied into `dir`.
pub open spec fn copied_notice(file: Seq<char>, dir: Seq<char>) -> Seq<char> {
    "Successfully copied file "@ + file + " to "@ + dir
}

/// What the user is told when `file` was moved into `dir`.
pub open spec fn moved_notice(file: Seq<char>, dir: Seq<char>) -> Seq<char> {
    "Successfully moved file "@ + file + " to "@ + dir
}

/// Where a clipped file lands in `dir`: under its own final component.
pub open spec fn landing(path: Seq<char>, dir: Seq<char>) -> Seq<char> {
    joined(dir, final_component(path)->0)
}

/// The steps that take the file `source` to `target` in `dir`. A copied file
/// is duplicated. A cut file is duplicated and then, as a step of its own that
/// is only reached when the duplicate exists, removed at its source. What is
/// said of the file calls it `name`.
pub open spec fn transfer_to(
    source: Seq<char>,
    target: Seq<char>,
    name: Seq<char>,
    is_cut: bool,
    dir: Seq<char>,
) -> Seq<StepView> {
    let duplicate = FsOpView::CopyFile { from: source, to: target };
    if is_cut {
        seq![
            StepView { op: duplicate, failure: copy_failed(name), notice: None },
            StepView {
                op: FsOpView::RemoveFile { path: source },
                failure: stale_source(name),
                notice: Some(moved_notice(name, dir)),
            },
        ]
    } else {
        seq![
            StepView {
                op: duplicate,
                failure: copy_failed(name),
                notice: Some(copied_notice(name, dir)),
            },
        ]
    }
}

/// The steps that paste one clipboard entry into `dir`. The entry goes by the
/// name the user typed when clipping it.
pub open spec fn transfer(entry: ClipEntryView, dir: Seq<char>) -> Seq<StepView> {
    transfer_to(entry.path, landing(entry.path, dir), entry.name, entry.is_cut, dir)
}

/// The steps that paste `entries` into `dir`, entry after entry.
pub open spec fn transfers(entries: Seq<ClipEntryView>, dir: Seq<char>) -> Seq<StepView>
    decreases entries.len(),
{
    if entries.len() == 0 {
        Seq::empty()
    } else {
        transfers(entries.drop_last(), dir) + transfer(entries.last(), dir)
    }
}

/// The verdicts on clipboard entries: an entry can be pasted if its path has
/// a final component to paste it under.
pub open spec fn paste_verdicts(entries: Seq<ClipEntryView>) -> Seq<Option<CommandErrorView>> {
    Seq::new(
        entries.len(),
        |i: int|
            if final_component(entries[i].path) is None {
                Some(not_a_file(entries[i].name))
            } else {
                None
            },
    )
}

/// What `ps` comes to: the transfers of all clipboard entries into the current
/// directory, if there is no argument and every entry can be pasted; otherwise
/// the first thing that is wrong.
pub open spec fn paste_outcome(tail: Seq<Seq<char>>, state: StateView) -> Result<
    Seq<StepView>,
    CommandErrorView,
> {
    if !Arity::ExactlyZero.accepts(tail.len()) {
        Err(wrong_arity(Arity::ExactlyZero))
    } else {
        match first_rejection(paste_verdicts(state.clip)) {
            Some(error) => Err(error),
            None => Ok(transfers(state.clip, state.cwd)),
        }
    }
}

/// The session after `ps`: the clipboard is emptied in one step, whatever
/// becomes of the entries, unless the command had arguments.
pub open spec fn after_paste(tail: Seq<Seq<char>>, state: StateView) -> StateView {
    if Arity::ExactlyZero.accepts(tail.len()) {
        StateView { cwd: state.cwd, clip: Seq::empty() }
    } else {
        state
    }
}

/// Appends the steps of [`transfer_to`] to `steps`.
fn push_transfer(
    steps: &mut Vec<Step>,
    source: &str,
    target: String,
    name: &str,
    is_cut: bool,
    dir: &str,
)
    ensures
        final(steps).deep_view() == old(steps).deep_view() + transfer_to(
            source@,
            target@,
            name@,
            is_cut,
            dir@,
        ),
{
    let ghost before = steps.deep_view();
    let duplicate = FsOp::CopyFile { from: source.to_owned(), to: target };
    if is_cut {
        let mut notice = framed("Successfully moved file ", name, " to ");
        notice.append(dir);
        let first = Step { op: duplicate, failure: copy_failed_error(name), notice: None };
        let second = Step {
            op: FsOp::RemoveFile { path: source.to_owned() },
            failure: stale_source_error(name),
            notice: Some(notice),
        };
        let ghost pair = seq![first@, second@];
        steps.push(first);
        steps.push(second);
        assert(steps.deep_view() =~= before + pair);
    } else {
        let mut notice = framed("Successfully copied file ", name, " to ");
        notice.append(dir);
        let only = Step { op: duplicate, failure: copy_failed_error(name), notice: Some(notice) };
        let ghost single = seq![only@];
        steps.push(only);
        assert(steps.deep_view() =~= before + single);
    }
}

/// `ps`: pastes the clipboard into the current directory.
pub fn paste(tail: Vec<String>, state: &mut State) -> (result: Result<Vec<Step>, CommandError>)
    ensures
        planned(result) == paste_outcome(tail.deep_view(), old(state)@),
        final(state)@ == after_paste(tail.deep_view(), old(state)@),
{
    if !Arity::ExactlyZero.admits(tail.len()) {
        return Err(arity_error(Arity::ExactlyZero));
    }
    let entries = state.clear_clip();
    assert(state@ =~= after_paste(tail.deep_view(), old(state)@));
    let dir = state.get_cwd_str();
    let ghost clip = old(state)@.clip;
    let ghost verdicts = paste_verdicts(clip);
    let mut steps: Vec<Step> = Vec::new();
    let mut i: usize = 0;
    assert(verdicts.take(0) =~= Seq::empty());
    assert(clip.take(0) =~= Seq::empty());
    assert(steps.deep_view() =~= transfers(clip.take(0), dir@));
    while i < entries.len()
        invariant
            i <= entries.len(),
            tail.len() == 0,
            state@ == after_paste(tail.deep_view(), old(state)@),
            clip == old(state)@.clip,
            dir@ == old(state)@.cwd,
            entries.deep_view() == clip,
            verdicts == paste_verdicts(clip),
            first_rejection(verdicts.take(i as int)) is None,
            steps.deep_view() == transfers(clip.take(i as int), dir@),
        decreases entries.len() - i,
    {
        let entry = &entries[i];
        assert(entry@ == clip[i as int]);
        let source = entry.get_path();
        match file_name(source.as_str()) {
            None => {
                proof {
                    rejected_at(verdicts, i as int);
                }
                return Err(not_a_file_error(entry.get_name()));
            },
            Some(name) => {
                let target = join(dir.as_str(), name.as_str());
                push_transfer(
                    &mut steps,
                    source.as_str(),
                    target,
                    entry.get_name(),
                    entry.is_cut(),
                    dir.as_str(),
                );
            },
        }
        proof {
            passed_at(verdicts, i as int);
            assert(clip.take(i + 1).drop_last() =~= clip.take(i as int));
            assert(clip.take(i + 1).last() == clip[i as int]);
        }
        i = i + 1;
    }
    assert(verdicts.take(entries.len() as int) =~= verdicts);
    assert(clip.take(entries.len() as int) =~= clip);
    Ok(steps)
}

/// What `cd` comes to: the canonical path of the directory to enter, if there
/// is exactly one argument and it resolves to a directory.
pub open spec fn cd_outcome(tail: Seq<Seq<char>>, found: Seq<Option<ResolvedView>>) -> Result<
    Seq<char>,
    CommandErrorView,
> {
    if !Arity::ExactlyOne.accepts(tail.len()) {
        Err(wrong_arity(Arity::ExactlyOne))
    } else {
        match answer(found, 0) {
            None => Err(missing_dir()),
            Some(resolved) => if resolved.is_dir {
                Ok(resolved.path)
            } else {
                Err(not_a_directory(tail[0]))
            },
        }
    }
}

/// `cd`: makes the directory named by the one argument the current directory,
/// and hands back its path for the caller to list. A refused command leaves
/// the session as it was. The clipboard is never touched.
pub fn change_directory(
    tail: Vec<String>,
    found: &Vec<Option<Resolved>>,
    state: &mut State,
) -> (result: Result<String, CommandError>)
    ensures
        match result {
            Ok(dir) => {
                &&& cd_outcome(tail.deep_view(), found.deep_view()) == Ok::<
                    Seq<char>,
                    CommandErrorView,
                >(dir@)
                &&& final(state)@ == (StateView { cwd: dir@, clip: old(state)@.clip })
            },
            Err(error) => {
                &&& cd_outcome(tail.deep_view(), found.deep_view()) == Err::<
                    Seq<char>,
                    CommandErrorView,
                >(error@)
                &&& final(state)@ == old(state)@
            },
        },
{
    if !Arity::ExactlyOne.admits(tail.len()) {
        return Err(arity_error(Arity::ExactlyOne));
    }
    match answer_at(found, 0) {
        None => Err(missing_dir_error()),
        Some(resolved) => {
            if resolved.is_dir {
                state.set_cwd(resolved.path.clone());
                assert(state@ =~= (StateView { cwd: resolved.path@, clip: old(state)@.clip }));
                Ok(resolved.path.clone())
            } else {
                assert(tail[0]@ == tail.deep_view()[0]);
                Err(not_a_directory_error(tail[0].as_str()))
            }
        },
    }
}

/// `ls`: hands back the current directory for the caller to list, if there is
/// no argument.
pub fn list_files(tail: Vec<String>, state: &State) -> (result: Result<String, CommandError>)
    ensures
        match result {
            Ok(dir) => tail.len() == 0 && dir@ == state@.cwd,
            Err(error) => tail.len() != 0 && error@ == wrong_arity(Arity::ExactlyZero),
        },
{
    if !Arity::ExactlyZero.admits(tail.len()) {
        return Err(arity_error(Arity::ExactlyZero));
    }
    Ok(state.get_cwd_str())
}

/// `qt`: raises the flag that ends the session, if there is no argument.
/// Otherwise the flag stays as it was.
pub fn quit(tail: Vec<String>, quit_flag: &mut bool) -> (result: Result<(), CommandError>)
    ensures
        match result {
            Ok(_) => tail.len() == 0 && *final(quit_flag),
            Err(error) => {
                &&& tail.len() != 0
                &&& error@ == wrong_arity(Arity::ExactlyZero)
                &&& *final(quit_flag) == *old(quit_flag)
            },
        },
{
    if !Arity::ExactlyZero.admits(tail.len()) {
        return Err(arity_error(Arity::ExactlyZero));
    }
    *quit_flag = true;
    Ok(())
}

/// What `rn` comes to: one rename of the file that the first argument
/// resolves to, to the second argument as it was typed, if there are exactly
/// two arguments and the first resolves.
pub open spec fn rename_outcome(
    tail: Seq<Seq<char>>,
    found: Seq<Option<ResolvedView>>,
) -> Result<Seq<StepView>, CommandErrorView> {
    if !Arity::ExactlyTwo.accepts(tail.len()) {
        Err(wrong_arity(Arity::ExactlyTwo))
    } else {
        match answer(found, 0) {
            None => Err(missing_file()),
            Some(resolved) => Ok(
                seq![
                    StepView {
                        op: FsOpView::Rename { from: resolved.path, to: tail[1] },
                        failure: rename_failed(),
                        notice: None,
                    },
                ],
            ),
        }
    }
}

/// `rn`: renames a file. Only the source is resolved: the new name is handed
/// to the filesystem as it stands, so a relative one is not taken against the
/// session's current directory.
pub fn rename(tail: Vec<String>, found: &Vec<Option<Resolved>>) -> (result: Result<
    Vec<Step>,
    CommandError,
>)
    ensures
        planned(result) == rename_outcome(tail.deep_view(), found.deep_view()),
{
    if !Arity::ExactlyTwo.admits(tail.len()) {
        return Err(arity_error(Arity::ExactlyTwo));
    }
    match answer_at(found, 0) {
        None => Err(missing_file_error()),
        Some(resolved) => {
            assert(tail[1]@ == tail.deep_view()[1]);
            let step = Step {
                op: FsOp::Rename { from: resolved.path.clone(), to: tail[1].clone() },
                failure: rename_failed_error(),
                notice: None,
            };
            let ghost single = seq![step@];
            let mut steps: Vec<Step> = Vec::new();
            steps.push(step);
            assert(steps.deep_view() =~= single);
            Ok(steps)
        },
    }
}

/// Whether a path names a file: it has a final component, and does not end
/// in a separator as the path of a directory does.
pub open spec fn names_a_file(path: Seq<char>) -> bool {
    final_component(path) is Some && !ends_with_separator(path)
}

/// The verdict on the path of a file to create, given what was found for its
/// parent: the path must have a parent, the parent must resolve, and the path
/// must name a file.
pub open spec fn new_file_check(argument: Seq<char>, found: Option<ResolvedView>) -> Option<
    CommandErrorView,
> {
    if parent_path(argument) is None {
        Some(no_parent())
    } else if found is None {
        Some(missing_parent_of_file(argument))
    } else if !names_a_file(argument) {
        Some(names_no_file(argument))
    } else {
        None
    }
}

/// The verdict on the path of a directory to create, given what was found for
/// its parent: the path must have a final component and a parent, and the
/// parent must resolve.
pub open spec fn new_dir_check(argument: Seq<char>, found: Option<ResolvedView>) -> Option<
    CommandErrorView,
> {
    if final_component(argument) is None {
        Some(names_no_dir())
    } else if parent_path(argument) is None {
        Some(no_parent())
    } else if found is None {
        Some(missing_parent_of_dir(argument))
    } else {
        None
    }
}

/// Where a new file or directory goes: under the final component of the
/// argument, inside what its parent resolved to.
pub open spec fn creation_path(argument: Seq<char>, found: Option<ResolvedView>) -> Seq<char> {
    joined(found->0.path, final_component(argument)->0)
}

/// The step that creates the file of `argument`.
pub open spec fn file_creation(argument: Seq<char>, found: Option<ResolvedView>) -> StepView {
    StepView {
        op: FsOpView::CreateFile { path: creation_path(argument, found) },
        failure: create_file_failed(creation_path(argument, found)),
        notice: None,
    }
}

/// The step that creates the directory of `argument`.
pub open spec fn dir_creation(argument: Seq<char>, found: Option<ResolvedView>) -> StepView {
    StepView {
        op: FsOpView::CreateDir { path: creation_path(argument, found) },
        failure: create_dir_failed(argument),
        notice: None,
    }
}

/// What `nf` comes to: one creation for each argument, in order, if there is at
/// least one argument and each passes [`new_file_check`]; otherwise the first
/// thing that is wrong. `found` holds what each argument's parent resolved to.
pub open spec fn new_files_outcome(
    tail: Seq<Seq<char>>,
    found: Seq<Option<ResolvedView>>,
) -> Result<Seq<StepView>, CommandErrorView> {
    if !Arity::OneOrMore.accepts(tail.len()) {
        Err(wrong_arity(Arity::OneOrMore))
    } else {
        match first_rejection(
            Seq::new(tail.len(), |i: int| new_file_check(tail[i], answer(found, i))),
        ) {
            Some(error) => Err(error),
            None => Ok(Seq::new(tail.len(), |i: int| file_creation(tail[i], answer(found, i)))),
        }
    }
}

/// What `nd` comes to: as [`new_files_outcome`], with [`new_dir_check`] and
/// directories.
pub open spec fn new_dirs_outcome(
    tail: Seq<Seq<char>>,
    found: Seq<Option<ResolvedView>>,
) -> Result<Seq<StepView>, CommandErrorView> {
    if !Arity::OneOrMore.accepts(tail.len()) {
        Err(wrong_arity(Arity::OneOrMore))
    } else {
        match first_rejection(
            Seq::new(tail.len(), |i: int| new_dir_check(tail[i], answer(found, i))),
        ) {
            Some(error) => Err(error),
            None => Ok(Seq::new(tail.len(), |i: int| dir_creation(tail[i], answer(found, i)))),
        }
    }
}

/// `nf`: creates empty files. `found` holds, for each argument, what its
/// parent directory resolved to. A file that exists already is not
/// overwritten: its creation fails.
pub fn new_files(tail: Vec<String>, found: &Vec<Option<Resolved>>) -> (result: Result<
    Vec<Step>,
    CommandError,
>)
    ensures
        planned(result) == new_files_outcome(tail.deep_view(), found.deep_view()),
{
    if !Arity::OneOrMore.admits(tail.len()) {
        return Err(arity_error(Arity::OneOrMore));
    }
    let ghost arguments = tail.deep_view();
    let ghost verdicts = Seq::new(
        arguments.len(),
        |i: int| new_file_check(arguments[i], answer(found.deep_view(), i)),
    );
    let ghost wanted = Seq::new(
        arguments.len(),
        |i: int| file_creation(arguments[i], answer(found.deep_view(), i)),
    );
    let mut steps: Vec<Step> = Vec::new();
    let mut i: usize = 0;
    assert(verdicts.take(0) =~= Seq::empty());
    assert(steps.deep_view() =~= wanted.take(0));
    while i < tail.len()
        invariant
            i <= tail.len(),
            tail.len() >= 1,
            arguments == tail.deep_view(),
            verdicts == Seq::new(
                arguments.len(),
                |i: int| new_file_check(arguments[i], answer(found.deep_view(), i)),
            ),
            wanted == Seq::new(
                arguments.len(),
                |i: int| file_creation(arguments[i], answer(found.deep_view(), i)),
            ),
            first_rejection(verdicts.take(i as int)) is None,
            steps.deep_view() == wanted.take(i as int),
        decreases tail.len() - i,
    {
        let ghost so_far = steps.deep_view();
        let argument = tail[i].as_str();
        assert(argument@ == arguments[i as int]);
        if parent(argument).is_none() {
            proof {
                rejected_at(verdicts, i as int);
            }
            return Err(no_parent_error());
        }
        let dir = match answer_at(found, i) {
            Some(dir) => dir,
            None => {
                proof {
                    rejected_at(verdicts, i as int);
                }
                return Err(missing_parent_of_file_error(argument));
            },
        };
        if ends_in_separator(argument) {
            proof {
                rejected_at(verdicts, i as int);
            }
            return Err(names_no_file_error(argument));
        }
        let name = match file_name(argument) {
            Some(name) => name,
            None => {
                proof {
                    rejected_at(verdicts, i as int);
                }
                return Err(names_no_file_error(argument));
            },
        };
        let path = join(dir.path.as_str(), name.as_str());
        let failure = create_file_failed_error(path.as_str());
        let step = Step { op: FsOp::CreateFile { path }, failure, notice: None };
        assert(step@ =~= wanted[i as int]);
        steps.push(step);
        proof {
            passed_at(verdicts, i as int);
            assert(steps.deep_view() =~= so_far.push(wanted[i as int]));
            assert(wanted.take(i + 1) =~= wanted.take(i as int).push(wanted[i as int]));
        }
        i = i + 1;
    }
    assert(verdicts.take(tail.len() as int) =~= verdicts);
    assert(wanted.take(tail.len() as int) =~= wanted);
    Ok(steps)
}

/// `nd`: creates directories. `found` holds, for each argument, what its
/// parent directory resolved to. A directory that exists already makes its
/// creation fail.
pub fn new_dirs(tail: Vec<String>, found: &Vec<Option<Resolved>>) -> (result: Result<
    Vec<Step>,
    CommandError,
>)
    ensures
        planned(result) == new_dirs_outcome(tail.deep_view(), found.deep_view()),
{
    if !Arity::OneOrMore.admits(tail.len()) {
        return Err(arity_error(Arity::OneOrMore));
    }
    let ghost arguments = tail.deep_view();
    let ghost verdicts = Seq::new(
        arguments.len(),
        |i: int| new_dir_check(arguments[i], answer(found.deep_view(), i)),
    );
    let ghost wanted = Seq::new(
        arguments.len(),
        |i: int| dir_creation(arguments[i], answer(found.deep_view(), i)),
    );
    let mut steps: Vec<Step> = Vec::new();
    let mut i: usize = 0;
    assert(verdicts.take(0) =~= Seq::empty());
    assert(steps.deep_view() =~= wanted.take(0));
    while i < tail.len()
        invariant
            i <= tail.len(),
            tail.len() >= 1,
            arguments == tail.deep_view(),
            verdicts == Seq::new(
                arguments.len(),
                |i: int| new_dir_check(arguments[i], answer(found.deep_view(), i)),
            ),
            wanted == Seq::new(
                arguments.len(),
                |i: int| dir_creation(arguments[i], answer(found.deep_view(), i)),
            ),
            first_rejection(verdicts.take(i as int)) is None,
            steps.deep_view() == wanted.take(i as int),
        decreases tail.len() - i,
    {
        let ghost so_far = steps.deep_view();
        let argument = tail[i].as_str();
        assert(argument@ == arguments[i as int]);
        let name = match file_name(argument) {
            Some(name) => name,
            None => {
                proof {
                    rejected_at(verdicts, i as int);
                }
                return Err(names_no_dir_error());
            },
        };
        if parent(argument).is_none() {
            proof {
                rejected_at(verdicts, i as int);
            }
            return Err(no_parent_error());
        }
        let dir = match answer_at(found, i) {
            Some(dir) => dir,
            None => {
                proof {
                    rejected_at(verdicts, i as int);
                }
                return Err(missing_parent_of_dir_error(argument));
            },
        };
        let path = join(dir.path.as_str(), name.as_str());
        let step = Step {
            op: FsOp::CreateDir { path },
            failure: create_dir_failed_error(argument),
            notice: None,
        };
        assert(step@ =~= wanted[i as int]);
        steps.push(step);
        proof {
            passed_at(verdicts, i as int);
            assert(steps.deep_view() =~= so_far.push(wanted[i as int]));
            assert(wanted.take(i + 1) =~= wanted.take(i as int).push(wanted[i as int]));
        }
        i = i + 1;
    }
    assert(verdicts.take(tail.len() as int) =~= verdicts);
    assert(wanted.take(tail.len() as int) =~= wanted);
    Ok(steps)
}

/// The verdict on a file to open in the editor.
pub open spec fn editable_check(argument: Seq<char>, found: Option<ResolvedView>) -> Option<
    CommandErrorView,
> {
    match found {
        None => Some(unprocessable(argument)),
        Some(resolved) => if resolved.is_dir {
            Some(not_a_file(argument))
        } else {
            None
        },
    }
}

/// What `ed` comes to, if there is at least one argument and each is an
/// existing file: one launch of the editor on the arguments as they were
/// typed, or nothing at all where no editor is configured.
pub open spec fn editor_outcome(
    tail: Seq<Seq<char>>,
    found: Seq<Option<ResolvedView>>,
    editor: Option<Seq<char>>,
) -> Result<Seq<StepView>, CommandErrorView> {
    if !Arity::OneOrMore.accepts(tail.len()) {
        Err(wrong_arity(Arity::OneOrMore))
    } else {
        match first_rejection(
            Seq::new(tail.len(), |i: int| editable_check(tail[i], answer(found, i))),
        ) {
            Some(error) => Err(error),
            None => Ok(
                match editor {
                    None => Seq::empty(),
                    Some(program) => seq![
                        StepView {
                            op: FsOpView::Launch { program, args: tail },
                            failure: editor_failed(),
                            notice: None,
                        },
                    ],
                },
            ),
        }
    }
}

/// `ed`: opens files in the editor. `editor` is the program the environment
/// names, if it names one. Without one the command succeeds and does nothing.
pub fn open_editor(
    tail: Vec<String>,
    found: &Vec<Option<Resolved>>,
    editor: Option<String>,
) -> (result: Result<Vec<Step>, CommandError>)
    ensures
        planned(result) == editor_outcome(tail.deep_view(), found.deep_view(), editor.deep_view()),
{
    if !Arity::OneOrMore.admits(tail.len()) {
        return Err(arity_error(Arity::OneOrMore));
    }
    let ghost arguments = tail.deep_view();
    let ghost verdicts = Seq::new(
        arguments.len(),
        |i: int| editable_check(arguments[i], answer(found.deep_view(), i)),
    );
    let mut i: usize = 0;
    assert(verdicts.take(0) =~= Seq::empty());
    while i < tail.len()
        invariant
            i <= tail.len(),
            tail.len() >= 1,
            arguments == tail.deep_view(),
            verdicts == Seq::new(
                arguments.len(),
                |i: int| editable_check(arguments[i], answer(found.deep_view(), i)),
            ),
            first_rejection(verdicts.take(i as int)) is None,
        decreases tail.len() - i,
    {
        let argument = tail[i].as_str();
        assert(argument@ == arguments[i as int]);
        match answer_at(found, i) {
            None => {
                proof {
                    rejected_at(verdicts, i as int);
                }
                return Err(unprocessable_error(argument));
            },
            Some(resolved) => {
                if resolved.is_dir {
                    proof {
                        rejected_at(verdicts, i as int);
                    }
                    return Err(not_a_file_error(argument));
                }
            },
        }
        proof {
            passed_at(verdicts, i as int);
        }
        i = i + 1;
    }
    assert(verdicts.take(tail.len() as int) =~= verdicts);
    let mut steps: Vec<Step> = Vec::new();
    match editor {
        None => {
            assert(steps.deep_view() =~= Seq::empty());
        },
        Some(program) => {
            let step = Step {
                op: FsOp::Launch { program, args: tail },
                failure: editor_failed_error(),
                notice: None,
            };
            let ghost single = seq![step@];
            steps.push(step);
            assert(steps.deep_view() =~= single);
        },
    }
    Ok(steps)
}

} // verus!
