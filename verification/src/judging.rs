//! Judging the arguments of a command, one by one.
//!
//! A verb gives a verdict on each of its arguments: nothing where the
//! argument passes, or the failure to report. The command stands or falls with
//! the first argument, in the order typed, that does not pass.

use vstd::prelude::*;
use crate::errors::{
    directory_target, directory_target_error, missing_file, missing_file_error, CommandError,
    CommandErrorView,
};
use crate::lookups::{answer, answer_at};
use crate::paths::{Resolved, ResolvedView};

verus! {

/// The first rejection in a list of verdicts, one verdict for each argument in
/// order, `None` where the argument passed.
pub open spec fn first_rejection(verdicts: Seq<Option<CommandErrorView>>) -> Option<
    CommandErrorView,
>
    decreases verdicts.len(),
{
    if verdicts.len() == 0 {
        None
    } else {
        match first_rejection(verdicts.drop_last()) {
            Some(error) => Some(error),
            None => verdicts.last(),
        }
    }
}

/// Nothing is rejected exactly when every argument passed. Otherwise the
/// rejection is that of the earliest argument that did not pass.
pub proof fn first_rejection_is_earliest(verdicts: Seq<Option<CommandErrorView>>)
    ensures
        first_rejection(verdicts) is None <==> forall|i: int|
            0 <= i < verdicts.len() ==> verdicts[i] is None,
        first_rejection(verdicts) is Some ==> exists|k: int|
            {
                &&& 0 <= k < verdicts.len()
                &&& verdicts[k] == first_rejection(verdicts)
                &&& forall|i: int| 0 <= i < k ==> verdicts[i] is None
            },
    decreases verdicts.len(),
{
    if verdicts.len() > 0 {
        let shorter = verdicts.drop_last();
        first_rejection_is_earliest(shorter);
        if first_rejection(shorter) is Some {
            let k = choose|k: int|
                {
                    &&& 0 <= k < shorter.len()
                    &&& shorter[k] == first_rejection(shorter)
                    &&& forall|i: int| 0 <= i < k ==> shorter[i] is None
                };
            assert(verdicts[k] == first_rejection(verdicts));
            assert forall|i: int| 0 <= i < k implies verdicts[i] is None by {
                assert(shorter[i] is None);
            }
        } else {
            assert forall|i: int| 0 <= i < verdicts.len() - 1 implies verdicts[i] is None by {
                assert(shorter[i] is None);
            }
            if verdicts.last() is Some {
                let k = verdicts.len() - 1;
                assert(verdicts[k] == first_rejection(verdicts));
            }
        }
    }
}

/// With nothing rejected before `k`, a rejection at `k` is the first.
pub proof fn rejected_at(verdicts: Seq<Option<CommandErrorView>>, k: int)
    requires
        0 <= k < verdicts.len(),
        first_rejection(verdicts.take(k)) is None,
        verdicts[k] is Some,
    ensures
        first_rejection(verdicts) == verdicts[k],
    decreases verdicts.len(),
{
    let shorter = verdicts.drop_last();
    if k == verdicts.len() - 1 {
        assert(shorter =~= verdicts.take(k));
    } else {
        assert(shorter.take(k) =~= verdicts.take(k));
        rejected_at(shorter, k);
    }
}

/// With nothing rejected before `k` and nothing at `k`, nothing is rejected
/// up to and with `k`.
pub proof fn passed_at(verdicts: Seq<Option<CommandErrorView>>, k: int)
    requires
        0 <= k < verdicts.len(),
        first_rejection(verdicts.take(k)) is None,
        verdicts[k] is None,
    ensures
        first_rejection(verdicts.take(k + 1)) is None,
{
    assert(verdicts.take(k + 1).drop_last() =~= verdicts.take(k));
}

/// The verdict on an argument that has to be an existing file.
pub open spec fn file_check(found: Option<ResolvedView>) -> Option<CommandErrorView> {
    match found {
        None => Some(missing_file()),
        Some(resolved) => if resolved.is_dir {
            Some(directory_target())
        } else {
            None
        },
    }
}

/// The verdicts on arguments that have to be existing files.
pub open spec fn file_verdicts(count: nat, found: Seq<Option<ResolvedView>>) -> Seq<
    Option<CommandErrorView>,
> {
    Seq::new(count, |i: int| file_check(answer(found, i)))
}

/// The paths found for the `count` first arguments.
pub open spec fn found_paths(count: nat, found: Seq<Option<ResolvedView>>) -> Seq<Seq<char>> {
    Seq::new(count, |i: int| answer(found, i)->0.path)
}

/// Checks that each of `count` arguments was found and is no directory, and
/// hands back their canonical paths.
pub fn checked_files(count: usize, found: &Vec<Option<Resolved>>) -> (checked: Result<
    Vec<String>,
    CommandError,
>)
    ensures
        match checked {
            Ok(paths) => {
                &&& first_rejection(file_verdicts(count as nat, found.deep_view())) is None
                &&& paths.deep_view() == found_paths(count as nat, found.deep_view())
            },
            Err(error) => first_rejection(file_verdicts(count as nat, found.deep_view()))
                == Some(error@),
        },
{
    let ghost verdicts = file_verdicts(count as nat, found.deep_view());
    let mut paths: Vec<String> = Vec::new();
    let mut i: usize = 0;
    assert(verdicts.take(0) =~= Seq::empty());
    while i < count
        invariant
            i <= count,
            verdicts == file_verdicts(count as nat, found.deep_view()),
            first_rejection(verdicts.take(i as int)) is None,
            paths.deep_view() == found_paths(i as nat, found.deep_view()),
        decreases count - i,
    {
        let ghost so_far = paths.deep_view();
        match answer_at(found, i) {
            None => {
                proof {
                    rejected_at(verdicts, i as int);
                }
                return Err(missing_file_error());
            },
            Some(resolved) => {
                if resolved.is_dir {
                    proof {
                        rejected_at(verdicts, i as int);
                    }
                    return Err(directory_target_error());
                }
                paths.push(resolved.path.clone());
            },
        }
        proof {
            passed_at(verdicts, i as int);
            assert(paths.deep_view() =~= so_far.push(answer(found.deep_view(), i as int)->0.path));
            assert(paths.deep_view() =~= found_paths((i + 1) as nat, found.deep_view()));
        }
        i = i + 1;
    }
    assert(verdicts.take(count as int) =~= verdicts);
    Ok(paths)
}

} // verus!
