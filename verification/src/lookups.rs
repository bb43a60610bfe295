//! What a command needs to know of the disk, and what the caller found.
//!
//! Before a command is judged, the caller is told which paths to canonicalise.
//! What it finds comes back as a list, one entry for each argument in order,
//! `None` where the path did not resolve. An argument without an entry counts
//! as not resolved.

use vstd::prelude::*;
use crate::errors::{arity_error, wrong_arity, Arity, CommandError, CommandErrorView};
use crate::parser::Verb;
use crate::paths::{get_canon_path, joined, parent, parent_path, Resolved, ResolvedView};
use crate::types::State;

verus! {

/// How many arguments each verb takes.
pub open spec fn arity_of(verb: Verb) -> Arity {
    match verb {
        Verb::CD => Arity::ExactlyOne,
        Verb::RN => Arity::ExactlyTwo,
        Verb::PS | Verb::LS | Verb::QT => Arity::ExactlyZero,
        Verb::CP | Verb::CT | Verb::RM | Verb::ED | Verb::NF | Verb::ND => Arity::OneOrMore,
    }
}

/// The path to resolve for argument `i` of a command, if the verb needs one
/// for it. To change directory, and to remove, clip or edit files, every
/// argument is resolved against the current directory. A rename resolves its
/// source only. A new file or directory has its parent resolved, where its
/// path has one.
pub open spec fn lookup_for(verb: Verb, tail: Seq<Seq<char>>, cwd: Seq<char>, i: int) -> Option<
    Seq<char>,
> {
    match verb {
        Verb::CD | Verb::CP | Verb::CT | Verb::RM | Verb::ED => Some(joined(cwd, tail[i])),
        Verb::RN => if i == 0 {
            Some(joined(cwd, tail[i]))
        } else {
            None
        },
        Verb::NF | Verb::ND => match parent_path(tail[i]) {
            Some(dir) => Some(joined(cwd, dir)),
            None => None,
        },
        Verb::PS | Verb::LS | Verb::QT => None,
    }
}

/// What a command needs resolved before it can be judged: one entry for each
/// argument, if the number of arguments fits the verb.
pub open spec fn wanted(verb: Verb, tail: Seq<Seq<char>>, cwd: Seq<char>) -> Result<
    Seq<Option<Seq<char>>>,
    CommandErrorView,
> {
    if !arity_of(verb).accepts(tail.len()) {
        Err(wrong_arity(arity_of(verb)))
    } else {
        Ok(Seq::new(tail.len(), |i: int| lookup_for(verb, tail, cwd, i)))
    }
}

/// How many arguments `verb` takes.
pub fn arity(verb: Verb) -> (arity: Arity)
    ensures
        arity == arity_of(verb),
{
    match verb {
        Verb::CD => Arity::ExactlyOne,
        Verb::RN => Arity::ExactlyTwo,
        Verb::PS | Verb::LS | Verb::QT => Arity::ExactlyZero,
        Verb::CP | Verb::CT | Verb::RM | Verb::ED | Verb::NF | Verb::ND => Arity::OneOrMore,
    }
}

/// The first thing to do with a command: checks the number of its arguments,
/// before anything is asked of the filesystem, and says which paths the caller
/// has to canonicalise, one entry for each argument. What the caller finds for
/// them, in the same order, is what the verb's own function takes as `found`.
pub fn lookups(verb: Verb, tail: &Vec<String>, state: &State) -> (result: Result<
    Vec<Option<String>>,
    CommandError,
>)
    ensures
        match result {
            Ok(paths) => wanted(verb, tail.deep_view(), state@.cwd) == Ok::<
                Seq<Option<Seq<char>>>,
                CommandErrorView,
            >(paths.deep_view()),
            Err(error) => wanted(verb, tail.deep_view(), state@.cwd) == Err::<
                Seq<Option<Seq<char>>>,
                CommandErrorView,
            >(error@),
        },
{
    let expected = arity(verb);
    if !expected.admits(tail.len()) {
        return Err(arity_error(expected));
    }
    let ghost arguments = tail.deep_view();
    let ghost all = Seq::new(
        arguments.len(),
        |i: int| lookup_for(verb, arguments, state@.cwd, i),
    );
    let mut paths: Vec<Option<String>> = Vec::new();
    let mut i: usize = 0;
    assert(paths.deep_view() =~= all.take(0));
    while i < tail.len()
        invariant
            i <= tail.len(),
            arguments == tail.deep_view(),
            all == Seq::new(arguments.len(), |i: int| lookup_for(verb, arguments, state@.cwd, i)),
            paths.deep_view() == all.take(i as int),
        decreases tail.len() - i,
    {
        let ghost so_far = paths.deep_view();
        let argument = tail[i].as_str();
        assert(argument@ == arguments[i as int]);
        let path = match verb {
            Verb::CD | Verb::CP | Verb::CT | Verb::RM | Verb::ED => Some(
                get_canon_path(argument, state),
            ),
            Verb::RN => if i == 0 {
                Some(get_canon_path(argument, state))
            } else {
                None
            },
            Verb::NF | Verb::ND => match parent(argument) {
                Some(dir) => Some(get_canon_path(dir.as_str(), state)),
                None => None,
            },
            Verb::PS | Verb::LS | Verb::QT => None,
        };
        assert(path.deep_view() == all[i as int]);
        paths.push(path);
        proof {
            assert(paths.deep_view() =~= so_far.push(all[i as int]));
            assert(all.take(i + 1) =~= all.take(i as int).push(all[i as int]));
        }
        i = i + 1;
    }
    assert(all.take(tail.len() as int) =~= all);
    Ok(paths)
}

/// What was found for argument `i`.
pub open spec fn answer(found: Seq<Option<ResolvedView>>, i: int) -> Option<ResolvedView> {
    if 0 <= i < found.len() {
        found[i]
    } else {
        None
    }
}

/// What was found for argument `i`.
pub fn answer_at(found: &Vec<Option<Resolved>>, i: usize) -> (hit: Option<&Resolved>)
    ensures
        hit.deep_view() == answer(found.deep_view(), i as int),
{
    if i < found.len() {
        match &found[i] {
            Some(resolved) => Some(resolved),
            None => None,
        }
    } else {
        None
    }
}

} // verus!
