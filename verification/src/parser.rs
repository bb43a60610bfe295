//! From a line of text to a command.
//!
//! A line is cut at every single space. The first word is the verb, under any
//! of its aliases; the words after it are the arguments, handed on as they
//! stand. Two spaces in a row therefore give an empty argument, and a tab is
//! part of a word.

use vstd::prelude::*;

verus! {

/// The verbs of the browser.
#[derive(Clone, Copy, Debug, PartialEq, Eq, Structural)]
pub enum Verb {
    /// Change directory.
    CD,
    /// Copy files to the clipboard.
    CP,
    /// Cut files to the clipboard.
    CT,
    /// Paste the clipboard into the current directory.
    PS,
    /// Rename a file.
    RN,
    /// Remove files.
    RM,
    /// Open files in the editor.
    ED,
    /// Create files.
    NF,
    /// Create directories.
    ND,
    /// List the current directory.
    LS,
    /// Quit.
    QT,
}

/// A verb with its arguments.
#[derive(Debug, PartialEq, Eq)]
pub enum Command {
    /// Change directory: one argument.
    CD(Vec<String>),
    /// Copy files: one argument or more.
    CP(Vec<String>),
    /// Cut files: one argument or more.
    CT(Vec<String>),
    /// Paste: no argument.
    PS(Vec<String>),
    /// Rename: the old name and the new one.
    RN(Vec<String>),
    /// Remove files: one argument or more.
    RM(Vec<String>),
    /// Open files in the editor: one argument or more.
    ED(Vec<String>),
    /// New files: one argument or more.
    NF(Vec<String>),
    /// New directories: one argument or more.
    ND(Vec<String>),
    /// List the current directory: no argument.
    LS(Vec<String>),
    /// Quit: no argument.
    QT(Vec<String>),
}

impl Command {
    /// The verb of this command.
    pub open spec fn verb(&self) -> Verb {
        match self {
            Command::CD(_) => Verb::CD,
            Command::CP(_) => Verb::CP,
            Command::CT(_) => Verb::CT,
            Command::PS(_) => Verb::PS,
            Command::RN(_) => Verb::RN,
            Command::RM(_) => Verb::RM,
            Command::ED(_) => Verb::ED,
            Command::NF(_) => Verb::NF,
            Command::ND(_) => Verb::ND,
            Command::LS(_) => Verb::LS,
            Command::QT(_) => Verb::QT,
        }
    }

    /// The arguments of this command.
    pub open spec fn tail(&self) -> Seq<Seq<char>> {
        match self {
            Command::CD(tail) => tail.deep_view(),
            Command::CP(tail) => tail.deep_view(),
            Command::CT(tail) => tail.deep_view(),
            Command::PS(tail) => tail.deep_view(),
            Command::RN(tail) => tail.deep_view(),
            Command::RM(tail) => tail.deep_view(),
            Command::ED(tail) => tail.deep_view(),
            Command::NF(tail) => tail.deep_view(),
            Command::ND(tail) => tail.deep_view(),
            Command::LS(tail) => tail.deep_view(),
            Command::QT(tail) => tail.deep_view(),
        }
    }

    /// The verb of this command.
    pub fn kind(&self) -> (verb: Verb)
        ensures
            verb == self.verb(),
    {
        match self {
            Command::CD(_) => Verb::CD,
            Command::CP(_) => Verb::CP,
            Command::CT(_) => Verb::CT,
            Command::PS(_) => Verb::PS,
            Command::RN(_) => Verb::RN,
            Command::RM(_) => Verb::RM,
            Command::ED(_) => Verb::ED,
            Command::NF(_) => Verb::NF,
            Command::ND(_) => Verb::ND,
            Command::LS(_) => Verb::LS,
            Command::QT(_) => Verb::QT,
        }
    }

    /// The arguments of this command.
    pub fn arguments(&self) -> (tail: &Vec<String>)
        ensures
            tail.deep_view() == self.tail(),
    {
        match self {
            Command::CD(tail) => tail,
            Command::CP(tail) => tail,
            Command::CT(tail) => tail,
            Command::PS(tail) => tail,
            Command::RN(tail) => tail,
            Command::RM(tail) => tail,
            Command::ED(tail) => tail,
            Command::NF(tail) => tail,
            Command::ND(tail) => tail,
            Command::LS(tail) => tail,
            Command::QT(tail) => tail,
        }
    }

    /// Puts `verb` and `tail` together.
    pub fn assemble(verb: Verb, tail: Vec<String>) -> (command: Command)
        ensures
            command.verb() == verb,
            command.tail() == tail.deep_view(),
    {
        match verb {
            Verb::CD => Command::CD(tail),
            Verb::CP => Command::CP(tail),
            Verb::CT => Command::CT(tail),
            Verb::PS => Command::PS(tail),
            Verb::RN => Command::RN(tail),
            Verb::RM => Command::RM(tail),
            Verb::ED => Command::ED(tail),
            Verb::NF => Command::NF(tail),
            Verb::ND => Command::ND(tail),
            Verb::LS => Command::LS(tail),
            Verb::QT => Command::QT(tail),
        }
    }
}

/// A line that is no command.
#[derive(Debug, PartialEq, Eq)]
pub enum ParseError {
    /// The line starts with a space, or is empty: there is no verb.
    EmptyVerb,
    /// The first word is no verb and no alias of one.
    UnknownVerb(String),
}

/// What a [`ParseError`] holds, as plain values.
#[verifier::ext_equal]
pub enum ParseErrorView {
    EmptyVerb,
    UnknownVerb(Seq<char>),
}

impl View for ParseError {
    type V = ParseErrorView;

    open spec fn view(&self) -> ParseErrorView {
        match self {
            ParseError::EmptyVerb => ParseErrorView::EmptyVerb,
            ParseError::UnknownVerb(word) => ParseErrorView::UnknownVerb(word@),
        }
    }
}

impl ParseError {
    /// One line to show the user.
    pub fn message(&self) -> (text: String)
        ensures
            text@ == "Invalid command"@,
    {
        "Invalid command".to_owned()
    }
}

/// The words of a line: what stands before the first space, between one space
/// and the next, and after the last. A line without a space is one word.
pub open spec fn words_of(line: Seq<char>) -> Seq<Seq<char>>
    decreases line.len(),
{
    if line.len() == 0 {
        seq![Seq::<char>::empty()]
    } else {
        let before = words_of(line.drop_last());
        if line.last() == ' ' {
            before.push(Seq::<char>::empty())
        } else {
            before.drop_last().push(before.last().push(line.last()))
        }
    }
}

/// `words`, with one space between each and the next.
pub open spec fn spaced(words: Seq<Seq<char>>) -> Seq<char>
    decreases words.len(),
{
    if words.len() == 0 {
        Seq::<char>::empty()
    } else if words.len() == 1 {
        words[0]
    } else {
        spaced(words.drop_last()) + seq![' '] + words.last()
    }
}

/// Whether no word of `words` holds a space.
pub open spec fn spaceless(words: Seq<Seq<char>>) -> bool {
    forall|i: int, j: int|
        0 <= i < words.len() && 0 <= j < words[i].len() ==> words[i][j] != ' '
}

/// The words of a line are at least one, none of them holds a space, and with
/// a space between each and the next they are the line again.
pub proof fn words_of_splits_at_spaces(line: Seq<char>)
    ensures
        words_of(line).len() >= 1,
        spaceless(words_of(line)),
        spaced(words_of(line)) == line,
    decreases line.len(),
{
    if line.len() == 0 {
        assert(spaced(words_of(line)) =~= line);
    } else {
        let shorter = line.drop_last();
        words_of_splits_at_spaces(shorter);
        let before = words_of(shorter);
        let words = words_of(line);
        if line.last() == ' ' {
            assert(words.drop_last() =~= before);
            assert(spaced(words) =~= line);
        } else {
            if before.len() == 1 {
                assert(spaced(before) == before[0]);
                assert(spaced(words) =~= line);
            } else {
                assert(words.drop_last() =~= before.drop_last());
                assert(spaced(before) == spaced(before.drop_last()) + seq![' '] + before.last());
                assert(spaced(words) =~= spaced(before).push(line.last()));
                assert(spaced(words) =~= line);
            }
        }
    }
}

/// A line can be cut into words at its spaces in one way only: words without
/// a space that give the line when a space is put between each and the next
/// are the [`words_of`] the line.
pub proof fn words_of_is_the_only_split(line: Seq<char>, words: Seq<Seq<char>>)
    requires
        words.len() >= 1,
        spaceless(words),
        spaced(words) == line,
    ensures
        words == words_of(line),
    decreases line.len(),
{
    let last = words.last();
    let front = words.drop_last();
    if words.len() >= 2 {
        assert(spaced(words) == spaced(front) + seq![' '] + last);
        assert(spaceless(front)) by {
            assert forall|i: int, j: int|
                0 <= i < front.len() && 0 <= j < front[i].len() implies front[i][j] != ' ' by {
                assert(front[i] == words[i]);
            }
        }
    }
    if line.len() == 0 {
        assert(words.len() == 1);
        assert(words[0] =~= Seq::<char>::empty());
        assert(words =~= seq![Seq::<char>::empty()]);
    } else if line.last() == ' ' {
        if last.len() > 0 {
            assert(line.last() == last[last.len() - 1]);
            assert(words[words.len() - 1][last.len() - 1] != ' ');
        }
        assert(words.len() >= 2);
        assert(spaced(front) =~= line.drop_last());
        words_of_is_the_only_split(line.drop_last(), front);
        assert(last =~= Seq::<char>::empty());
        assert(words =~= front.push(Seq::<char>::empty()));
    } else {
        if last.len() == 0 {
            assert(words.len() >= 2);
            assert(line.last() == ' ');
        }
        let shorter = front.push(last.drop_last());
        assert(spaceless(shorter)) by {
            assert forall|i: int, j: int|
                0 <= i < shorter.len() && 0 <= j < shorter[i].len() implies shorter[i][j]
                != ' ' by {
                if i < front.len() {
                    assert(shorter[i] == words[i]);
                } else {
                    assert(shorter[i][j] == words[i][j]);
                }
            }
        }
        assert(shorter.drop_last() =~= front);
        assert(spaced(shorter) =~= line.drop_last()) by {
            if words.len() >= 2 {
                assert(spaced(shorter) == spaced(front) + seq![' '] + last.drop_last());
            }
        }
        words_of_is_the_only_split(line.drop_last(), shorter);
        assert(last =~= last.drop_last().push(line.last()));
        assert(words =~= shorter.drop_last().push(shorter.last().push(line.last())));
    }
}

/// The verb that `word` names, if it names one.
pub open spec fn verb_named(word: Seq<char>) -> Option<Verb> {
    if word == "cd"@ {
        Some(Verb::CD)
    } else if word == "cp"@ || word == "copy"@ {
        Some(Verb::CP)
    } else if word == "ct"@ || word == "cut"@ {
        Some(Verb::CT)
    } else if word == "ps"@ || word == "paste"@ {
        Some(Verb::PS)
    } else if word == "rn"@ || word == "rename"@ {
        Some(Verb::RN)
    } else if word == "rm"@ || word == "remove"@ {
        Some(Verb::RM)
    } else if word == "ed"@ || word == "edit"@ || word == "editor"@ {
        Some(Verb::ED)
    } else if word == "nf"@ || word == "new"@ || word == "newfile"@ {
        Some(Verb::NF)
    } else if word == "nd"@ {
        Some(Verb::ND)
    } else if word == "ls"@ || word == "list"@ {
        Some(Verb::LS)
    } else if word == "q"@ || word == "qt"@ || word == "quit"@ {
        Some(Verb::QT)
    } else {
        None
    }
}

/// Looks `word` up among the verbs and their aliases.
pub fn find_verb(word: &str) -> (verb: Option<Verb>)
    ensures
        verb == verb_named(word@),
{
    if word.eq("cd") {
        Some(Verb::CD)
    } else if word.eq("cp") || word.eq("copy") {
        Some(Verb::CP)
    } else if word.eq("ct") || word.eq("cut") {
        Some(Verb::CT)
    } else if word.eq("ps") || word.eq("paste") {
        Some(Verb::PS)
    } else if word.eq("rn") || word.eq("rename") {
        Some(Verb::RN)
    } else if word.eq("rm") || word.eq("remove") {
        Some(Verb::RM)
    } else if word.eq("ed") || word.eq("edit") || word.eq("editor") {
        Some(Verb::ED)
    } else if word.eq("nf") || word.eq("new") || word.eq("newfile") {
        Some(Verb::NF)
    } else if word.eq("nd") {
        Some(Verb::ND)
    } else if word.eq("ls") || word.eq("list") {
        Some(Verb::LS)
    } else if word.eq("q") || word.eq("qt") || word.eq("quit") {
        Some(Verb::QT)
    } else {
        None
    }
}

/// Cuts `line` into its words.
pub fn split_words(line: &str) -> (words: Vec<String>)
    ensures
        words.deep_view() == words_of(line@),
{
    let mut closed: Vec<String> = Vec::new();
    let mut open = String::new();
    assert(closed.deep_view().push(open@) =~= words_of(line@.take(0)));
    for c in it: line.chars()
        invariant
            it.seq() == line@,
            closed.deep_view().push(open@) == words_of(line@.take(it.index() as int)),
    {
        let ghost seen = line@.take(it.index() as int);
        let ghost next = line@.take(it.index() + 1);
        let ghost before = closed.deep_view().push(open@);
        assert(next.drop_last() =~= seen);
        assert(next.last() == c);
        if c == ' ' {
            closed.push(open);
            open = String::new();
            assert(closed.deep_view() =~= before);
        } else {
            open.push(c);
            assert(closed.deep_view().push(open@) =~= before.drop_last().push(
                before.last().push(c),
            ));
        }
    }
    assert(line@.take(line@.len() as int) =~= line@);
    let ghost all = closed.deep_view().push(open@);
    closed.push(open);
    assert(closed.deep_view() =~= all);
    closed
}

/// Reads a command from `cmd`. The first of the [`words_of`] the line must
/// name a verb; the rest become the arguments.
pub fn parse_command(cmd: &str) -> (parsed: Result<Command, ParseError>)
    ensures
        match parsed {
            Ok(command) => {
                &&& verb_named(words_of(cmd@)[0]) == Some(command.verb())
                &&& command.tail() == words_of(cmd@).skip(1)
            },
            Err(error) => {
                &&& verb_named(words_of(cmd@)[0]) is None
                &&& error@ == if words_of(cmd@)[0].len() == 0 {
                    ParseErrorView::EmptyVerb
                } else {
                    ParseErrorView::UnknownVerb(words_of(cmd@)[0])
                }
            },
        },
{
    let mut words = split_words(cmd);
    proof {
        words_of_splits_at_spaces(cmd@);
    }
    let ghost all = words.deep_view();
    let first = words.remove(0);
    assert(first@ == all[0]);
    assert(words.deep_view() =~= all.skip(1));
    match find_verb(first.as_str()) {
        Some(verb) => Ok(Command::assemble(verb, words)),
        None => {
            if first.as_str().is_empty() {
                Err(ParseError::EmptyVerb)
            } else {
                Err(ParseError::UnknownVerb(first))
            }
        },
    }
}

} // verus!
