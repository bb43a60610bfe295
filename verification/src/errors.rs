//! Why a command was refused or came to a halt.

use vstd::prelude::*;
use crate::text::{framed, prefixed, suffixed};

verus! {

/// The classes of failure a command can report.
#[derive(Clone, Copy, Debug, PartialEq, Eq, Structural)]
pub enum ErrorKind {
    /// The number of arguments does not fit the verb.
    ArgumentCount,
    /// A path could not be resolved to anything on disk.
    PathResolution,
    /// The target had to be a file and is not.
    NotAFile,
    /// The target had to be a directory and is not.
    NotADirectory,
    /// The filesystem refused a delete, copy, rename, create or launch.
    FilesystemOperation,
    /// A cut was pasted but its source could not be removed.
    PartialCompletion,
}

/// How many arguments a verb takes.
#[derive(Clone, Copy, Debug, PartialEq, Eq, Structural)]
pub enum Arity {
    ExactlyZero,
    ExactlyOne,
    ExactlyTwo,
    OneOrMore,
}

impl Arity {
    /// Whether a command with `count` arguments fits.
    pub open spec fn accepts(self, count: nat) -> bool {
        match self {
            Arity::ExactlyZero => count == 0,
            Arity::ExactlyOne => count == 1,
            Arity::ExactlyTwo => count == 2,
            Arity::OneOrMore => count >= 1,
        }
    }

    pub fn admits(self, count: usize) -> (fits: bool)
        ensures
            fits == self.accepts(count as nat),
    {
        match self {
            Arity::ExactlyZero => count == 0,
            Arity::ExactlyOne => count == 1,
            Arity::ExactlyTwo => count == 2,
            Arity::OneOrMore => count >= 1,
        }
    }
}

/// A failed command: its class, and one line to show the user.
#[derive(Debug, PartialEq, Eq)]
pub struct CommandError {
    kind: ErrorKind,
    message: String,
}

/// What a [`CommandError`] holds, as plain values.
#[verifier::ext_equal]
pub struct CommandErrorView {
    pub kind: ErrorKind,
    pub message: Seq<char>,
}

impl View for CommandError {
    type V = CommandErrorView;

    closed spec fn view(&self) -> CommandErrorView {
        CommandErrorView { kind: self.kind, message: self.message@ }
    }
}

impl DeepView for CommandError {
    type V = CommandErrorView;

    open spec fn deep_view(&self) -> CommandErrorView {
        self@
    }
}

impl CommandError {
    pub fn new(kind: ErrorKind, message: String) -> (error: CommandError)
        ensures
            error@ == (CommandErrorView { kind, message: message@ }),
    {
        CommandError { kind, message }
    }

    pub fn kind(&self) -> (kind: ErrorKind)
        ensures
            kind == self@.kind,
    {
        self.kind
    }

    pub fn message(&self) -> (message: &str)
        ensures
            message@ == self@.message,
    {
        self.message.as_str()
    }

    /// A copy of this error.
    pub fn duplicate(&self) -> (copy: CommandError)
        ensures
            copy@ == self@,
    {
        CommandError { kind: self.kind, message: self.message.clone() }
    }
}

// The failures, one spec function each. The executable constructor below each
// builds exactly that value.

pub open spec fn wrong_arity(arity: Arity) -> CommandErrorView {
    CommandErrorView {
        kind: ErrorKind::ArgumentCount,
        message: match arity {
            Arity::ExactlyZero => "This command requires exactly 0 arguments"@,
            Arity::ExactlyOne => "This command requires exactly 1 argument"@,
            Arity::ExactlyTwo => "This command requires exactly 2 arguments"@,
            Arity::OneOrMore => "This command requires 1 or more arguments"@,
        },
    }
}

pub fn arity_error(arity: Arity) -> (error: CommandError)
    ensures
        error@ == wrong_arity(arity),
{
    let message = match arity {
        Arity::ExactlyZero => "This command requires exactly 0 arguments",
        Arity::ExactlyOne => "This command requires exactly 1 argument",
        Arity::ExactlyTwo => "This command requires exactly 2 arguments",
        Arity::OneOrMore => "This command requires 1 or more arguments",
    };
    CommandError::new(ErrorKind::ArgumentCount, message.to_owned())
}

/// The directory to change into does not resolve.
pub open spec fn missing_dir() -> CommandErrorView {
    CommandErrorView {
        kind: ErrorKind::PathResolution,
        message: "Error getting full path. Dir likely doesn't exist"@,
    }
}

pub fn missing_dir_error() -> (error: CommandError)
    ensures
        error@ == missing_dir(),
{
    CommandError::new(
        ErrorKind::PathResolution,
        "Error getting full path. Dir likely doesn't exist".to_owned(),
    )
}

/// A file to remove, clip or rename does not resolve.
pub open spec fn missing_file() -> CommandErrorView {
    CommandErrorView {
        kind: ErrorKind::PathResolution,
        message: "Error getting full path. File likely doesn't exist"@,
    }
}

pub fn missing_file_error() -> (error: CommandError)
    ensures
        error@ == missing_file(),
{
    CommandError::new(
        ErrorKind::PathResolution,
        "Error getting full path. File likely doesn't exist".to_owned(),
    )
}

/// The target of a change of directory resolves to something that is no directory.
pub open spec fn not_a_directory(argument: Seq<char>) -> CommandErrorView {
    CommandErrorView {
        kind: ErrorKind::NotADirectory,
        message: argument + " is not a directory, aborting"@,
    }
}

pub fn not_a_directory_error(argument: &str) -> (error: CommandError)
    ensures
        error@ == not_a_directory(argument@),
{
    CommandError::new(
        ErrorKind::NotADirectory,
        suffixed(argument, " is not a directory, aborting"),
    )
}

/// A file to remove or clip resolves to a directory.
pub open spec fn directory_target() -> CommandErrorView {
    CommandErrorView {
        kind: ErrorKind::NotAFile,
        message: "Only file deletion supported currently, aborting"@,
    }
}

pub fn directory_target_error() -> (error: CommandError)
    ensures
        error@ == directory_target(),
{
    CommandError::new(
        ErrorKind::NotAFile,
        "Only file deletion supported currently, aborting".to_owned(),
    )
}

/// Something that had to be a file is none: a directory handed to the editor,
/// or a clipped path with no final component to paste under.
pub open spec fn not_a_file(subject: Seq<char>) -> CommandErrorView {
    CommandErrorView {
        kind: ErrorKind::NotAFile,
        message: subject + " is not a file, aborting"@,
    }
}

pub fn not_a_file_error(subject: &str) -> (error: CommandError)
    ensures
        error@ == not_a_file(subject@),
{
    CommandError::new(ErrorKind::NotAFile, suffixed(subject, " is not a file, aborting"))
}

/// A file to open in the editor does not resolve.
pub open spec fn unprocessable(argument: Seq<char>) -> CommandErrorView {
    CommandErrorView {
        kind: ErrorKind::PathResolution,
        message: "Unable to process argument "@ + argument + ", file likely doesn't exist"@,
    }
}

pub fn unprocessable_error(argument: &str) -> (error: CommandError)
    ensures
        error@ == unprocessable(argument@),
{
    CommandError::new(
        ErrorKind::PathResolution,
        framed("Unable to process argument ", argument, ", file likely doesn't exist"),
    )
}

/// The path of a file or directory to create has no parent.
pub open spec fn no_parent() -> CommandErrorView {
    CommandErrorView { kind: ErrorKind::PathResolution, message: "No parent for given path"@ }
}

pub fn no_parent_error() -> (error: CommandError)
    ensures
        error@ == no_parent(),
{
    CommandError::new(ErrorKind::PathResolution, "No parent for given path".to_owned())
}

/// The parent of a file to create does not resolve.
pub open spec fn missing_parent_of_file(argument: Seq<char>) -> CommandErrorView {
    CommandErrorView {
        kind: ErrorKind::PathResolution,
        message: "Error finding directory for argument "@ + argument
            + ". Likely doesn't exist"@,
    }
}

pub fn missing_parent_of_file_error(argument: &str) -> (error: CommandError)
    ensures
        error@ == missing_parent_of_file(argument@),
{
    CommandError::new(
        ErrorKind::PathResolution,
        framed("Error finding directory for argument ", argument, ". Likely doesn't exist"),
    )
}

/// The parent of a directory to create does not resolve.
pub open spec fn missing_parent_of_dir(argument: Seq<char>) -> CommandErrorView {
    CommandErrorView {
        kind: ErrorKind::PathResolution,
        message: "Can't find parent directory for argument "@ + argument,
    }
}

pub fn missing_parent_of_dir_error(argument: &str) -> (error: CommandError)
    ensures
        error@ == missing_parent_of_dir(argument@),
{
    CommandError::new(
        ErrorKind::PathResolution,
        prefixed("Can't find parent directory for argument ", argument),
    )
}

/// The path of a file to create names no file.
pub open spec fn names_no_file(argument: Seq<char>) -> CommandErrorView {
    CommandErrorView {
        kind: ErrorKind::NotAFile,
        message: argument + " is not a file, use nd to create directories"@,
    }
}

pub fn names_no_file_error(argument: &str) -> (error: CommandError)
    ensures
        error@ == names_no_file(argument@),
{
    CommandError::new(
        ErrorKind::NotAFile,
        suffixed(argument, " is not a file, use nd to create directories"),
    )
}

/// The path of a directory to create has no final component.
pub open spec fn names_no_dir() -> CommandErrorView {
    CommandErrorView {
        kind: ErrorKind::NotAFile,
        message: "Failed to find last component of path"@,
    }
}

pub fn names_no_dir_error() -> (error: CommandError)
    ensures
        error@ == names_no_dir(),
{
    CommandError::new(ErrorKind::NotAFile, "Failed to find last component of path".to_owned())
}

/// A file could not be deleted.
pub open spec fn delete_failed(file: Seq<char>) -> CommandErrorView {
    CommandErrorView {
        kind: ErrorKind::FilesystemOperation,
        message: "Unable to delete file "@ + file,
    }
}

pub fn delete_failed_error(file: &str) -> (error: CommandError)
    ensures
        error@ == delete_failed(file@),
{
    CommandError::new(ErrorKind::FilesystemOperation, prefixed("Unable to delete file ", file))
}

/// A clipped file could not be duplicated.
pub open spec fn copy_failed(file: Seq<char>) -> CommandErrorView {
    CommandErrorView {
        kind: ErrorKind::FilesystemOperation,
        message: "Failed to copy file "@ + file + ", aborting"@,
    }
}

pub fn copy_failed_error(file: &str) -> (error: CommandError)
    ensures
        error@ == copy_failed(file@),
{
    CommandError::new(
        ErrorKind::FilesystemOperation,
        framed("Failed to copy file ", file, ", aborting"),
    )
}

/// A cut file was duplicated, but its source is still there.
pub open spec fn stale_source(file: Seq<char>) -> CommandErrorView {
    CommandErrorView {
        kind: ErrorKind::PartialCompletion,
        message: "Failed to clean old version: "@ + file,
    }
}

pub fn stale_source_error(file: &str) -> (error: CommandError)
    ensures
        error@ == stale_source(file@),
{
    CommandError::new(
        ErrorKind::PartialCompletion,
        prefixed("Failed to clean old version: ", file),
    )
}

pub open spec fn rename_failed() -> CommandErrorView {
    CommandErrorView { kind: ErrorKind::FilesystemOperation, message: "Rename failed"@ }
}

pub fn rename_failed_error() -> (error: CommandError)
    ensures
        error@ == rename_failed(),
{
    CommandError::new(ErrorKind::FilesystemOperation, "Rename failed".to_owned())
}

/// A new file could not be created, for one because it exists already.
pub open spec fn create_file_failed(path: Seq<char>) -> CommandErrorView {
    CommandErrorView {
        kind: ErrorKind::FilesystemOperation,
        message: "Unable to create file "@ + path,
    }
}

pub fn create_file_failed_error(path: &str) -> (error: CommandError)
    ensures
        error@ == create_file_failed(path@),
{
    CommandError::new(ErrorKind::FilesystemOperation, prefixed("Unable to create file ", path))
}

/// A new directory could not be created, for one because it exists already.
pub open spec fn create_dir_failed(argument: Seq<char>) -> CommandErrorView {
    CommandErrorView {
        kind: ErrorKind::FilesystemOperation,
        message: "Unable to create directory "@ + argument,
    }
}

pub fn create_dir_failed_error(argument: &str) -> (error: CommandError)
    ensures
        error@ == create_dir_failed(argument@),
{
    CommandError::new(
        ErrorKind::FilesystemOperation,
        prefixed("Unable to create directory ", argument),
    )
}

/// The editor could not be started.
pub open spec fn editor_failed() -> CommandErrorView {
    CommandErrorView {
        kind: ErrorKind::FilesystemOperation,
        message: "Unknown error opening editor, make sure $EDITOR is set correctly"@,
    }
}

pub fn editor_failed_error() -> (error: CommandError)
    ensures
        error@ == editor_failed(),
{
    CommandError::new(
        ErrorKind::FilesystemOperation,
        "Unknown error opening editor, make sure $EDITOR is set correctly".to_owned(),
    )
}

} // verus!
