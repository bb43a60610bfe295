use filebrowser::errors::{
    arity_error, copy_failed_error, create_dir_failed_error, create_file_failed_error,
    delete_failed_error, directory_target_error, editor_failed_error, missing_dir_error,
    missing_file_error, missing_parent_of_dir_error, missing_parent_of_file_error,
    names_no_dir_error, names_no_file_error, no_parent_error, not_a_directory_error,
    not_a_file_error, rename_failed_error, stale_source_error, unprocessable_error, Arity,
    CommandError, ErrorKind,
};
use filebrowser::text::{framed, prefixed, suffixed};

#[test]
fn texts_are_put_together_in_order() {
    assert_eq!(framed("<", "x", ">"), "<x>");
    assert_eq!(prefixed("pre ", "x"), "pre x");
    assert_eq!(suffixed("x", " post"), "x post");
    assert_eq!(framed("", "", ""), "");
}

#[test]
fn an_error_gives_back_its_kind_and_message() {
    let error = CommandError::new(ErrorKind::NotAFile, "no".to_string());
    assert_eq!(error.kind(), ErrorKind::NotAFile);
    assert_eq!(error.message(), "no");
    assert_eq!(error.duplicate(), error);
}

#[test]
fn each_failure_has_its_kind_and_its_text() {
    let table: Vec<(CommandError, ErrorKind, &str)> = vec![
        (
            arity_error(Arity::ExactlyZero),
            ErrorKind::ArgumentCount,
            "This command requires exactly 0 arguments",
        ),
        (
            arity_error(Arity::ExactlyOne),
            ErrorKind::ArgumentCount,
            "This command requires exactly 1 argument",
        ),
        (
            arity_error(Arity::ExactlyTwo),
            ErrorKind::ArgumentCount,
            "This command requires exactly 2 arguments",
        ),
        (
            arity_error(Arity::OneOrMore),
            ErrorKind::ArgumentCount,
            "This command requires 1 or more arguments",
        ),
        (
            missing_dir_error(),
            ErrorKind::PathResolution,
            "Error getting full path. Dir likely doesn't exist",
        ),
        (
            missing_file_error(),
            ErrorKind::PathResolution,
            "Error getting full path. File likely doesn't exist",
        ),
        (not_a_directory_error("f"), ErrorKind::NotADirectory, "f is not a directory, aborting"),
        (
            directory_target_error(),
            ErrorKind::NotAFile,
            "Only file deletion supported currently, aborting",
        ),
        (not_a_file_error("d"), ErrorKind::NotAFile, "d is not a file, aborting"),
        (
            unprocessable_error("x"),
            ErrorKind::PathResolution,
            "Unable to process argument x, file likely doesn't exist",
        ),
        (no_parent_error(), ErrorKind::PathResolution, "No parent for given path"),
        (
            missing_parent_of_file_error("a/b"),
            ErrorKind::PathResolution,
            "Error finding directory for argument a/b. Likely doesn't exist",
        ),
        (
            missing_parent_of_dir_error("a/b"),
            ErrorKind::PathResolution,
            "Can't find parent directory for argument a/b",
        ),
        (
            names_no_file_error("a/.."),
            ErrorKind::NotAFile,
            "a/.. is not a file, use nd to create directories",
        ),
        (names_no_dir_error(), ErrorKind::NotAFile, "Failed to find last component of path"),
        (delete_failed_error("/f"), ErrorKind::FilesystemOperation, "Unable to delete file /f"),
        (
            copy_failed_error("/f"),
            ErrorKind::FilesystemOperation,
            "Failed to copy file /f, aborting",
        ),
        (
            stale_source_error("/f"),
            ErrorKind::PartialCompletion,
            "Failed to clean old version: /f",
        ),
        (rename_failed_error(), ErrorKind::FilesystemOperation, "Rename failed"),
        (
            create_file_failed_error("/f"),
            ErrorKind::FilesystemOperation,
            "Unable to create file /f",
        ),
        (
            create_dir_failed_error("d"),
            ErrorKind::FilesystemOperation,
            "Unable to create directory d",
        ),
        (
            editor_failed_error(),
            ErrorKind::FilesystemOperation,
            "Unknown error opening editor, make sure $EDITOR is set correctly",
        ),
    ];
    for (error, kind, message) in table {
        assert_eq!(error.kind(), kind);
        assert_eq!(error.message(), message);
    }
}
