use filebrowser::commands::{
    add_to_clip, change_directory, copy, cut, list_files, new_dirs, new_files, open_editor,
    paste, quit, remove_files, rename,
};
use filebrowser::judging::checked_files;
use filebrowser::lookups::{answer_at, arity, lookups};
use filebrowser::errors::{Arity, CommandError, ErrorKind};
use filebrowser::parser::Verb;
use filebrowser::paths::Resolved;
use filebrowser::plan::{FsOp, Step};
use filebrowser::types::{ClipEntry, State};

fn words(list: &[&str]) -> Vec<String> {
    list.iter().map(|w| w.to_string()).collect()
}

fn file(path: &str) -> Option<Resolved> {
    Some(Resolved::new(path.to_string(), false))
}

fn dir(path: &str) -> Option<Resolved> {
    Some(Resolved::new(path.to_string(), true))
}

fn error(kind: ErrorKind, message: &str) -> CommandError {
    CommandError::new(kind, message.to_string())
}

fn home() -> State {
    State::new(Some("/home/user".to_string()))
}

// ---- what to resolve

#[test]
fn each_verb_has_its_arity() {
    assert_eq!(arity(Verb::CD), Arity::ExactlyOne);
    assert_eq!(arity(Verb::RN), Arity::ExactlyTwo);
    assert_eq!(arity(Verb::LS), Arity::ExactlyZero);
    assert_eq!(arity(Verb::PS), Arity::ExactlyZero);
    assert_eq!(arity(Verb::QT), Arity::ExactlyZero);
    for verb in [Verb::CP, Verb::CT, Verb::RM, Verb::ED, Verb::NF, Verb::ND] {
        assert_eq!(arity(verb), Arity::OneOrMore);
    }
}

#[test]
fn arities_admit_what_they_say() {
    assert!(Arity::ExactlyZero.admits(0));
    assert!(!Arity::ExactlyZero.admits(1));
    assert!(Arity::ExactlyOne.admits(1));
    assert!(!Arity::ExactlyOne.admits(0));
    assert!(!Arity::ExactlyOne.admits(2));
    assert!(Arity::ExactlyTwo.admits(2));
    assert!(!Arity::ExactlyTwo.admits(3));
    assert!(Arity::OneOrMore.admits(1));
    assert!(Arity::OneOrMore.admits(7));
    assert!(!Arity::OneOrMore.admits(0));
}

#[test]
fn files_to_remove_are_looked_up_in_the_current_directory() {
    let wanted = lookups(Verb::RM, &words(&["a.txt", "/etc/b", "../c"]), &home());
    assert_eq!(
        wanted,
        Ok(vec![
            Some("/home/user/a.txt".to_string()),
            Some("/etc/b".to_string()),
            Some("/home/user/../c".to_string()),
        ])
    );
}

#[test]
fn a_rename_looks_up_its_source_only() {
    let wanted = lookups(Verb::RN, &words(&["old", "new"]), &home());
    assert_eq!(wanted, Ok(vec![Some("/home/user/old".to_string()), None]));
}

#[test]
fn a_new_file_has_its_parent_looked_up() {
    let wanted = lookups(Verb::NF, &words(&["x.txt", "sub/y.txt", "/"]), &home());
    assert_eq!(
        wanted,
        Ok(vec![Some("/home/user/".to_string()), Some("/home/user/sub".to_string()), None])
    );
    let wanted = lookups(Verb::ND, &words(&["/var/new"]), &home());
    assert_eq!(wanted, Ok(vec![Some("/var".to_string())]));
}

#[test]
fn verbs_without_arguments_look_nothing_up() {
    for verb in [Verb::LS, Verb::PS, Verb::QT] {
        assert_eq!(lookups(verb, &Vec::new(), &home()), Ok(Vec::new()));
    }
}

#[test]
fn the_count_of_arguments_is_checked_before_anything_is_looked_up() {
    assert_eq!(
        lookups(Verb::CD, &words(&["a", "b"]), &home()),
        Err(error(ErrorKind::ArgumentCount, "This command requires exactly 1 argument"))
    );
    assert_eq!(
        lookups(Verb::LS, &words(&["a"]), &home()),
        Err(error(ErrorKind::ArgumentCount, "This command requires exactly 0 arguments"))
    );
    assert_eq!(
        lookups(Verb::RN, &words(&["a"]), &home()),
        Err(error(ErrorKind::ArgumentCount, "This command requires exactly 2 arguments"))
    );
    assert_eq!(
        lookups(Verb::RM, &Vec::new(), &home()),
        Err(error(ErrorKind::ArgumentCount, "This command requires 1 or more arguments"))
    );
}

#[test]
fn an_argument_without_an_answer_counts_as_not_found() {
    let found = vec![file("/a")];
    assert_eq!(answer_at(&found, 0), Some(&Resolved::new("/a".to_string(), false)));
    assert_eq!(answer_at(&found, 1), None);
    assert_eq!(answer_at(&vec![None], 0), None);
}

#[test]
fn checked_files_hands_back_the_paths_in_order() {
    let found = vec![file("/a"), file("/b"), dir("/c")];
    assert_eq!(checked_files(2, &found), Ok(words(&["/a", "/b"])));
    assert_eq!(checked_files(0, &found), Ok(Vec::new()));
    assert_eq!(
        checked_files(3, &found),
        Err(error(ErrorKind::NotAFile, "Only file deletion supported currently, aborting"))
    );
    assert_eq!(
        checked_files(4, &found),
        Err(error(ErrorKind::NotAFile, "Only file deletion supported currently, aborting"))
    );
}

// ---- cd

#[test]
fn cd_enters_a_directory() {
    let mut state = home();
    state.add_to_clip("/x".to_string(), "x".to_string(), false);
    let entered = change_directory(words(&["sub"]), &vec![dir("/home/user/sub")], &mut state);
    assert_eq!(entered, Ok("/home/user/sub".to_string()));
    assert_eq!(state.get_cwd_str(), "/home/user/sub");
    assert_eq!(state.get_clip().len(), 1);
}

#[test]
fn cd_to_the_parent_takes_the_canonical_path() {
    let mut state = State::new(Some("/a/b".to_string()));
    let entered = change_directory(words(&[".."]), &vec![dir("/a")], &mut state);
    assert_eq!(entered, Ok("/a".to_string()));
    assert_eq!(state.get_cwd_str(), "/a");
}

#[test]
fn cd_needs_exactly_one_argument() {
    let mut state = home();
    let expected = error(ErrorKind::ArgumentCount, "This command requires exactly 1 argument");
    assert_eq!(change_directory(Vec::new(), &Vec::new(), &mut state), Err(expected));
    let expected = error(ErrorKind::ArgumentCount, "This command requires exactly 1 argument");
    assert_eq!(
        change_directory(words(&["a", "b"]), &vec![dir("/a"), dir("/b")], &mut state),
        Err(expected)
    );
    assert_eq!(state.get_cwd_str(), "/home/user");
}

#[test]
fn cd_to_nowhere_is_a_path_error() {
    let mut state = home();
    let refused = change_directory(words(&["nowhere"]), &vec![None], &mut state);
    assert_eq!(
        refused,
        Err(error(
            ErrorKind::PathResolution,
            "Error getting full path. Dir likely doesn't exist"
        ))
    );
    assert_eq!(state.get_cwd_str(), "/home/user");
}

#[test]
fn cd_to_a_file_is_refused_before_the_directory_changes() {
    let mut state = home();
    let refused = change_directory(words(&["a.txt"]), &vec![file("/home/user/a.txt")], &mut state);
    assert_eq!(
        refused,
        Err(error(ErrorKind::NotADirectory, "a.txt is not a directory, aborting"))
    );
    assert_eq!(state.get_cwd_str(), "/home/user");
}

// ---- ls, qt

#[test]
fn ls_lists_the_current_directory() {
    assert_eq!(list_files(Vec::new(), &home()), Ok("/home/user".to_string()));
}

#[test]
fn ls_takes_no_argument() {
    assert_eq!(
        list_files(words(&["x"]), &home()),
        Err(error(ErrorKind::ArgumentCount, "This command requires exactly 0 arguments"))
    );
}

#[test]
fn quit_raises_the_flag() {
    let mut flag = false;
    assert_eq!(quit(Vec::new(), &mut flag), Ok(()));
    assert!(flag);
}

#[test]
fn quit_with_arguments_leaves_the_flag() {
    let mut flag = false;
    assert_eq!(
        quit(words(&["now"]), &mut flag),
        Err(error(ErrorKind::ArgumentCount, "This command requires exactly 0 arguments"))
    );
    assert!(!flag);
}

// ---- rm

fn removal(path: &str) -> Step {
    Step {
        op: FsOp::RemoveFile { path: path.to_string() },
        failure: error(
            ErrorKind::FilesystemOperation,
            &format!("Unable to delete file {}", path),
        ),
        notice: Some(format!("Successfully removed file {}", path)),
    }
}

#[test]
fn rm_plans_one_deletion_for_each_file_in_order() {
    let plan = remove_files(
        words(&["b.txt", "a.txt"]),
        &vec![file("/home/user/b.txt"), file("/home/user/a.txt")],
    );
    assert_eq!(plan, Ok(vec![removal("/home/user/b.txt"), removal("/home/user/a.txt")]));
}

#[test]
fn rm_of_a_missing_file_is_a_path_error() {
    let refused = remove_files(words(&["missing.txt"]), &vec![None]);
    assert_eq!(
        refused,
        Err(error(
            ErrorKind::PathResolution,
            "Error getting full path. File likely doesn't exist"
        ))
    );
}

#[test]
fn rm_missing_txt_returns_an_error_and_plans_nothing() {
    // the directory holds a.txt and b.txt, and no missing.txt
    let outcome = remove_files(words(&["missing.txt"]), &vec![None]);
    let planned = match outcome {
        Ok(ref steps) => steps.len(),
        Err(ref refused) => {
            assert_eq!(refused.kind(), ErrorKind::PathResolution);
            0
        }
    };
    assert_eq!(planned, 0);
    assert!(outcome.is_err());
}

#[test]
fn rm_with_one_missing_file_deletes_nothing() {
    let refused = remove_files(
        words(&["existing_file.txt", "nonexistent.txt"]),
        &vec![file("/home/user/existing_file.txt"), None],
    );
    assert_eq!(
        refused,
        Err(error(
            ErrorKind::PathResolution,
            "Error getting full path. File likely doesn't exist"
        ))
    );
}

#[test]
fn rm_of_a_directory_is_refused() {
    let refused = remove_files(
        words(&["a.txt", "sub"]),
        &vec![file("/home/user/a.txt"), dir("/home/user/sub")],
    );
    assert_eq!(
        refused,
        Err(error(ErrorKind::NotAFile, "Only file deletion supported currently, aborting"))
    );
}

#[test]
fn rm_reports_the_first_thing_that_is_wrong() {
    let refused = remove_files(words(&["sub", "gone"]), &vec![dir("/home/user/sub"), None]);
    assert_eq!(refused.unwrap_err().kind(), ErrorKind::NotAFile);
    let refused = remove_files(words(&["gone", "sub"]), &vec![None, dir("/home/user/sub")]);
    assert_eq!(refused.unwrap_err().kind(), ErrorKind::PathResolution);
}

#[test]
fn rm_needs_an_argument() {
    assert_eq!(
        remove_files(Vec::new(), &Vec::new()),
        Err(error(ErrorKind::ArgumentCount, "This command requires 1 or more arguments"))
    );
}

#[test]
fn rm_counts_a_missing_answer_as_not_found() {
    let refused = remove_files(words(&["a", "b"]), &vec![file("/a")]);
    assert_eq!(refused.unwrap_err().kind(), ErrorKind::PathResolution);
}

// ---- cp, ct

#[test]
fn cp_appends_one_copy_entry_for_each_file() {
    let mut state = home();
    state.add_to_clip("/old".to_string(), "old".to_string(), true);
    let done = copy(
        words(&["a.txt", "b.txt"]),
        &vec![file("/home/user/a.txt"), file("/home/user/b.txt")],
        &mut state,
    );
    assert_eq!(done, Ok(()));
    assert_eq!(
        state.get_clip(),
        &vec![
            ClipEntry::new("/old".to_string(), "old".to_string(), true),
            ClipEntry::new("/home/user/a.txt".to_string(), "a.txt".to_string(), false),
            ClipEntry::new("/home/user/b.txt".to_string(), "b.txt".to_string(), false),
        ]
    );
    assert_eq!(state.get_cwd_str(), "/home/user");
}

#[test]
fn ct_appends_cut_entries() {
    let mut state = home();
    assert_eq!(cut(words(&["a.txt"]), &vec![file("/home/user/a.txt")], &mut state), Ok(()));
    assert_eq!(
        state.get_clip(),
        &vec![ClipEntry::new("/home/user/a.txt".to_string(), "a.txt".to_string(), true)]
    );
}

#[test]
fn a_refused_clip_leaves_the_clipboard() {
    let mut state = home();
    state.add_to_clip("/old".to_string(), "old".to_string(), false);
    let found = vec![file("/home/user/a.txt"), None];
    let refused = copy(words(&["a.txt", "gone"]), &found, &mut state);
    assert_eq!(
        refused,
        Err(error(
            ErrorKind::PathResolution,
            "Error getting full path. File likely doesn't exist"
        ))
    );
    let refused = cut(words(&["sub"]), &vec![dir("/home/user/sub")], &mut state);
    assert_eq!(
        refused,
        Err(error(ErrorKind::NotAFile, "Only file deletion supported currently, aborting"))
    );
    let refused = add_to_clip(Vec::new(), &Vec::new(), &mut state, true);
    assert_eq!(
        refused,
        Err(error(ErrorKind::ArgumentCount, "This command requires 1 or more arguments"))
    );
    assert_eq!(
        state.get_clip(),
        &vec![ClipEntry::new("/old".to_string(), "old".to_string(), false)]
    );
}

// ---- ps

fn duplication(from: &str, to: &str, name: &str, notice: Option<String>) -> Step {
    Step {
        op: FsOp::CopyFile { from: from.to_string(), to: to.to_string() },
        failure: error(
            ErrorKind::FilesystemOperation,
            &format!("Failed to copy file {}, aborting", name),
        ),
        notice,
    }
}

fn cleanup(path: &str, name: &str, dir: &str) -> Step {
    Step {
        op: FsOp::RemoveFile { path: path.to_string() },
        failure: error(
            ErrorKind::PartialCompletion,
            &format!("Failed to clean old version: {}", name),
        ),
        notice: Some(format!("Successfully moved file {} to {}", name, dir)),
    }
}

#[test]
fn pasting_an_empty_clipboard_does_nothing() {
    let mut state = home();
    assert_eq!(paste(Vec::new(), &mut state), Ok(Vec::new()));
    assert!(state.get_clip().is_empty());
    assert_eq!(state.get_cwd_str(), "/home/user");
}

#[test]
fn a_copied_file_is_duplicated_under_its_own_name() {
    let mut state = State::new(Some("/dest".to_string()));
    state.add_to_clip("/src/a.txt".to_string(), "a.txt".to_string(), false);
    let plan = paste(Vec::new(), &mut state);
    assert_eq!(
        plan,
        Ok(vec![duplication(
            "/src/a.txt",
            "/dest/a.txt",
            "a.txt",
            Some("Successfully copied file a.txt to /dest".to_string()),
        )])
    );
    assert!(state.get_clip().is_empty());
}

#[test]
fn a_cut_file_is_duplicated_and_then_removed() {
    let mut state = State::new(Some("/dest".to_string()));
    state.add_to_clip("/src/a.txt".to_string(), "a.txt".to_string(), true);
    let plan = paste(Vec::new(), &mut state);
    assert_eq!(
        plan,
        Ok(vec![
            duplication("/src/a.txt", "/dest/a.txt", "a.txt", None),
            cleanup("/src/a.txt", "a.txt", "/dest"),
        ])
    );
    assert!(state.get_clip().is_empty());
}

#[test]
fn entries_are_pasted_in_the_order_they_were_clipped() {
    let mut state = State::new(Some("/d".to_string()));
    state.add_to_clip("/s/one".to_string(), "one".to_string(), true);
    state.add_to_clip("/s/two".to_string(), "./two".to_string(), false);
    state.add_to_clip("/t/three".to_string(), "../t/three".to_string(), true);
    let plan = paste(Vec::new(), &mut state).unwrap();
    assert_eq!(
        plan,
        vec![
            duplication("/s/one", "/d/one", "one", None),
            cleanup("/s/one", "one", "/d"),
            duplication(
                "/s/two",
                "/d/two",
                "./two",
                Some("Successfully copied file ./two to /d".to_string())
            ),
            duplication("/t/three", "/d/three", "../t/three", None),
            cleanup("/t/three", "../t/three", "/d"),
        ]
    );
}

#[test]
fn paste_takes_no_argument_and_then_keeps_the_clipboard() {
    let mut state = home();
    state.add_to_clip("/s/a".to_string(), "a".to_string(), false);
    assert_eq!(
        paste(words(&["here"]), &mut state),
        Err(error(ErrorKind::ArgumentCount, "This command requires exactly 0 arguments"))
    );
    assert_eq!(state.get_clip().len(), 1);
}

#[test]
fn an_entry_without_a_name_stops_the_paste_before_any_step() {
    let mut state = home();
    state.add_to_clip("/s/a".to_string(), "a".to_string(), false);
    state.add_to_clip("/".to_string(), "root".to_string(), false);
    assert_eq!(
        paste(Vec::new(), &mut state),
        Err(error(ErrorKind::NotAFile, "root is not a file, aborting"))
    );
    assert!(state.get_clip().is_empty());
}

#[test]
fn copy_then_change_directory_then_paste() {
    // /home/user holds a.txt and b.txt, and the directory sub
    let mut state = home();
    assert_eq!(copy(words(&["a.txt"]), &vec![file("/home/user/a.txt")], &mut state), Ok(()));
    assert_eq!(
        state.get_clip(),
        &vec![ClipEntry::new("/home/user/a.txt".to_string(), "a.txt".to_string(), false)]
    );
    let entered = change_directory(words(&["sub"]), &vec![dir("/home/user/sub")], &mut state);
    assert_eq!(entered, Ok("/home/user/sub".to_string()));
    assert_eq!(state.get_cwd_str(), "/home/user/sub");
    let plan = paste(Vec::new(), &mut state).unwrap();
    assert_eq!(plan.len(), 1);
    assert_eq!(
        plan[0].op,
        FsOp::CopyFile {
            from: "/home/user/a.txt".to_string(),
            to: "/home/user/sub/a.txt".to_string(),
        }
    );
    assert!(plan.iter().all(|step| !matches!(step.op, FsOp::RemoveFile { .. })));
    assert!(state.get_clip().is_empty());
}

#[test]
fn cut_then_paste_removes_the_source_after_the_copy() {
    let mut state = home();
    assert_eq!(cut(words(&["a.txt"]), &vec![file("/home/user/a.txt")], &mut state), Ok(()));
    state.set_cwd("/home/user/sub".to_string());
    let plan = paste(Vec::new(), &mut state).unwrap();
    assert_eq!(plan.len(), 2);
    assert_eq!(
        plan[0].op,
        FsOp::CopyFile {
            from: "/home/user/a.txt".to_string(),
            to: "/home/user/sub/a.txt".to_string(),
        }
    );
    assert_eq!(plan[1].op, FsOp::RemoveFile { path: "/home/user/a.txt".to_string() });
    assert_eq!(plan[1].failure.kind(), ErrorKind::PartialCompletion);
}

// ---- rn

#[test]
fn rn_renames_the_resolved_source_to_the_name_as_typed() {
    let plan = rename(words(&["old.txt", "new.txt"]), &vec![file("/home/user/old.txt"), None]);
    assert_eq!(
        plan,
        Ok(vec![Step {
            op: FsOp::Rename { from: "/home/user/old.txt".to_string(), to: "new.txt".to_string() },
            failure: error(ErrorKind::FilesystemOperation, "Rename failed"),
            notice: None,
        }])
    );
}

#[test]
fn rn_may_rename_a_directory() {
    let plan = rename(words(&["sub", "other"]), &vec![dir("/home/user/sub")]).unwrap();
    assert_eq!(
        plan[0].op,
        FsOp::Rename { from: "/home/user/sub".to_string(), to: "other".to_string() }
    );
}

#[test]
fn rn_needs_exactly_two_arguments() {
    for tail in [words(&[]), words(&["a"]), words(&["a", "b", "c"])] {
        assert_eq!(
            rename(tail, &vec![file("/a"), file("/b"), file("/c")]),
            Err(error(ErrorKind::ArgumentCount, "This command requires exactly 2 arguments"))
        );
    }
}

#[test]
fn rn_of_a_missing_source_is_a_path_error() {
    assert_eq!(
        rename(words(&["gone", "new"]), &vec![None, None]),
        Err(error(
            ErrorKind::PathResolution,
            "Error getting full path. File likely doesn't exist"
        ))
    );
}

// ---- nf, nd

#[test]
fn nf_creates_each_file_inside_its_resolved_parent() {
    let plan = new_files(
        words(&["x.txt", "sub/y.txt"]),
        &vec![dir("/home/user"), dir("/home/user/sub")],
    );
    assert_eq!(
        plan,
        Ok(vec![
            Step {
                op: FsOp::CreateFile { path: "/home/user/x.txt".to_string() },
                failure: error(
                    ErrorKind::FilesystemOperation,
                    "Unable to create file /home/user/x.txt"
                ),
                notice: None,
            },
            Step {
                op: FsOp::CreateFile { path: "/home/user/sub/y.txt".to_string() },
                failure: error(
                    ErrorKind::FilesystemOperation,
                    "Unable to create file /home/user/sub/y.txt"
                ),
                notice: None,
            },
        ])
    );
}

#[test]
fn nf_needs_an_argument() {
    assert_eq!(
        new_files(Vec::new(), &Vec::new()),
        Err(error(ErrorKind::ArgumentCount, "This command requires 1 or more arguments"))
    );
}

#[test]
fn nf_without_a_parent_is_refused() {
    assert_eq!(
        new_files(words(&["/"]), &vec![None]),
        Err(error(ErrorKind::PathResolution, "No parent for given path"))
    );
}

#[test]
fn nf_in_a_missing_directory_creates_nothing() {
    assert_eq!(
        new_files(words(&["ok.txt", "gone/y.txt"]), &vec![dir("/home/user"), None]),
        Err(error(
            ErrorKind::PathResolution,
            "Error finding directory for argument gone/y.txt. Likely doesn't exist"
        ))
    );
}

#[test]
fn nf_of_a_path_that_names_no_file_is_refused() {
    assert_eq!(
        new_files(words(&["sub/.."]), &vec![dir("/home/user/sub")]),
        Err(error(
            ErrorKind::NotAFile,
            "sub/.. is not a file, use nd to create directories"
        ))
    );
}

#[test]
fn nf_of_a_path_that_ends_in_a_separator_is_refused() {
    assert_eq!(
        new_files(words(&["sub/"]), &vec![dir("/home/user")]),
        Err(error(ErrorKind::NotAFile, "sub/ is not a file, use nd to create directories"))
    );
    assert_eq!(
        new_files(words(&["ok.txt", "a/b/"]), &vec![dir("/home/user"), dir("/home/user/a")]),
        Err(error(ErrorKind::NotAFile, "a/b/ is not a file, use nd to create directories"))
    );
}

#[test]
fn nf_reports_the_first_thing_that_is_wrong_with_an_argument() {
    // no parent comes before a parent that does not resolve
    let refused = new_files(words(&["/"]), &vec![None]);
    assert_eq!(refused.unwrap_err().kind(), ErrorKind::PathResolution);
    // a parent that does not resolve comes before a path that names no file
    assert_eq!(
        new_files(words(&["gone/sub/"]), &vec![None]),
        Err(error(
            ErrorKind::PathResolution,
            "Error finding directory for argument gone/sub/. Likely doesn't exist"
        ))
    );
}

#[test]
fn nd_creates_each_directory_inside_its_resolved_parent() {
    let found = vec![dir("/home/user"), dir("/home/user/sub")];
    let plan = new_dirs(words(&["fresh", "sub/deeper/"]), &found);
    assert_eq!(
        plan,
        Ok(vec![
            Step {
                op: FsOp::CreateDir { path: "/home/user/fresh".to_string() },
                failure: error(ErrorKind::FilesystemOperation, "Unable to create directory fresh"),
                notice: None,
            },
            Step {
                op: FsOp::CreateDir { path: "/home/user/sub/deeper".to_string() },
                failure: error(
                    ErrorKind::FilesystemOperation,
                    "Unable to create directory sub/deeper/"
                ),
                notice: None,
            },
        ])
    );
}

#[test]
fn nd_needs_an_argument() {
    assert_eq!(
        new_dirs(Vec::new(), &Vec::new()),
        Err(error(ErrorKind::ArgumentCount, "This command requires 1 or more arguments"))
    );
}

#[test]
fn nd_of_a_path_without_a_last_component_is_refused() {
    assert_eq!(
        new_dirs(words(&[".."]), &vec![dir("/home")]),
        Err(error(ErrorKind::NotAFile, "Failed to find last component of path"))
    );
    assert_eq!(
        new_dirs(words(&["/"]), &vec![None]),
        Err(error(ErrorKind::NotAFile, "Failed to find last component of path"))
    );
}

#[test]
fn nd_in_a_missing_directory_creates_nothing() {
    assert_eq!(
        new_dirs(words(&["ok", "gone/d"]), &vec![dir("/home/user"), None]),
        Err(error(
            ErrorKind::PathResolution,
            "Can't find parent directory for argument gone/d"
        ))
    );
}

// ---- ed

#[test]
fn ed_launches_the_editor_on_the_arguments_as_typed() {
    let plan = open_editor(
        words(&["a.txt", "../b.txt"]),
        &vec![file("/home/user/a.txt"), file("/home/b.txt")],
        Some("vi".to_string()),
    );
    assert_eq!(
        plan,
        Ok(vec![Step {
            op: FsOp::Launch { program: "vi".to_string(), args: words(&["a.txt", "../b.txt"]) },
            failure: error(
                ErrorKind::FilesystemOperation,
                "Unknown error opening editor, make sure $EDITOR is set correctly"
            ),
            notice: None,
        }])
    );
}

#[test]
fn ed_without_an_editor_succeeds_and_does_nothing() {
    let plan = open_editor(words(&["a.txt"]), &vec![file("/home/user/a.txt")], None);
    assert_eq!(plan, Ok(Vec::new()));
}

#[test]
fn ed_checks_its_files_even_without_an_editor() {
    assert_eq!(
        open_editor(words(&["gone"]), &vec![None], None),
        Err(error(
            ErrorKind::PathResolution,
            "Unable to process argument gone, file likely doesn't exist"
        ))
    );
}

#[test]
fn ed_of_a_directory_is_refused() {
    assert_eq!(
        open_editor(
            words(&["a.txt", "sub"]),
            &vec![file("/home/user/a.txt"), dir("/home/user/sub")],
            Some("vi".to_string())
        ),
        Err(error(ErrorKind::NotAFile, "sub is not a file, aborting"))
    );
}

#[test]
fn ed_needs_an_argument() {
    assert_eq!(
        open_editor(Vec::new(), &Vec::new(), Some("vi".to_string())),
        Err(error(ErrorKind::ArgumentCount, "This command requires 1 or more arguments"))
    );
}
