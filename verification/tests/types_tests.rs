use filebrowser::paths::{ends_in_separator, get_canon_path, get_file_name, Resolved};
use filebrowser::types::{ClipEntry, State};

#[test]
fn a_session_starts_at_home() {
    let state = State::new(Some("/home/user".to_string()));
    assert_eq!(state.get_cwd_str(), "/home/user");
    assert_eq!(state.get_cwd(), "/home/user");
    assert!(state.get_clip().is_empty());
}

#[test]
fn a_session_without_home_starts_at_the_root() {
    let state = State::new(None);
    assert_eq!(state.get_cwd_str(), "/");
    assert!(state.get_clip().is_empty());
}

#[test]
fn clip_entry_getters_give_back_the_fields() {
    let entry = ClipEntry::new("/home/user/a.txt".to_string(), "a.txt".to_string(), true);
    assert_eq!(entry.get_path(), "/home/user/a.txt");
    assert_eq!(entry.get_name(), "a.txt");
    assert!(entry.is_cut());
    let other = ClipEntry::new("/b".to_string(), "b".to_string(), false);
    assert!(!other.is_cut());
}

#[test]
fn set_cwd_leaves_the_clipboard() {
    let mut state = State::new(None);
    state.add_to_clip("/a".to_string(), "a".to_string(), false);
    state.set_cwd("/tmp".to_string());
    assert_eq!(state.get_cwd_str(), "/tmp");
    assert_eq!(state.get_clip().len(), 1);
}

#[test]
fn the_clipboard_keeps_insertion_order_and_drains_whole() {
    let mut state = State::new(Some("/h".to_string()));
    state.add_to_clip("/h/one".to_string(), "one".to_string(), false);
    state.add_to_clip("/h/two".to_string(), "two".to_string(), true);
    state.add_to_clip("/h/three".to_string(), "three".to_string(), false);
    let taken = state.clear_clip();
    assert_eq!(
        taken,
        vec![
            ClipEntry::new("/h/one".to_string(), "one".to_string(), false),
            ClipEntry::new("/h/two".to_string(), "two".to_string(), true),
            ClipEntry::new("/h/three".to_string(), "three".to_string(), false),
        ]
    );
    assert!(state.get_clip().is_empty());
    assert_eq!(state.get_cwd_str(), "/h");
    assert!(state.clear_clip().is_empty());
}

#[test]
fn get_file_name_is_the_text_of_the_path() {
    assert_eq!(get_file_name("/home/user/a.txt"), "/home/user/a.txt");
    assert_eq!(get_file_name(""), "");
}

#[test]
fn a_relative_argument_is_pushed_onto_the_current_directory() {
    let state = State::new(Some("/a/b".to_string()));
    assert_eq!(get_canon_path("c.txt", &state), "/a/b/c.txt");
    assert_eq!(get_canon_path("..", &state), "/a/b/..");
}

#[test]
fn an_absolute_argument_stands_for_itself() {
    let state = State::new(Some("/a/b".to_string()));
    assert_eq!(get_canon_path("/etc/hosts", &state), "/etc/hosts");
}

#[test]
fn resolved_holds_what_was_found() {
    let found = Resolved::new("/a".to_string(), true);
    assert_eq!(found.path, "/a");
    assert!(found.is_dir);
}

#[test]
fn a_path_ends_in_a_separator_or_not() {
    assert!(ends_in_separator("sub/"));
    assert!(ends_in_separator("/"));
    assert!(!ends_in_separator("sub"));
    assert!(!ends_in_separator("sub/a.txt"));
    assert!(!ends_in_separator(""));
    assert!(!ends_in_separator("caf\u{e9}"));
    assert!(ends_in_separator("caf\u{e9}/"));
}
