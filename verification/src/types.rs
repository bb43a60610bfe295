//! Session state: the current directory and the clipboard.

use vstd::prelude::*;

verus! {

/// A file staged for a later paste. Its path is the one found when it was
/// clipped: nobody looks again before the paste, so a file that has gone or
/// changed in between is met only when the paste is carried out.
#[derive(Debug, PartialEq, Eq)]
pub struct ClipEntry {
    path: String,
    name: String,
    is_cut: bool,
}

/// What a [`ClipEntry`] holds, as plain values.
#[verifier::ext_equal]
pub struct ClipEntryView {
    /// Canonical path of the file, as found when it was clipped.
    pub path: Seq<char>,
    /// The text the user typed to identify the file.
    pub name: Seq<char>,
    /// Whether pasting removes the source afterwards.
    pub is_cut: bool,
}

impl View for ClipEntry {
    type V = ClipEntryView;

    closed spec fn view(&self) -> ClipEntryView {
        ClipEntryView { path: self.path@, name: self.name@, is_cut: self.is_cut }
    }
}

impl DeepView for ClipEntry {
    type V = ClipEntryView;

    open spec fn deep_view(&self) -> ClipEntryView {
        self@
    }
}

impl ClipEntry {
    pub fn new(path: String, name: String, is_cut: bool) -> (entry: ClipEntry)
        ensures
            entry@ == (ClipEntryView { path: path@, name: name@, is_cut }),
    {
        ClipEntry { path, name, is_cut }
    }

    pub fn get_path(&self) -> (path: String)
        ensures
            path@ == self@.path,
    {
        self.path.clone()
    }

    pub fn is_cut(&self) -> (cut: bool)
        ensures
            cut == self@.is_cut,
    {
        self.is_cut
    }

    pub fn get_name(&self) -> (name: &str)
        ensures
            name@ == self@.name,
    {
        self.name.as_str()
    }
}

/// The session: where the user is, and what they have clipped.
#[derive(Debug)]
pub struct State {
    cwd: String,
    clip: Vec<ClipEntry>,
}

/// What a [`State`] holds, as plain values.
#[verifier::ext_equal]
pub struct StateView {
    /// The current directory.
    pub cwd: Seq<char>,
    /// The clipboard, oldest entry first.
    pub clip: Seq<ClipEntryView>,
}

/// The directory a session starts in when no home directory is known.
pub open spec fn root_dir() -> Seq<char> {
    seq!['/']
}

impl View for State {
    type V = StateView;

    closed spec fn view(&self) -> StateView {
        StateView { cwd: self.cwd@, clip: self.clip.deep_view() }
    }
}

impl DeepView for State {
    type V = StateView;

    open spec fn deep_view(&self) -> StateView {
        self@
    }
}

impl State {
    /// Starts a session in `home`, or at the filesystem root when there is none.
    /// The clipboard starts empty.
    pub fn new(home: Option<String>) -> (state: State)
        ensures
            state@.cwd == (match home {
                Some(dir) => dir@,
                None => root_dir(),
            }),
            state@.clip == Seq::<ClipEntryView>::empty(),
    {
        let cwd = match home {
            Some(dir) => dir,
            None => {
                proof {
                    reveal_strlit("/");
                }
                assert("/"@ =~= root_dir());
                "/".to_owned()
            },
        };
        let state = State { cwd, clip: Vec::new() };
        assert(state.clip.deep_view() =~= Seq::<ClipEntryView>::empty());
        state
    }

    pub fn get_cwd_str(&self) -> (cwd: String)
        ensures
            cwd@ == self@.cwd,
    {
        self.cwd.clone()
    }

    pub fn get_cwd(&self) -> (cwd: &String)
        ensures
            cwd@ == self@.cwd,
    {
        &self.cwd
    }

    /// The clipboard, oldest entry first.
    pub fn get_clip(&self) -> (clip: &Vec<ClipEntry>)
        ensures
            clip.deep_view() == self@.clip,
    {
        &self.clip
    }

    /// Makes `path` the current directory. The clipboard is untouched.
    pub fn set_cwd(&mut self, path: String)
        ensures
            final(self)@.cwd == path@,
            final(self)@.clip == old(self)@.clip,
    {
        self.cwd = path;
    }

    /// Appends one entry to the clipboard.
    pub fn add_to_clip(&mut self, path: String, name: String, is_cut: bool)
        ensures
            final(self)@.cwd == old(self)@.cwd,
            final(self)@.clip == old(self)@.clip.push(
                ClipEntryView { path: path@, name: name@, is_cut },
            ),
    {
        let entry = ClipEntry::new(path, name, is_cut);
        self.clip.push(entry);
        assert(self.clip.deep_view() =~= old(self).clip.deep_view().push(entry@));
    }

    /// Takes every entry off the clipboard in one step, oldest first.
    pub fn clear_clip(&mut self) -> (taken: Vec<ClipEntry>)
        ensures
            taken.deep_view() == old(self)@.clip,
            final(self)@.clip == Seq::<ClipEntryView>::empty(),
            final(self)@.cwd == old(self)@.cwd,
    {
        let mut taken: Vec<ClipEntry> = Vec::new();
        std::mem::swap(&mut self.clip, &mut taken);
        assert(self.clip.deep_view() =~= Seq::<ClipEntryView>::empty());
        taken
    }
}

} // verus!
