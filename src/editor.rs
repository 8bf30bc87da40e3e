//! The editor's state and the decisions its menu makes on it.
use vstd::prelude::*;
use std::path::PathBuf;

verus! {

/// Declares std's `PathBuf` as an opaque type: a chosen file's path is only
/// carried from a menu event to the action that writes it.
#[verifier::external_type_specification]
#[verifier::external_body]
pub struct ExPathBuf(std::path::PathBuf);

/// The state of the editor window.
pub struct Eraser {
    /// The text that the file menu loads into and saves from.
    pub editor_contents: String,
    pub last_file_path: Option<PathBuf>,
    pub is_fullscreen: bool,
    /// The markdown text that the editing pane shows and the preview renders.
    pub markdown_input: String,
    pub is_dirty: bool,
}

impl Default for Eraser {
    /// An empty, windowed editor with no file behind it.
    fn default() -> (r: Self)
        ensures
            r.editor_contents@ == Seq::<char>::empty(),
            r.last_file_path.is_none(),
            !r.is_fullscreen,
            r.markdown_input@ == Seq::<char>::empty(),
            r.is_dirty,
    {
        Eraser {
            editor_contents: String::new(),
            last_file_path: None,
            is_fullscreen: false,
            markdown_input: String::new(),
            is_dirty: true,
        }
    }
}

/// What the user did in the menu, with what the shell already obtained for it.
pub enum MenuEvent {
    /// "New" was chosen.
    New,
    /// A file was chosen to open, and read into this text.
    Opened(String),
    /// A file was chosen to save to ("Save" or "Save as...").
    SaveTo(PathBuf),
    /// The fullscreen checkbox changed to this value.
    Fullscreen(bool),
    /// "Exit" was chosen.
    Exit,
}

/// What the shell must do after the editor handled a menu event.
pub enum MenuAction {
    Nothing,
    /// Write this text to this file.
    Write(PathBuf, String),
    /// Switch the window's fullscreen mode to this value.
    SetFullscreen(bool),
    /// End the program.
    Quit,
}

impl Eraser {
    /// Applies a menu event to the editor state and says what the shell must
    /// do next. "New" clears the markdown text; an opened file replaces the
    /// editor contents; saving writes the editor contents; the fullscreen
    /// checkbox is mirrored into the state and passed on to the window.
    pub fn handle(&mut self, ev: MenuEvent) -> (r: MenuAction)
        ensures
            final(self).last_file_path == old(self).last_file_path,
            final(self).is_dirty == old(self).is_dirty,
            match ev {
                MenuEvent::New => {
                    &&& final(self).markdown_input@ == Seq::<char>::empty()
                    &&& final(self).editor_contents == old(self).editor_contents
                    &&& final(self).is_fullscreen == old(self).is_fullscreen
                    &&& r is Nothing
                },
                MenuEvent::Opened(text) => {
                    &&& final(self).editor_contents == text
                    &&& final(self).markdown_input == old(self).markdown_input
                    &&& final(self).is_fullscreen == old(self).is_fullscreen
                    &&& r is Nothing
                },
                MenuEvent::SaveTo(path) => {
                    &&& final(self).editor_contents == old(self).editor_contents
                    &&& final(self).markdown_input == old(self).markdown_input
                    &&& final(self).is_fullscreen == old(self).is_fullscreen
                    &&& r == MenuAction::Write(path, old(self).editor_contents)
                },
                MenuEvent::Fullscreen(on) => {
                    &&& final(self).editor_contents == old(self).editor_contents
                    &&& final(self).markdown_input == old(self).markdown_input
                    &&& final(self).is_fullscreen == on
                    &&& r == MenuAction::SetFullscreen(on)
                },
                MenuEvent::Exit => {
                    &&& final(self).editor_contents == old(self).editor_contents
                    &&& final(self).markdown_input == old(self).markdown_input
                    &&& final(self).is_fullscreen == old(self).is_fullscreen
                    &&& r is Quit
                },
            },
    {
        match ev {
            MenuEvent::New => {
                self.markdown_input = String::new();
                MenuAction::Nothing
            },
            MenuEvent::Opened(text) => {
                self.editor_contents = text;
                MenuAction::Nothing
            },
            MenuEvent::SaveTo(path) => MenuAction::Write(path, self.editor_contents.clone()),
            MenuEvent::Fullscreen(on) => {
                self.is_fullscreen = on;
                MenuAction::SetFullscreen(on)
            },
            MenuEvent::Exit => MenuAction::Quit,
        }
    }
}

} // verus!
