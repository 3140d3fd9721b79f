//! What the GUI keeps beside the embedded text editor: the terminal size, a
//! redraw flag, and the viewer files that the editor opened and that are to be
//! handed to viewer tabs.

use vstd::prelude::*;
use crate::paths::{
    is_pdf_or_image_extension, is_same_path, is_viewer_path, lemma_viewer_extension_set, same_path, should_use_viewer,
    spec_path_extension, spec_to_lowercase,
};

verus! {

/// Every path is that of a viewer file.
pub open spec fn all_viewer_paths(paths: Seq<Seq<char>>) -> bool {
    forall|i: int| 0 <= i < paths.len() ==> is_viewer_path(#[trigger] paths[i])
}

/// The editor-side state of the GUI.
pub struct EditorState {
    cols: u16,
    rows: u16,
    dirty: bool,
    last_active_buffer_path: Option<String>,
    opened_image_paths: Vec<String>,
}

/// The view of an optional string.
pub open spec fn opt_view(o: Option<String>) -> Option<Seq<char>> {
    match o {
        Some(s) => Some(s@),
        None => None,
    }
}

impl EditorState {
    /// The terminal width in cells.
    pub closed spec fn width(self) -> int {
        self.cols as int
    }

    /// The terminal height in cells.
    pub closed spec fn height(self) -> int {
        self.rows as int
    }

    /// Whether the editor has to be drawn again.
    pub closed spec fn needs_redraw(self) -> bool {
        self.dirty
    }

    /// The name of the active buffer at the last look, if there was one.
    pub closed spec fn last_path(self) -> Option<Seq<char>> {
        opt_view(self.last_active_buffer_path)
    }

    /// The viewer files waiting to be opened in viewer tabs, oldest first.
    pub closed spec fn pending(self) -> Seq<Seq<char>> {
        self.opened_image_paths@.map_values(|p: String| p@)
    }

    /// Only viewer files wait for a viewer tab.
    pub open spec fn pending_are_viewer_files(self) -> bool {
        all_viewer_paths(self.pending())
    }

    #[verifier::type_invariant]
    closed spec fn inv(self) -> bool {
        self.pending_are_viewer_files()
    }

    /// A state for a terminal of `cols` by `rows` cells that is yet to be drawn.
    pub fn new(cols: u16, rows: u16) -> (s: EditorState)
        ensures
            s.width() == cols,
            s.height() == rows,
            s.needs_redraw(),
            s.last_path() is None,
            s.pending() == Seq::<Seq<char>>::empty(),
    {
        let s = EditorState {
            cols,
            rows,
            dirty: true,
            last_active_buffer_path: None,
            opened_image_paths: Vec::new(),
        };
        assert(s.pending() =~= Seq::<Seq<char>>::empty());
        s
    }

    /// Take a new terminal size; returns whether it differs from the old one,
    /// in which case the editor must be resized and drawn again.
    pub fn resize(&mut self, cols: u16, rows: u16) -> (changed: bool)
        ensures
            changed == (cols != old(self).width() || rows != old(self).height()),
            final(self).width() == cols,
            final(self).height() == rows,
            final(self).needs_redraw() == (old(self).needs_redraw() || changed),
            final(self).last_path() == old(self).last_path(),
            final(self).pending() == old(self).pending(),
    {
        proof {
            use_type_invariant(&*self);
        }
        if cols != self.cols || rows != self.rows {
            self.cols = cols;
            self.rows = rows;
            self.dirty = true;
            true
        } else {
            false
        }
    }

    /// Note that something happened that needs a redraw.
    pub fn mark_dirty(&mut self)
        ensures
            final(self).needs_redraw(),
            final(self).width() == old(self).width(),
            final(self).height() == old(self).height(),
            final(self).last_path() == old(self).last_path(),
            final(self).pending() == old(self).pending(),
    {
        proof {
            use_type_invariant(&*self);
        }
        self.dirty = true;
    }

    /// Whether a redraw is needed; the need is cleared.
    pub fn take_dirty(&mut self) -> (was_dirty: bool)
        ensures
            was_dirty == old(self).needs_redraw(),
            !final(self).needs_redraw(),
            final(self).width() == old(self).width(),
            final(self).height() == old(self).height(),
            final(self).last_path() == old(self).last_path(),
            final(self).pending() == old(self).pending(),
    {
        proof {
            use_type_invariant(&*self);
        }
        let d = self.dirty;
        self.dirty = false;
        d
    }

    /// Whether the active buffer, named `display_name`, is a viewer file that
    /// just became active, and so must be closed in the editor and handed to
    /// a viewer tab.
    pub open spec fn intercepts(self, display_name: Seq<char>) -> bool {
        &&& is_viewer_path(display_name)
        &&& !(self.last_path() matches Some(last) && same_path(last, display_name))
    }

    /// Look at the active buffer, named `display_name`. A viewer file that was
    /// not the active buffer at the last look is queued for a viewer tab and
    /// marks the editor for a redraw; the answer says whether that happened,
    /// so that the buffer is then closed in the editor. Files are recognised
    /// by their extension, whatever the form of their path. The active name is
    /// remembered for the next look.
    pub fn observe_active_buffer(&mut self, display_name: &str) -> (intercepted: bool)
        ensures
            intercepted == old(self).intercepts(display_name@),
            final(self).last_path() == Some(display_name@),
            final(self).pending() == (if intercepted {
                old(self).pending().push(display_name@)
            } else {
                old(self).pending()
            }),
            final(self).needs_redraw() == (old(self).needs_redraw() || intercepted),
            final(self).width() == old(self).width(),
            final(self).height() == old(self).height(),
    {
        proof {
            use_type_invariant(&*self);
        }
        let mut intercepted = false;
        if should_use_viewer(display_name) {
            let same = match &self.last_active_buffer_path {
                Some(last) => is_same_path(last.as_str(), display_name),
                None => false,
            };
            if !same {
                let ghost old_pending = self.pending();
                let mut queue = Vec::new();
                std::mem::swap(&mut queue, &mut self.opened_image_paths);
                queue.push(String::from_str(display_name));
                proof {
                    assert(queue@.map_values(|p: String| p@) =~= old_pending.push(display_name@));
                }
                self.opened_image_paths = queue;
                self.dirty = true;
                intercepted = true;
            }
        }
        self.last_active_buffer_path = Some(String::from_str(display_name));
        intercepted
    }

    /// Hand over the queued viewer files, oldest first, and empty the queue.
    pub fn drain_opened_image_paths(&mut self) -> (paths: Vec<String>)
        ensures
            paths@.len() == old(self).pending().len(),
            forall|i: int| 0 <= i < paths@.len() ==> #[trigger] paths@[i]@ == old(self).pending()[i],
            forall|i: int| 0 <= i < paths@.len() ==> is_viewer_path(#[trigger] paths@[i]@),
            final(self).pending() == Seq::<Seq<char>>::empty(),
            final(self).needs_redraw() == old(self).needs_redraw(),
            final(self).last_path() == old(self).last_path(),
            final(self).width() == old(self).width(),
            final(self).height() == old(self).height(),
    {
        proof {
            use_type_invariant(&*self);
        }
        let ghost old_pending = self.pending();
        let mut paths = Vec::new();
        std::mem::swap(&mut paths, &mut self.opened_image_paths);
        proof {
            assert(paths@.map_values(|p: String| p@) == old_pending);
            assert(paths@.len() == old_pending.len());
            assert(self.pending() =~= Seq::<Seq<char>>::empty());
            assert forall|i: int| 0 <= i < paths@.len() implies is_viewer_path(#[trigger] paths@[i]@) by {
                assert(paths@.map_values(|p: String| p@)[i] == paths@[i]@);
                assert(old_pending[i] == paths@[i]@);
            }
        }
        paths
    }

    /// The terminal width in cells.
    pub fn cols(&self) -> (c: u16)
        ensures
            c == self.width(),
    {
        self.cols
    }

    /// The terminal height in cells.
    pub fn rows(&self) -> (r: u16)
        ensures
            r == self.height(),
    {
        self.rows
    }
}

/// A viewer file is handed to a viewer tab once when it becomes the active
/// buffer: looking at the same active buffer again does not queue it again.
pub proof fn lemma_intercept_once(t: EditorState, display_name: Seq<char>)
    requires
        t.last_path() == Some(display_name),
    ensures
        !t.intercepts(display_name),
{
}

/// Every file with a viewer extension is handed to a viewer tab when it
/// becomes the active buffer, whatever the form of its path (absolute,
/// relative, or with another platform's separators).
pub proof fn lemma_viewer_files_intercepted(t: EditorState, display_name: Seq<char>)
    requires
        is_viewer_path(display_name),
        !(t.last_path() matches Some(last) && same_path(last, display_name)),
    ensures
        t.intercepts(display_name),
{
}

/// A file whose extension, in lower case, is not one of those of PDF and
/// image files (a source file, a TOML or text file, or one without an
/// extension) stays in the text editor: looking at it never queues it.
pub proof fn lemma_other_files_stay(t: EditorState, display_name: Seq<char>)
    requires
        !(spec_path_extension(display_name) matches Some(x) && is_pdf_or_image_extension(spec_to_lowercase(x))),
    ensures
        !t.intercepts(display_name),
{
    lemma_viewer_extension_set(Seq::<char>::empty(), display_name);
}

/// A tab of the dock: the editor, or a viewer with its title.
#[derive(Debug, PartialEq, Eq)]
pub enum Tab {
    Editor,
    Viewer { title: String },
}

/// The title of a tab: "Fresh" for the editor, the viewer's own title otherwise.
pub fn tab_title(tab: &Tab) -> (title: String)
    ensures
        title@ == (match tab {
            Tab::Editor => "Fresh"@,
            Tab::Viewer { title } => title@,
        }),
{
    match tab {
        Tab::Editor => {
            let mut t = String::new();
            t.append("Fresh");
            t
        },
        Tab::Viewer { title } => title.clone(),
    }
}

/// Whether a tab may be closed: every tab but the editor's.
pub fn can_close(tab: &Tab) -> (r: bool)
    ensures
        r == !(tab is Editor),
{
    match tab {
        Tab::Editor => false,
        Tab::Viewer { .. } => true,
    }
}

} // verus!
