//! The document state and the event dispatcher.
//!
//! The dispatcher maps each incoming event to a synchronous update of the
//! document and at most one requested background effect. Its behaviour is
//! the pure transition function [`step`] over the document's mathematical
//! model; the executable [`Document::update`] is proved to implement it.

use vstd::prelude::*;

use crate::content::Content;
use crate::content::ContentView;
use crate::content::EditAction;
use crate::content::EditActionView;
use crate::content::apply_edit;
use crate::content::clone_chars;
use crate::error::Error;
use crate::error::IoErrorKind;
use crate::theme::Appearance;
use crate::theme::Theme;

verus! {

/// A discrete input to the dispatcher: a user action, or the completion of
/// a background operation.
pub enum Event {
    /// The user edited the buffer.
    Edit(EditAction),
    /// The user asked to open a file through a dialog.
    RequestOpen,
    /// The user asked for a fresh, empty document.
    RequestNew,
    /// The user asked to save the document.
    RequestSave,
    /// A load completed: the chosen path and the text read, or a failure.
    FileOpened(Result<(Vec<char>, Vec<char>), Error>),
    /// A save completed: the path written, or a failure.
    FileSaved(Result<Vec<char>, Error>),
    /// The user picked a highlighting theme.
    ThemeSelected(Theme),
}

/// Mathematical model of an event.
pub enum EventView {
    Edit(EditActionView),
    RequestOpen,
    RequestNew,
    RequestSave,
    FileOpened(Result<(Seq<char>, Seq<char>), Error>),
    FileSaved(Result<Seq<char>, Error>),
    ThemeSelected(Theme),
}

impl View for Event {
    type V = EventView;

    open spec fn view(&self) -> EventView {
        match self {
            Event::Edit(a) => EventView::Edit(a@),
            Event::RequestOpen => EventView::RequestOpen,
            Event::RequestNew => EventView::RequestNew,
            Event::RequestSave => EventView::RequestSave,
            Event::FileOpened(Ok((path, text))) => EventView::FileOpened(Ok((path@, text@))),
            Event::FileOpened(Err(e)) => EventView::FileOpened(Err(*e)),
            Event::FileSaved(Ok(path)) => EventView::FileSaved(Ok(path@)),
            Event::FileSaved(Err(e)) => EventView::FileSaved(Err(*e)),
            Event::ThemeSelected(t) => EventView::ThemeSelected(*t),
        }
    }
}

/// A background operation requested by one dispatch. It runs off the
/// synchronous path and reports exactly one completion event.
pub enum Effect {
    /// Prompt the user to pick a file, then load it.
    OpenDialog,
    /// Read the file at the given path.
    Load(Vec<char>),
    /// Write the given snapshot of the text to the path, prompting for a
    /// save location first when no path is known yet.
    Save(Option<Vec<char>>, Vec<char>),
}

/// Mathematical model of an effect.
pub enum EffectView {
    OpenDialog,
    Load(Seq<char>),
    Save(Option<Seq<char>>, Seq<char>),
}

impl View for Effect {
    type V = EffectView;

    open spec fn view(&self) -> EffectView {
        match self {
            Effect::OpenDialog => EffectView::OpenDialog,
            Effect::Load(path) => EffectView::Load(path@),
            Effect::Save(Some(path), text) => EffectView::Save(Some(path@), text@),
            Effect::Save(None, text) => EffectView::Save(None, text@),
        }
    }
}

/// The model of an optional effect.
pub open spec fn effect_view(eff: Option<Effect>) -> Option<EffectView> {
    match eff {
        Some(e) => Some(e@),
        None => None,
    }
}

/// Mathematical model of the document: its backing path, buffer, dirty
/// flag, last failure, and theme.
pub struct DocView {
    pub path: Option<Seq<char>>,
    pub content: ContentView,
    pub dirty: bool,
    pub error: Option<Error>,
    pub theme: Theme,
}

/// The model of an optional owned path.
pub open spec fn opt_path_view(path: Option<Vec<char>>) -> Option<Seq<char>> {
    match path {
        Some(p) => Some(p@),
        None => None,
    }
}

/// The in-memory record of the one open document.
pub struct Document {
    pub path: Option<Vec<char>>,
    pub content: Content,
    pub is_dirty: bool,
    pub error: Option<Error>,
    pub theme: Theme,
}

impl View for Document {
    type V = DocView;

    open spec fn view(&self) -> DocView {
        DocView {
            path: opt_path_view(self.path),
            content: self.content@,
            dirty: self.is_dirty,
            error: self.error,
            theme: self.theme,
        }
    }
}

/// The transition table: what one event does to the document, and which
/// effect, if any, the dispatch requests.
///
/// An edit mutates the buffer, marks the document dirty if the action was
/// mutating, and clears any previous failure. A save request snapshots the
/// current text at dispatch time, so edits made while the save is in flight
/// cannot leak into it. Completions react only to their own payload: a
/// successful load or save records the path and clears the dirty flag; a
/// failed one records the failure and leaves buffer and path untouched.
pub open spec fn step(d: DocView, e: EventView) -> (DocView, Option<EffectView>) {
    match e {
        EventView::Edit(a) => (
            DocView {
                content: apply_edit(d.content, a),
                dirty: d.dirty || a.is_edit_spec(),
                error: None,
                ..d
            },
            None,
        ),
        EventView::RequestOpen => (d, Some(EffectView::OpenDialog)),
        EventView::RequestNew => (
            DocView {
                path: None,
                content: ContentView { text: Seq::<char>::empty(), cursor: 0 },
                dirty: true,
                ..d
            },
            None,
        ),
        EventView::RequestSave => (d, Some(EffectView::Save(d.path, d.content.text))),
        EventView::FileOpened(Ok((path, text))) => (
            DocView {
                path: Some(path),
                content: ContentView { text: text, cursor: 0 },
                dirty: false,
                ..d
            },
            None,
        ),
        EventView::FileOpened(Err(err)) => (DocView { error: Some(err), ..d }, None),
        EventView::FileSaved(Ok(path)) => (
            DocView { path: Some(path), dirty: false, ..d },
            None,
        ),
        EventView::FileSaved(Err(err)) => (DocView { error: Some(err), ..d }, None),
        EventView::ThemeSelected(t) => (DocView { theme: t, ..d }, None),
    }
}

/// The one machine limit on dispatch: inserting into a buffer that already
/// holds the largest addressable number of characters cannot be represented.
pub open spec fn event_fits(d: DocView, e: EventView) -> bool {
    e matches EventView::Edit(EditActionView::Insert(_)) ==> d.content.text.len() < usize::MAX
}

/// The failure kind shown in the status area: only a filesystem failure is
/// displayed; a closed dialog is not distinguishable from the idle state.
pub open spec fn shown_error_spec(d: DocView) -> Option<IoErrorKind> {
    match d.error {
        Some(Error::IoFailed(kind)) => Some(kind),
        _ => None,
    }
}

impl Document {
    /// The document is well-formed when its buffer is.
    pub open spec fn wf(&self) -> bool {
        self.content.wf()
    }

    /// Returns the startup document and the effect that loads the default
    /// file: a path-less, dirty document holding the given text, with no
    /// failure recorded and the default theme selected.
    pub fn init(initial_text: Vec<char>, default_path: Vec<char>) -> (r: (Document, Effect))
        ensures
            r.0@ == (DocView {
                path: None,
                content: ContentView { text: initial_text@, cursor: 0 },
                dirty: true,
                error: None,
                theme: Theme::SolarizedDark,
            }),
            r.0.wf(),
            r.1@ == EffectView::Load(default_path@),
    {
        let document = Document {
            path: None,
            content: Content::with_text(initial_text),
            is_dirty: true,
            error: None,
            theme: Theme::SolarizedDark,
        };
        (document, Effect::Load(default_path))
    }

    /// Dispatches one event: updates the document as the transition table
    /// [`step`] says and returns the effect, if any, that the event
    /// requests.
    pub fn update(&mut self, event: Event) -> (eff: Option<Effect>)
        requires
            old(self).wf(),
            event_fits(old(self)@, event@),
        ensures
            final(self)@ == step(old(self)@, event@).0,
            effect_view(eff) == step(old(self)@, event@).1,
            final(self).wf(),
    {
        match event {
            Event::Edit(a) => {
                self.is_dirty = self.is_dirty || a.is_edit();
                self.error = None;
                self.content.apply(a);
                None
            },
            Event::RequestOpen => Some(Effect::OpenDialog),
            Event::RequestNew => {
                self.path = None;
                self.content = Content::new();
                self.is_dirty = true;
                None
            },
            Event::RequestSave => {
                let path = match &self.path {
                    Some(p) => Some(clone_chars(p)),
                    None => None,
                };
                let snapshot = clone_chars(&self.content.text);
                Some(Effect::Save(path, snapshot))
            },
            Event::FileOpened(Ok((path, text))) => {
                self.path = Some(path);
                self.content = Content::with_text(text);
                self.is_dirty = false;
                None
            },
            Event::FileOpened(Err(err)) => {
                self.error = Some(err);
                None
            },
            Event::FileSaved(Ok(path)) => {
                self.path = Some(path);
                self.is_dirty = false;
                None
            },
            Event::FileSaved(Err(err)) => {
                self.error = Some(err);
                None
            },
            Event::ThemeSelected(t) => {
                self.theme = t;
                None
            },
        }
    }

    /// Returns the failure kind to display, if any: a filesystem failure is
    /// shown with its kind; no failure, or a closed dialog, shows nothing.
    pub fn shown_error(&self) -> (r: Option<IoErrorKind>)
        ensures
            r == shown_error_spec(self@),
    {
        match self.error {
            Some(Error::IoFailed(kind)) => Some(kind),
            _ => None,
        }
    }

    /// Returns the window appearance the selected theme calls for.
    pub fn appearance(&self) -> (a: Appearance)
        ensures
            a == (if self.theme.is_dark_spec() {
                Appearance::Dark
            } else {
                Appearance::Light
            }),
    {
        self.theme.appearance()
    }
}

/// Returns the event a key press stands for: the save shortcut is the S
/// key, in either case, with the command modifier held; every other key
/// does nothing.
pub fn save_shortcut(key: char, command: bool) -> (e: Option<Event>)
    ensures
        (command && (key == 's' || key == 'S')) ==> (e matches Some(ev) && ev@
            == EventView::RequestSave),
        !(command && (key == 's' || key == 'S')) ==> e is None,
{
    if command && (key == 's' || key == 'S') {
        Some(Event::RequestSave)
    } else {
        None
    }
}

} // verus!
