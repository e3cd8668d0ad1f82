//! Core of a single-window text editor: the document state, the event
//! dispatcher that turns user actions and completed background operations
//! into state transitions, and the effects those transitions request.
//!
//! The dispatcher is a pure transition function over a mathematical model of
//! the document; rendering, dialogs and filesystem access live outside this
//! crate and communicate with it through plain values.

pub mod content;
pub mod document;
pub mod effects;
pub mod error;
pub mod laws;
pub mod paths;
pub mod theme;

pub use content::Content;
pub use content::ContentView;
pub use content::EditAction;
pub use content::EditActionView;
pub use content::clone_chars;
pub use content::offset_at;
pub use document::DocView;
pub use document::Document;
pub use document::Effect;
pub use document::EffectView;
pub use document::Event;
pub use document::EventView;
pub use document::save_shortcut;
pub use effects::load_completed;
pub use effects::open_cancelled;
pub use effects::save_cancelled;
pub use effects::save_completed;
pub use effects::save_dialog_outcome;
pub use error::Error;
pub use error::IoErrorKind;
pub use error::kind_message;
pub use paths::default_file;
pub use paths::extension_of;
pub use theme::Appearance;
pub use theme::Theme;
pub use theme::all_themes;
