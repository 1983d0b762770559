//! The editing model of a text-to-speech editor.
//!
//! A project is a list of text lines, each with a voice style and synthesis
//! parameters ([`project`]). Every change of a field of a line goes through
//! the history of the project, which folds the fine-grained changes of one
//! gesture into one entry and walks the entries on undo and redo
//! ([`history`]). Around the two stands the editor as a state machine
//! ([`editor`]), with its tool bar ([`toolbar`]), its menus ([`menu`]), what
//! it remembers between runs ([`state`]) and what it knows of the engine's
//! characters ([`characters`]). The requests to the synthesis engine are
//! described in [`api`], and the records that travel in [`api_schema`].
//!
//! Real-valued parameters are carried by their bit pattern ([`scalar`]), and
//! images and sounds arrive as base64 text ([`codec`]).

pub mod api;
pub mod api_schema;
pub mod characters;
pub mod codec;
pub mod editor;
pub mod history;
pub mod menu;
pub mod project;
pub mod scalar;
pub mod state;
pub mod toolbar;
pub mod views;
