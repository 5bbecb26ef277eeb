//! The interaction core of a glyph editor: a stack of tool behaviors that
//! receives the editor's events, and the transactions that turn each
//! gesture's burst of edits into one undoable step.
//!
//! - `events`: pointer snapshots and the closed set of editor events.
//! - `document`: glyphs, layers, guidelines and anchors, with their models.
//! - `editor`: the dispatch host, its transactions, history and prompts.
//! - `tool_behaviors`: the behaviors that can sit on the stack.
//! - `laws`: what holds of whole event sequences.

use vstd::prelude::*;

pub mod events;
pub mod document;
pub mod editor;
pub mod tool_behaviors;
pub mod laws;

verus! {

} // verus!
