//! Inline code completion driven by a locally hosted fill-in-the-middle model.
//!
//! The controller in [`provider`] keeps at most one suggestion, turns edit
//! events into model requests that the host carries out, and decides which
//! answers may still be shown.
pub mod laws;
pub mod path;
pub mod prompt;
pub mod provider;
pub mod text;
