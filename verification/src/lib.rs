//! Terminal view navigation engine for a zettelkasten note tool.
//!
//! The engine owns the current screen (login, register, config, or the note
//! screen), interprets the transition a screen requests after one frame, and
//! computes the next screen.  Everything the host must do on the outside —
//! storage calls, running the external editor, drawing the modal dialog — is
//! returned as an explicit step value, and a follow-up function turns the
//! outcome of that work back into a screen.

pub mod auth;
pub mod dialog;
pub mod screens;
pub mod storage;
pub mod view;
