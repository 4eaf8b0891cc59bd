//! Switching between several git author identities: the account list, the
//! terminal widgets that edit it, and the frame renderer that paints them.
//!
//! Every function here computes on plain values.  What reaches the terminal,
//! git, or the secret store is returned as data for the caller to carry out:
//! commands for the terminal ([`term`]), effects on git and the secret store
//! and requests for what a flow needs to know ([`effects`]).  Each command
//! is a flow: it makes a request, takes the answer, and says what is to be
//! done, until it has no request left.
//!
//! - [`models`]: accounts, the account list, and the key of an account's
//!   secret.
//! - [`identity`]: what git has configured, and the identities among it
//!   that the account list does not hold.
//! - [`style`]: styled text, and its painting with the `colored` crate.
//! - [`render`] and [`screen`]: the frame renderer, and what its commands
//!   come to on a screen.
//! - [`tui`]: the terminal primitives and the widgets.
//! - [`commands`]: the list view with its switch, edit and remove flows,
//!   adding an account, and running git as an account.
//! - [`utils`] and [`github`]: what is said to git, and what a login at
//!   GitHub comes to.

pub mod commands;
pub mod effects;
pub mod github;
pub mod identity;
pub mod models;
pub mod render;
pub mod screen;
pub mod style;
pub mod term;
pub mod text;
pub mod tui;
pub mod utils;
