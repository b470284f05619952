//! Keeps the light/dark theme of a set of applications in step with the
//! desktop-wide colour-scheme preference.
//!
//! The library holds the decisions: how preference text maps to a theme, how
//! a token is swapped in a file's text, and the protocol that drives one
//! theme change across every configured application. Reading and writing
//! files, looking up the environment and running commands are left to the
//! caller, which performs each step the protocol asks for and reports back.
pub mod configurator;
pub mod error;
pub mod fanout;
pub mod monitor;
pub mod text;
pub mod theme;
