//! Backend of a desktop LaTeX editor: it decides where a compilation reads and
//! writes, how the external compiler is invoked, and how the compiler's log
//! becomes a list of diagnostics that an editor can show line by line.
//!
//! The library performs no input or output itself. The caller carries out the
//! actions that [`compile::Compilation`] asks for and reports what happened.

pub mod compile;
pub mod diagnostic;
pub mod extract;
pub mod invoke;
pub mod layout;
pub mod listing;
pub mod pattern;
pub mod text;
