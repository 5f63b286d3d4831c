//! Core logic of `ax`, a terminal inspector for the macOS accessibility tree:
//! the error vocabulary, the symbol catalog, argument parsing, tree pruning,
//! selector planning, image encoding and the plain-text renderers.

pub mod ax;
pub mod capture;
pub mod cli;
pub mod error;
pub mod output;
pub mod text;
