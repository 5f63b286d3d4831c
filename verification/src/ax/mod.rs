//! The accessibility-side logic: the symbol catalog, typed values,
//! parameterized attributes, tree shaping, application selection and
//! element descriptions.

pub mod actions;
pub mod app;
pub mod attributes;
pub mod catalog;
pub mod element;
pub mod mutation;
pub mod observer;
pub mod parameterized;
pub mod tree;
