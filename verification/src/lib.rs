//! A small task tracker: a collection of todo entries with priorities, tags
//! and due dates, the selection and rendering of listings, and a command-line
//! grammar. Every function states what it returns and is proved to do so.

pub mod text;
pub mod due;
pub mod todo;
pub mod cli;
