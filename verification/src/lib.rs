//! Presentation layer of an offline documentation lookup tool.
//!
//! A documentation entry is turned into a markup document, an ordered list of
//! formatting directives, and a markup document is turned into terminal text.
//! Every function has a contract over sequences of characters and is proved
//! to meet it.

pub mod cli;
pub mod document;
pub mod formatter;
pub mod markup;
pub mod presenter;
pub mod terminal;
pub mod text;
