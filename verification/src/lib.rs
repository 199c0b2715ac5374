//! A parser for a Concerto-style schema-definition language.
//!
//! The input text declares a namespace (a dotted name with a semantic
//! version) and a sequence of concept declarations, each holding typed,
//! validated properties.  Parsing is purely functional over a sequence of
//! characters: every parser takes the input and a position and either
//! succeeds with a value and the new position or fails with a structured
//! error.  Each parser's behaviour is pinned down by a specification-level
//! grammar function, stated over `Seq<char>`.

pub mod boolean_property;
pub mod common;
pub mod concerto;
pub mod datetime;
pub mod declaration;
pub mod datetime_property;
pub mod double_property;
pub mod error;
pub mod integer_property;
pub mod keywords;
pub mod long_property;
pub mod meta_property;
pub mod model;
pub mod namespace;
pub mod numeric;
pub mod property;
pub mod ranged;
pub mod scan;
pub mod string_property;
pub mod strings;
pub mod version;
