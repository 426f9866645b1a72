//! File names that are safe to create on Windows, macOS and Linux.
//!
//! A name is checked with [`is_safe_name`] and rewritten with [`to_safe_name`]
//! (or, with the usual choices made, [`simply_to_safe_name`]).
//!
//! Names are modelled as `Seq<char>`, the view of a `String`; every function
//! states its result over that model.

pub mod laws;
pub mod policy;
pub mod reserved;
pub mod rules;
pub mod safety;
pub mod sanitize;
pub mod text;

pub use rules::{NOT_ALLOWED_CHARS, NOT_ALLOWED_NAMES, NOT_ALLOWED_NAMES_WIN11};
pub use policy::{DotHandlingPolicy, ReplaceChar, ReplaceMethod, ReplaceMethodTableConstructor};
pub use reserved::{is_name_reserved, is_uppercased_name_reserved};
pub use sanitize::{correct_name, guard_name, simply_to_safe_name, to_safe_name};
pub use safety::{is_safe_name, is_safe_unless_name_reserved};
