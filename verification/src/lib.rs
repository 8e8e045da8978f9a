//! Conversions between identifier capitalization conventions: capitalized,
//! camel case, snake case and dashed, together with predicates that test
//! whether a string already follows a convention.
//!
//! Every transform is pure and total: it reads a `&str`, allocates a fresh
//! `String`, and never panics on any well-formed Unicode input, the empty
//! string included. The contracts state each result character by character
//! over the view of the input.

pub mod ascii;
pub mod model;
pub mod unicode;
pub mod convert;

pub use ascii::is_ascii_uppercase;
pub use convert::is_camel_lowercase;
pub use convert::is_capitalized;
pub use convert::to_camel;
pub use convert::to_camel_internal;
pub use convert::to_camel_lowercase;
pub use convert::to_capitalized;
pub use convert::to_dashed;
pub use convert::to_snake;
