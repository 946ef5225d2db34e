//! The value model of a document database and its wire form.
//!
//! An [`Expr`] is a scalar, a byte string, a date, an instant, a reference,
//! an object, an array or a match predicate. [`Expr::encode`] gives its wire
//! form as a [`Json`] document: scalars and arrays are plain JSON, and every
//! other kind is an object with one reserved key, so that a map of the
//! caller's keys can never be taken for one of them.

pub mod bytes;
pub mod calendar;
pub mod convert;
pub mod date;
pub mod digits;
pub mod expr;
pub mod json;
pub mod laws;
pub mod object;
pub mod reference;
pub mod set;
pub mod timestamp;

pub use date::Date;
pub use expr::Expr;
pub use json::Json;
pub use object::Object;
pub use reference::Ref;
pub use set::MatchSet;
pub use timestamp::Timestamp;
