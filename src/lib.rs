//! Random, human-readable names built from an adjective, a noun and an
//! optional number, such as `"rusty-nail"` or `"pushy-pencil-5602"`.
//!
//! A [`Generator`] draws one adjective and one noun from its word lists,
//! joins them in the style of a [`Casing`], appends a number as its [`Name`]
//! strategy asks, and finally applies a [`Length`] policy. A
//! [`GeneratorBuilder`] assembles one from optional settings and rejects
//! empty word lists.
pub mod builder;
pub mod case_text;
pub mod casing;
pub mod digits;
pub mod error;
pub mod generator;
pub mod naming;
pub mod rng;
pub mod separator;
pub mod words;

pub use builder::GeneratorBuilder;
pub use casing::Casing;
pub use error::Error;
pub use generator::{Generator, GeneratorConfig};
pub use naming::{Length, Name};
pub use rand::rngs::StdRng;
pub use separator::NumberSeperator;
