//! Turns example strings and a loosely typed option bag into one regular
//! expression, through the grex synthesis engine.
pub mod value;
pub mod dedup;
pub mod error;
pub mod features;
pub mod examples;
pub mod options;
pub mod adapter;
pub mod laws;
pub mod engine;

pub use error::BuildError;
pub use features::Feature;
pub use value::Value;
pub use adapter::build_regex;
