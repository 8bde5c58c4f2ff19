//! Data structures shared across the compiler: the set of opt-in language features.

pub mod language_features;
pub mod laws;

pub use language_features::LanguageFeatures;
