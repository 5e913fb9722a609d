//! Uniform full-range sampling of the primitive integer types.
//!
//! Given a source of raw uniformly random bit patterns, the sampler in this
//! crate produces a value of a requested integer type such that every
//! representable value of that type is equally likely: it asks the source for
//! the minimal sufficient number of raw draws and reinterprets their bits as
//! the target type, never discarding, reusing or biasing entropy.

pub mod sampler;
pub mod source;
pub mod target;

pub use sampler::Uniform;
pub use source::RandomSource;
pub use source::ReplaySource;
pub use target::Target;
