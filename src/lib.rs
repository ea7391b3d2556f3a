//! Annotations over recursive data structures.
//!
//! An [`Annotation`] is a summary derived from a child of a recursive data
//! structure. [`Annotated`] pairs a child with a cache slot for that summary,
//! computes it on first request and clears it whenever the child is handed
//! out for mutation.

pub mod annotated;
pub mod annotation;

pub use annotated::Annotated;
pub use annotation::Annotation;
