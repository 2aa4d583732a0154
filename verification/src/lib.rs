//! Verified core of a dataset binding for a native gradient-boosting engine.
//!
//! The engine itself is reached through a foreign interface that this crate
//! never touches. What lives here is everything that is decided around those
//! calls: which shapes are accepted, which arguments the engine is handed,
//! what each of its replies means, and who owns the resource afterwards.
//! A host performs the calls that the library asks for and reports back what
//! the engine returned.

pub mod dataset;
pub mod error;
pub mod frame;
pub mod native;
pub mod shape;

pub use dataset::{Dataset, Ingest, Step};
pub use error::{Count, Error};
pub use frame::{Column, Frame, Missing, Tabular};
pub use native::{ElementType, Field, NativeString, Reply, Request};
