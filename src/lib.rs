//! A guard that keeps an impersonated tool slot filled with a copy of the
//! running executable, while the genuine tool is kept beside it.
//!
//! The library holds the decisions: retry policies, the replacement pass,
//! digest comparison and the watcher loop, each as a state machine whose
//! outside work (network, disk, sleeping) is performed by the caller.
pub mod retry;
pub mod digest;
pub mod replacer;
pub mod watcher;
pub mod forward;
