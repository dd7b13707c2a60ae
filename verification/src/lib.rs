//! Bindings for writing custom mutators for a fuzzing host: a mutator is
//! written once, as an implementation of [`CustomMutator`], and the functions
//! of [`wrappers`] carry each of the host's entry points over to it.
//!
//! The host speaks in raw pointers. This library speaks in what a checked
//! pointer stands for: a pointer that may be null is an `Option`, a pointer
//! with a length is a slice, a string is a [`NulTerminated`], the handle of a
//! session is the context itself, borrowed for one call and owned from
//! `afl_custom_init_` to `afl_custom_deinit_`.
pub mod example;
pub mod fallible;
pub mod mutator;
pub mod text;
pub mod wrappers;

pub use mutator::CustomMutator;
pub use mutator::FuzzResult;
pub use text::NulTerminated;
