//! Lifecycle of one loaded language model and its generation session, and the
//! ordered stream of token events that a generation run delivers.
//!
//! A [`store::SessionStore`] owns at most one model together with the session
//! that was started from it. [`commands::load_model`] brings a model file into
//! the store; [`commands::run_inference`] runs a prompt through the model that
//! is there and streams the answer, fragment by fragment, to a listener. What
//! the listener is owed is decided by an [`stream::InferenceRun`]: every
//! fragment in the order of its production, and one sentinel after the last
//! fragment if and only if the backend did not fail.
//!
//! The model, its session and the backend that generates are the caller's:
//! the library takes them as type parameters and closures and never looks
//! inside.

pub mod commands;
pub mod errors;
pub mod events;
pub mod family;
pub mod listing;
pub mod store;
pub mod stream;
pub mod text;
pub mod transcript;
