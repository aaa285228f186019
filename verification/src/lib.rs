//! A bridge between background asynchronous work and the shared state of an
//! interactive, continuously redrawing application.
//!
//! Background operations are described by a [`work::LoadableWork`] built with
//! [`work::LoadableWorkBuilder`]. Enqueuing a work item immediately marks its
//! slot in the shared state as loading; when the operation later resolves, the
//! runner turns the outcome into a message and sends it over a
//! multi-producer/single-consumer channel owned by [`scheduler::AppWorkState`].
//! The owning thread drains that channel with `handle_messages`, which applies
//! each message to the shared state in arrival order. The lifecycle of each
//! slot is captured by [`loadable::Loadable`].

pub mod cli;
pub mod loadable;
pub mod resource_groups;
pub mod scheduler;
pub mod slots;
pub mod tui;
pub mod work;

pub use loadable::Loadable;
