//! Request dispatch and lifecycle coordination for the runtime of one container
//! sandbox.
//!
//! A control plane sends requests for a sandbox: create a container, wait for a
//! process, shut a container down. Behind them stands a runtime backend with a
//! sandbox controller and a container-process manager. This crate is what sits
//! between the two. It brings the backend up on the first request to create a
//! container, exactly once, and it routes every request to the collaborator
//! that serves it, with the couplings that the sandbox's life cycle asks for.
//!
//! The crate decides and does nothing else: it reads no file, takes no lock and
//! awaits nothing. A request becomes a [`session::Session`], which moves in
//! steps. Each step ends in the one call that the host is to make next, or in
//! the request's result; the host makes the call and hands its outcome to the
//! next step. What a step does is defined in [`model`], and the executable
//! steps in [`session`] and [`manager`] are proved to do exactly that. What
//! follows for whole sessions, and for many sessions side by side, is proved in
//! [`laws`] and [`system`].

pub mod channel;
pub mod config;
pub mod error;
pub mod laws;
pub mod manager;
pub mod model;
pub mod protocol;
pub mod registry;
pub mod session;
pub mod system;
pub mod trace;
pub mod types;

pub use manager::RuntimeHandlerManager;
