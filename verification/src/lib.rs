//! Runs untrusted WebAssembly modules under a declared sandbox policy.
//!
//! The crate has three main parts. [`runtime`] holds the contract that an
//! execution engine meets, the registry that hands engines out by name, and
//! the engine built on Wasmtime. [`sandbox`] applies and releases the
//! restrictions of a policy, always as a whole. [`container`] tracks one
//! execution from creation to its terminal state and runs it inside its
//! sandbox.
//!
//! Around them stand the failures of an execution in [`error`], the settings
//! and their defaults in [`config`], the environment of an execution in
//! [`environment`], the reading of a `run` request in [`launch`], and what
//! the client of the app store works out in [`appstore`].

pub mod appstore;
pub mod config;
pub mod container;
pub mod environment;
pub mod error;
pub mod host;
pub mod launch;
pub mod runtime;
pub mod sandbox;
pub mod text;

