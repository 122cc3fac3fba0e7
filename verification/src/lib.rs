//! A host for sandboxed cipher plugins.
//!
//! Plugins are WebAssembly components that export two operations and import
//! the host's audit recorder. The host loads them once, and then serves each
//! request in a sandbox of its own:
//!
//! - `registry` holds the compiled plugins and their configuration, by
//!   algorithm, and resolves the key of a request;
//! - `capability` holds the audit recorder and the namespace of capabilities
//!   that a plugin's imports are resolved against;
//! - `context` builds the execution context of one call;
//! - `invoker` is the life cycle of one invocation, from the request to its
//!   output or its fault;
//! - `plugin` is the shift-cipher plugin, and `cipher` the cipher itself.
//!
//! Calling into a plugin means waiting for it, which is left to the program
//! around this library. The program tells an invocation what happened, and
//! the invocation says what is due.

pub mod capability;
pub mod cipher;
pub mod context;
pub mod invoker;
pub mod plugin;
pub mod registry;
