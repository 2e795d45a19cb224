//! Typed bindings for the JSON messages of a torrent daemon's remote-procedure protocol.
//!
//! The daemon answers every call with an envelope of a result and a payload, and takes the
//! arguments of a call as an object. This crate gives each payload and each set of arguments a
//! type, and says in contracts which JSON value encodes which typed value:
//!
//! - [`json`] models JSON values and the lookup of a key among the members of an object;
//! - [`decode`] reads typed fields out of JSON, and [`error`] names what can be wrong;
//! - [`encode`] writes typed fields as JSON, leaving out the fields that are not set;
//! - [`types`] holds the messages: the answers of the daemon and the arguments of its methods;
//! - [`version`] reads semantic versions with the `semver` crate;
//! - [`laws`] proves what holds of the encodings as a whole.
//!
//! Reading JSON text is left to the caller: the functions here start from a [`json::Json`]
//! value and end in one.

pub mod decode;
pub mod encode;
pub mod error;
pub mod json;
pub mod laws;
pub mod types;
pub mod version;
