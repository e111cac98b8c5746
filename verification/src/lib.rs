//! A stub native-extension module: it registers itself with a host
//! interpreter and succeeds unconditionally, defining no attributes.
//!
//! The model is small on purpose: a module is a named container of
//! user-defined attributes, and the initializer leaves that container
//! exactly as the host handed it over. The properties worth stating are
//! that initialization always succeeds, that the module never exposes a
//! user-defined attribute, and that repeated load/unload cycles are
//! idempotent.

pub mod host;
pub mod module;
