//! The verified core of the zoxide shell plugin's C interface.
//!
//! The exported C functions (`zo_init`, `zo_add`, `zo_query`, ...) live in the
//! host layer, which reads raw pointers and performs the database work. Every
//! decision in between is made here: how C strings become Rust strings, which
//! argument is rejected with which message, when the process-global session
//! is created, kept or dropped, and what is handed back to C.

pub mod cstr;
pub mod error;
pub mod session;
pub mod api;
