//! A disk-space-reclamation core: it discovers build-artifact directories
//! (a project marker file beside an output directory) across one or more
//! filesystem roots, sizes them, and supports bulk deletion with progress
//! reporting, cooperative cancellation, and an ignore policy that prunes
//! whole subtrees.
//!
//! All decisions live here, verified; the thin driver around this library
//! only reads directories, measures files, and forwards events.

pub mod aggregate;
pub mod cancel;
pub mod config;
pub mod deletion;
pub mod policy;
pub mod project;
pub mod sizes;
pub mod text;
pub mod walker;
