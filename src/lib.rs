//! Command-line options of `sd-card-backup`: the flag grammar, resolved into
//! either the options a run uses or the action that ends the process first.

pub mod args;
pub mod laws;
pub mod shell;
