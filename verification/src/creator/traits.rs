//! The capabilities a creator is assembled from: a target directory, an
//! optional namespace, and source/header file derivation.

pub mod dirname;
pub mod header_creator;
pub mod namespaced_creator;
pub mod src_creator;
