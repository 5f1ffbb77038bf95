//! Scaffolding for small C++ projects: canonical names, target paths and
//! file contents for generated classes and scripts.

use vstd::prelude::*;

pub mod casing;
pub mod creator;
pub mod text;

verus! {

/// The view of an optional namespace string: the character sequence it holds,
/// if any.
pub open spec fn opt_str_view(ns: &Option<String>) -> Option<Seq<char>> {
    match ns {
        Some(s) => Some(s@),
        None => None,
    }
}

} // verus!
