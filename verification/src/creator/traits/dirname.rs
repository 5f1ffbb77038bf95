//! The target directory of a creator.

use vstd::prelude::*;

verus! {

/// A type that knows the directory its files belong in.
pub trait Dirname {
    /// The directory as a character sequence.
    spec fn dir_view(&self) -> Seq<char>;

    /// Returns the directory the generated files are placed in.
    fn directory(&self) -> (r: String)
        ensures
            r@ == self.dir_view(),
    ;
}

} // verus!
