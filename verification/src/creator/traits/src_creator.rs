//! Derivation of the source file of a creator: its directory, base name,
//! full path and content.

use vstd::prelude::*;

use crate::casing::stem_of;
use crate::creator::traits::dirname::Dirname;

verus! {

/// A creator that produces a `.cpp` source file.
pub trait SrcCreator: Dirname {
    /// The canonical name the source file's base name derives from.
    spec fn src_name_view(&self) -> Seq<char>;

    /// The text of the source file.
    spec fn src_content_view(&self) -> Seq<char>;

    /// The directory the source file is placed in.
    fn src_dirname(&self) -> (r: String)
        ensures
            r@ == self.dir_view(),
    {
        self.directory()
    }

    /// Produces the text of the source file.
    fn src_content(&self) -> (r: String)
        ensures
            r@ == self.src_content_view(),
    ;

    /// The base name of the source file: the canonical stem plus `.cpp`.
    fn src_basename(&self) -> (r: String)
        ensures
            r@ == stem_of(self.src_name_view()) + ".cpp"@,
    ;

    /// The full path of the source file: its directory joined with its
    /// base name.
    fn src_filepath(&self) -> (r: String)
        ensures
            r@ == self.dir_view() + "/"@ + stem_of(self.src_name_view()) + ".cpp"@,
    {
        let mut p = self.src_dirname();
        p.append("/");
        let b = self.src_basename();
        p.append(b.as_str());
        proof {
            assert(p@ =~= self.dir_view() + "/"@ + stem_of(self.src_name_view()) + ".cpp"@);
        }
        p
    }
}

} // verus!
