//! Derivation of the header file of a creator: its directory, base name,
//! full path and content.

use vstd::prelude::*;

use crate::casing::stem_of;
use crate::creator::traits::dirname::Dirname;

verus! {

/// A creator that produces a `.hpp` header file.
pub trait HeaderCreator: Dirname {
    /// The canonical name the header file's base name derives from.
    spec fn header_name_view(&self) -> Seq<char>;

    /// The text of the header file.
    spec fn header_content_view(&self) -> Seq<char>;

    /// The directory the header file is placed in.
    fn header_dirname(&self) -> (r: String)
        ensures
            r@ == self.dir_view(),
    ;

    /// Produces the text of the header file.
    fn header_content(&self) -> (r: String)
        ensures
            r@ == self.header_content_view(),
    ;

    /// The base name of the header file: the canonical stem plus `.hpp`.
    fn header_basename(&self) -> (r: String)
        ensures
            r@ == stem_of(self.header_name_view()) + ".hpp"@,
    ;

    /// The full path of the header file: its directory joined with its
    /// base name.
    fn header_filepath(&self) -> (r: String)
        ensures
            r@ == self.dir_view() + "/"@ + stem_of(self.header_name_view()) + ".hpp"@,
    {
        let mut p = self.header_dirname();
        p.append("/");
        let b = self.header_basename();
        p.append(b.as_str());
        proof {
            assert(p@ =~= self.dir_view() + "/"@ + stem_of(self.header_name_view()) + ".hpp"@);
        }
        p
    }
}

} // verus!
