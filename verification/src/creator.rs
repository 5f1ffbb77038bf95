//! Creators: each one turns a name (and optionally a namespace) into the
//! ordered set of files, as (path, content) pairs, that a generation request
//! produces.

use vstd::prelude::*;

use self::traits::dirname::Dirname;

pub mod cpp_class;
pub mod cpp_script;
pub mod traits;

verus! {

/// A generator of file artifacts. `contents` lists every file to produce as
/// a (path, content) pair, in a fixed order.
pub trait Creator: Dirname + Sized {
    /// The canonical name stored by the creator.
    spec fn name_view(&self) -> Seq<char>;

    /// What a freshly built creator looks like for a given raw name.
    spec fn created(name: Seq<char>, c: Self) -> bool;

    /// The (path, content) pairs the creator produces.
    spec fn contents_view(&self) -> Seq<(Seq<char>, Seq<char>)>;

    /// Builds a creator from a raw name.
    fn new(name: &str) -> (r: Self)
        ensures
            Self::created(name@, r),
    ;

    /// The canonical name stored by the creator.
    fn name(&self) -> (r: &String)
        ensures
            r@ == self.name_view(),
    ;

    /// Produces every file of this generation request, in order.
    fn contents(&self) -> (r: Vec<(String, String)>)
        ensures
            r.deep_view() == self.contents_view(),
    ;
}

} // verus!
