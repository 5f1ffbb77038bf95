//! Canonical identifier casing: a Pascal-cased type name and a lowercase,
//! underscore-separated file stem, both derived from a raw name.

use vstd::prelude::*;
use convert_case::{Case, Casing};

verus! {

/// What convert_case's `to_case(Case::Pascal)` returns for a given input.
pub uninterp spec fn pascal_of(s: Seq<char>) -> Seq<char>;

/// What convert_case's `to_case(Case::Snake)` returns for a given input.
pub uninterp spec fn snake_of(s: Seq<char>) -> Seq<char>;

/// What convert_case's `to_case(Case::Lower)` returns for a given input.
pub uninterp spec fn lower_of(s: Seq<char>) -> Seq<char>;

/// Relies on convert_case's `Casing::to_case` with `Case::Pascal`: the result
/// depends on the input characters alone.
#[verifier::external_body]
pub(crate) fn to_pascal(s: &str) -> (r: String)
    ensures
        r@ == pascal_of(s@),
{
    s.to_case(Case::Pascal)
}

/// Relies on convert_case's `Casing::to_case` with `Case::Snake`: the result
/// depends on the input characters alone.
#[verifier::external_body]
pub(crate) fn to_snake(s: &str) -> (r: String)
    ensures
        r@ == snake_of(s@),
{
    s.to_case(Case::Snake)
}

/// Relies on convert_case's `Casing::to_case` with `Case::Lower`: the result
/// depends on the input characters alone.
#[verifier::external_body]
pub(crate) fn to_lower(s: &str) -> (r: String)
    ensures
        r@ == lower_of(s@),
{
    s.to_case(Case::Lower)
}

/// The input with every space replaced by an underscore.
pub open spec fn underscored(s: Seq<char>) -> Seq<char> {
    s.map_values(|c: char| if c == ' ' { '_' } else { c })
}

/// Replaces every space with an underscore.
pub fn replace_spaces(s: &str) -> (r: String)
    ensures
        r@ == underscored(s@),
{
    let n: usize = s.unicode_len();
    let mut r = String::new();
    let mut i: usize = 0;
    while i < n
        invariant
            i <= n,
            n == s@.len(),
            r@ == underscored(s@.subrange(0, i as int)),
        decreases n - i,
    {
        let c = s.get_char(i);
        if c == ' ' {
            r.append("_");
            proof {
                reveal_strlit("_");
            }
        } else {
            let piece = s.substring_char(i, i + 1);
            r.append(piece);
        }
        proof {
            assert(r@ =~= underscored(s@.subrange(0, i + 1)));
        }
        i = i + 1;
    }
    proof {
        assert(s@.subrange(0, n as int) =~= s@);
    }
    r
}

/// The canonical file stem of a name: snake case, then lower case, then
/// spaces replaced by underscores.
pub open spec fn stem_of(name: Seq<char>) -> Seq<char> {
    underscored(lower_of(snake_of(name)))
}

/// Computes the canonical file stem of a name.
pub fn stem(name: &str) -> (r: String)
    ensures
        r@ == stem_of(name@),
{
    let snake = to_snake(name);
    let lower = to_lower(snake.as_str());
    replace_spaces(lower.as_str())
}

} // verus!
