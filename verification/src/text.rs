//! The namespace block shared by every generated file: when a namespace is
//! present the body is wrapped between `namespace <ns> {` and a closing
//! brace with a comment naming the namespace; otherwise the body stands
//! alone, with no markers at all.

use vstd::prelude::*;

use crate::opt_str_view;

verus! {

/// The body wrapped in the namespace block, using the original scoped
/// namespace string; without a namespace, the body itself.
pub open spec fn wrapped_view(ns: Option<Seq<char>>, body: Seq<char>) -> Seq<char> {
    match ns {
        Some(n) => "namespace "@ + n + " {\n"@ + body + "} // namespace "@ + n + "\n"@,
        None => body,
    }
}

/// Wraps the body in the namespace block when a namespace is present.
pub fn wrap_in_namespace(ns: &Option<String>, body: &str) -> (r: String)
    ensures
        r@ == wrapped_view(opt_str_view(ns), body@),
{
    match ns {
        Some(n) => {
            let mut r = "namespace ".to_owned();
            r.append(n.as_str());
            r.append(" {\n");
            r.append(body);
            r.append("} // namespace ");
            r.append(n.as_str());
            r.append("\n");
            proof {
                assert(r@ =~= wrapped_view(opt_str_view(ns), body@));
            }
            r
        },
        None => body.to_owned(),
    }
}

} // verus!
