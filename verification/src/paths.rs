//! Paths as text: how one path is adjoined to another.

use vstd::prelude::*;

verus! {

/// The text of the path that results from adjoining `child` to `base`.
///
/// This is the text that `camino::Utf8Path::join` produces, which follows
/// the platform's rules for separators and for absolute children. Nothing
/// else is claimed of it here.
pub uninterp spec fn joined(base: Seq<char>, child: Seq<char>) -> Seq<char>;

/// Adjoins `child` to `base` with `camino::Utf8Path::join`.
///
/// Trusted: the result is taken to be a function of the two texts alone,
/// named [`joined`].
#[verifier::external_body]
pub(crate) fn join(base: &str, child: &str) -> (r: String)
    ensures
        r@ == joined(base@, child@),
{
    camino::Utf8Path::new(base).join(child).into_string()
}

} // verus!
