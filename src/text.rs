//! Literal text substitution.
use vstd::prelude::*;

verus! {

/// `s` with every occurrence of `from`, taken from the left without overlap,
/// replaced by `to`.
pub open spec fn replaced_of(s: Seq<char>, from: Seq<char>, to: Seq<char>) -> Seq<char>
    decreases s.len(),
{
    if from.len() == 0 || s.len() < from.len() {
        s
    } else if s.take(from.len() as int) == from {
        to + replaced_of(s.skip(from.len() as int), from, to)
    } else {
        seq![s[0]] + replaced_of(s.skip(1), from, to)
    }
}

/// Relies on `str::replace`: every non-overlapping occurrence of `from`, left
/// to right, becomes `to`.
#[verifier::external_body]
pub(crate) fn replace_all(s: &str, from: &str, to: &str) -> (r: String)
    requires
        from@.len() > 0,
    ensures
        r@ == replaced_of(s@, from@, to@),
{
    s.replace(from, to)
}

} // verus!
