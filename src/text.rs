use vstd::prelude::*;

verus! {

/// Relies on `String::push_str`: appends `tail` to the end of `s`.
#[verifier::external_body]
pub(crate) fn append(s: &mut String, tail: &str)
    ensures
        final(s)@ == old(s)@ + tail@,
{
    s.push_str(tail)
}

} // verus!

verus! {

/// Relies on `uuid::Uuid::new_v4`, written in its hyphenated form by its
/// `Display`: a random id of 36 characters.
#[verifier::external_body]
pub(crate) fn fresh_unique_id() -> (r: String)
    ensures
        r@.len() == 36,
{
    uuid::Uuid::new_v4().to_string()
}

} // verus!
