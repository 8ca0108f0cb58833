use vstd::prelude::*;
use crate::instant::Instant;
use crate::moment_json::canonical_text;

verus! {

/// Writes a bound of an interval: the canonical text of the instant, or nothing
/// where the bound is absent.
pub fn serialize(moment: &Option<Instant>) -> (text: Option<String>)
    requires
        moment is Some ==> moment.unwrap().wf(),
    ensures
        text is Some <==> moment is Some,
        text is Some ==> text.unwrap()@ == canonical_text(moment.unwrap()),
{
    match moment {
        Some(moment) => Some(crate::moment_json::serialize(moment)),
        None => None,
    }
}

} // verus!
