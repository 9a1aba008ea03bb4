//! The per-message computation of the forwarding loop: route the topic
//! through the destination mapping, then translate the payload.  The loop
//! around it pulls one message at a time, in receipt order; a translation
//! error drops that message alone and the stream continues, so the loop's
//! driver logs the error and moves on.

use vstd::prelude::*;

use crate::mapping::{spec_resolve, DestinationMapping};
use crate::payload::parsed;
use crate::translate::{spec_translate, translate, translation_model, InsertStatement, TranslateError};

verus! {

/// Routes one message and translates it: the insert statement for the
/// message's destination table, or the per-message rejection.
pub fn forward_one(mapping: &DestinationMapping, topic: &str, payload: &[u8]) -> (r: Result<
    InsertStatement,
    TranslateError,
>)
    ensures
        translation_model(r) == spec_translate(
            spec_resolve(mapping.model(), topic@),
            parsed(payload@),
        ),
{
    let table = mapping.resolve(topic);
    translate(table.as_str(), payload)
}

} // verus!
