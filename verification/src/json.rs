//! The JSON document of a map of fields.

use crate::fields::FieldMap;
use std::collections::BTreeMap;
use vstd::prelude::*;

verus! {

/// The JSON text of an object whose members are the fields of a map, each
/// value a JSON string. The encoder writes the members in the order of their
/// names, so the text depends on the map alone.
pub uninterp spec fn json_object_text(fields: Map<Seq<char>, Seq<char>>) -> Seq<char>;

/// Encodes `map` with `serde_json::to_string`, applied to a `BTreeMap` from
/// names to values. The encoder fails only on a map whose keys are not
/// strings or on a value that refuses to be written; neither can happen
/// here, so the text is always there. Nothing is proved of the text but
/// that it is the one named above.
#[verifier::external_body]
pub(crate) fn to_json(map: &FieldMap) -> (text: String)
    requires
        map.wf(),
    ensures
        text@ == json_object_text(map@),
{
    let mut object: BTreeMap<&str, &str> = BTreeMap::new();
    for entry in map.entries.iter() {
        object.insert(entry.0.as_str(), entry.1.as_str());
    }
    serde_json::to_string(&object).unwrap_or_default()
}

} // verus!
