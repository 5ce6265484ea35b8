//! Small helpers shared by the wire formats.

use vstd::prelude::*;
use crate::model::Model;

verus! {

/// Whether an optional list is absent or has no items.
pub fn is_none_or_empty<U>(opt: &Option<Vec<U>>) -> (empty: bool)
    ensures
        empty == (opt matches Some(items) ==> items@.len() == 0),
{
    match opt {
        None => true,
        Some(items) => items.len() == 0,
    }
}

/// The string that stands for a model in a request: the name of a custom
/// model, the wire identifier of every other.
pub fn serialize_model(model: &Model) -> (wire: &str)
    ensures
        wire@ == model.spec_wire_name(),
{
    match model {
        Model::Custom { name, .. } => name.as_str(),
        _ => model.id(),
    }
}

} // verus!
