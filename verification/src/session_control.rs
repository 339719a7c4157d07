//! Session-control envelope helpers: recognising the aux-port envelopes
//! that the session router publishes (the barge-in port among them).

use vstd::prelude::*;
use crate::json::JsonValue;

verus! {

/// Envelope field name for aux-port publishes.
pub const AUX_PORT_ENVELOPE_KEY: &'static str = "__aux_port__";

/// Reserved aux port name for "the user has barged in / cancel the
/// in-flight call".
pub const BARGE_IN_PORT: &'static str = "barge_in";

/// What the node reads of a runtime data item: the JSON payload of a
/// `Json` item; every other kind of item (audio, video, ...) is `Other`.
#[derive(Debug, PartialEq)]
pub enum RuntimeData {
    Json(JsonValue),
    Other,
}

/// The aux port that an envelope is addressed to: the string member
/// `__aux_port__` of a JSON item.
pub open spec fn spec_aux_port_of(data: RuntimeData) -> Option<Seq<char>> {
    match data {
        RuntimeData::Json(v) => match v.field(AUX_PORT_ENVELOPE_KEY@) {
            Some(JsonValue::Str(s)) => Some(s@),
            _ => None,
        },
        RuntimeData::Other => None,
    }
}

/// Whether an envelope is a barge-in published on the aux port.
pub open spec fn is_barge_envelope(data: RuntimeData) -> bool {
    spec_aux_port_of(data) == Some(BARGE_IN_PORT@)
}

/// If `data` is an aux-port envelope, return the port name. Otherwise
/// return `None`.
pub fn aux_port_of(data: &RuntimeData) -> (r: Option<&str>)
    ensures
        r is Some == spec_aux_port_of(*data) is Some,
        r is Some ==> r->0@ == spec_aux_port_of(*data)->0,
{
    match data {
        RuntimeData::Json(v) => match v.get(AUX_PORT_ENVELOPE_KEY) {
            Some(p) => p.as_str(),
            None => None,
        },
        RuntimeData::Other => None,
    }
}

/// Whether `data` is a barge-in envelope on the aux port.
pub fn is_barge_in(data: &RuntimeData) -> (r: bool)
    ensures
        r == is_barge_envelope(*data),
{
    match aux_port_of(data) {
        Some(port) => {
            let p = port.to_owned();
            let b = BARGE_IN_PORT.to_owned();
            p == b
        },
        None => false,
    }
}

} // verus!
