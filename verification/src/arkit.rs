//! ARKit-52 blendshape constants and the `blendshapes` envelope: the
//! timed keyframe that a lip-sync node emits and the renderer samples.
//!
//! The activations are carried as the JSON numbers that the envelope holds;
//! turning them into `f32` weights is left to the renderer's pose stage.

use vstd::prelude::*;
use crate::json::{JsonNumber, JsonValue, str_field, u64_field};
use crate::session_control::AUX_PORT_ENVELOPE_KEY;

verus! {

/// Number of ARKit blendshapes (canonical face animation set).
pub const ARKIT_52: usize = 52;

/// ARKit blendshape names in canonical order. Index `i` of the
/// `arkit_52` array corresponds to `ARKIT_BLENDSHAPE_NAMES[i]`.
///
/// Mirrors Apple's `ARFaceAnchor.BlendShapeLocation` enumeration.
pub const ARKIT_BLENDSHAPE_NAMES: [&'static str; ARKIT_52] = [
    "eyeBlinkLeft",
    "eyeLookDownLeft",
    "eyeLookInLeft",
    "eyeLookOutLeft",
    "eyeLookUpLeft",
    "eyeSquintLeft",
    "eyeWideLeft",
    "eyeBlinkRight",
    "eyeLookDownRight",
    "eyeLookInRight",
    "eyeLookOutRight",
    "eyeLookUpRight",
    "eyeSquintRight",
    "eyeWideRight",
    "jawForward",
    "jawLeft",
    "jawRight",
    "jawOpen",
    "mouthClose",
    "mouthFunnel",
    "mouthPucker",
    "mouthLeft",
    "mouthRight",
    "mouthSmileLeft",
    "mouthSmileRight",
    "mouthFrownLeft",
    "mouthFrownRight",
    "mouthDimpleLeft",
    "mouthDimpleRight",
    "mouthStretchLeft",
    "mouthStretchRight",
    "mouthRollLower",
    "mouthRollUpper",
    "mouthShrugLower",
    "mouthShrugUpper",
    "mouthPressLeft",
    "mouthPressRight",
    "mouthLowerDownLeft",
    "mouthLowerDownRight",
    "mouthUpperUpLeft",
    "mouthUpperUpRight",
    "browDownLeft",
    "browDownRight",
    "browInnerUp",
    "browOuterUpLeft",
    "browOuterUpRight",
    "cheekPuff",
    "cheekSquintLeft",
    "cheekSquintRight",
    "noseSneerLeft",
    "noseSneerRight",
    "tongueOut",
];

/// One timed blendshape keyframe. The renderer treats consecutive
/// keyframes as a sampleable timeline keyed by `pts_ms` (audio playback
/// time).
#[derive(Clone, Copy, Debug, PartialEq)]
pub struct BlendshapeFrame {
    /// 52 ARKit blendshape activations, indexed per
    /// [`ARKIT_BLENDSHAPE_NAMES`].
    pub arkit_52: [JsonNumber; ARKIT_52],
    /// Presentation timestamp (ms) of the audio the keyframe was derived
    /// from, not wall time.
    pub pts_ms: u64,
    /// Conversational turn id, forwarded if upstream metadata had one.
    pub turn_id: Option<u64>,
}

/// The mathematical content of a [`BlendshapeFrame`].
pub struct FrameView {
    pub arkit_52: Seq<JsonNumber>,
    pub pts_ms: u64,
    pub turn_id: Option<u64>,
}

impl View for BlendshapeFrame {
    type V = FrameView;

    open spec fn view(&self) -> FrameView {
        FrameView { arkit_52: self.arkit_52@, pts_ms: self.pts_ms, turn_id: self.turn_id }
    }
}

/// Why an envelope is not a valid `blendshapes` frame.
#[derive(Debug, PartialEq)]
pub enum FrameError {
    /// The `kind` member is not `"blendshapes"`; holds the kind found (empty
    /// when the member is missing or not a string).
    WrongKind(String),
    /// The `arkit_52` member is missing or not an array.
    MissingArkit,
    /// The `arkit_52` array has this many entries instead of 52.
    WrongArkitLength(usize),
    /// Entry `i` of the `arkit_52` array is not a number (the first such).
    NotANumber(usize),
    /// The `pts_ms` member is missing or not a non-negative integer.
    MissingPtsMs,
}

pub enum FrameErrorView {
    WrongKind(Seq<char>),
    MissingArkit,
    WrongArkitLength(nat),
    NotANumber(nat),
    MissingPtsMs,
}

impl View for FrameError {
    type V = FrameErrorView;

    open spec fn view(&self) -> FrameErrorView {
        match self {
            FrameError::WrongKind(k) => FrameErrorView::WrongKind(k@),
            FrameError::MissingArkit => FrameErrorView::MissingArkit,
            FrameError::WrongArkitLength(n) => FrameErrorView::WrongArkitLength(*n as nat),
            FrameError::NotANumber(i) => FrameErrorView::NotANumber(*i as nat),
            FrameError::MissingPtsMs => FrameErrorView::MissingPtsMs,
        }
    }
}

/// The envelope's `kind`: the string member `kind`, or the empty string.
pub open spec fn envelope_kind(v: JsonValue) -> Seq<char> {
    match str_field(v, "kind"@) {
        Some(k) => k,
        None => Seq::empty(),
    }
}

/// Whether every item is a number.
pub open spec fn all_numbers(items: Seq<JsonValue>) -> bool {
    forall|i: int| 0 <= i < items.len() ==> #[trigger] items[i] is Number
}

/// `i` is the first index whose item is not a number.
pub open spec fn is_first_non_number(items: Seq<JsonValue>, i: nat) -> bool {
    &&& i < items.len()
    &&& !(items[i as int] is Number)
    &&& forall|j: int| 0 <= j < i ==> #[trigger] items[j] is Number
}

/// The numbers of a sequence of number items.
pub open spec fn numbers_of(items: Seq<JsonValue>) -> Seq<JsonNumber> {
    items.map_values(|x: JsonValue| x->Number_0)
}

/// What an envelope decodes to as a blendshape frame, or why it does not.
pub open spec fn parse_frame(v: JsonValue) -> Result<FrameView, FrameErrorView> {
    if envelope_kind(v) != "blendshapes"@ {
        Err(FrameErrorView::WrongKind(envelope_kind(v)))
    } else {
        match v.field("arkit_52"@) {
            Some(JsonValue::Array(arr)) => {
                let items = arr@;
                if items.len() != ARKIT_52 {
                    Err(FrameErrorView::WrongArkitLength(items.len()))
                } else if !all_numbers(items) {
                    Err(FrameErrorView::NotANumber(choose|i: nat| is_first_non_number(items, i)))
                } else {
                    match u64_field(v, "pts_ms"@) {
                        None => Err(FrameErrorView::MissingPtsMs),
                        Some(pts_ms) => Ok(
                            FrameView {
                                arkit_52: numbers_of(items),
                                pts_ms,
                                turn_id: u64_field(v, "turn_id"@),
                            },
                        ),
                    }
                }
            },
            _ => Err(FrameErrorView::MissingArkit),
        }
    }
}

/// `j` is the canonical `blendshapes` envelope of the frame `f`: the
/// members `kind`, `arkit_52`, `pts_ms`, and `turn_id` when there is one.
pub open spec fn is_frame_json(j: JsonValue, f: FrameView) -> bool {
    &&& j is Object
    &&& {
        let fs = j->Object_0@;
        &&& fs.len() == (if f.turn_id is Some { 4int } else { 3int })
        &&& fs[0].0@ == "kind"@
        &&& fs[0].1 is Str
        &&& fs[0].1->Str_0@ == "blendshapes"@
        &&& fs[1].0@ == "arkit_52"@
        &&& fs[1].1 is Array
        &&& fs[1].1->Array_0@ == f.arkit_52.map_values(|n: JsonNumber| JsonValue::Number(n))
        &&& fs[2].0@ == "pts_ms"@
        &&& fs[2].1 == JsonValue::Number(JsonNumber::PosInt(f.pts_ms))
        &&& f.turn_id is Some ==> {
            &&& fs[3].0@ == "turn_id"@
            &&& fs[3].1 == JsonValue::Number(JsonNumber::PosInt(f.turn_id->0))
        }
    }
}

impl BlendshapeFrame {
    /// Build a frame.
    pub fn new(arkit_52: [JsonNumber; ARKIT_52], pts_ms: u64, turn_id: Option<u64>) -> (r: Self)
        ensures
            r.arkit_52 == arkit_52,
            r.pts_ms == pts_ms,
            r.turn_id == turn_id,
    {
        BlendshapeFrame { arkit_52, pts_ms, turn_id }
    }

    /// All-zero blendshapes — the neutral pose (every activation `0.0`,
    /// whose `f64` bit pattern is 0).
    pub fn neutral(pts_ms: u64) -> (r: Self)
        ensures
            forall|i: int| 0 <= i < ARKIT_52 ==> r.arkit_52@[i] == JsonNumber::Float(0),
            r.pts_ms == pts_ms,
            r.turn_id is None,
    {
        Self::new([JsonNumber::Float(0); ARKIT_52], pts_ms, None)
    }

    /// Encode the frame as the canonical JSON payload.
    pub fn to_json(&self) -> (r: JsonValue)
        ensures
            is_frame_json(r, self@),
            r.has_distinct_keys(),
    {
        let mut items: Vec<JsonValue> = Vec::new();
        let mut i: usize = 0;
        while i < ARKIT_52
            invariant
                i <= ARKIT_52,
                items@.len() == i,
                forall|j: int|
                    0 <= j < i ==> #[trigger] items@[j] == JsonValue::Number(self.arkit_52@[j]),
            decreases ARKIT_52 - i,
        {
            items.push(JsonValue::Number(self.arkit_52[i]));
            i = i + 1;
        }
        assert(items@ =~= self.arkit_52@.map_values(|n: JsonNumber| JsonValue::Number(n)));
        let mut fields: Vec<(String, JsonValue)> = Vec::new();
        fields.push(("kind".to_owned(), JsonValue::Str("blendshapes".to_owned())));
        fields.push(("arkit_52".to_owned(), JsonValue::Array(items)));
        fields.push(("pts_ms".to_owned(), JsonValue::Number(JsonNumber::PosInt(self.pts_ms))));
        if let Some(turn) = self.turn_id {
            fields.push(("turn_id".to_owned(), JsonValue::Number(JsonNumber::PosInt(turn))));
        }
        proof {
            lemma_envelope_key_lengths();
        }
        JsonValue::Object(fields)
    }

    /// Inverse of [`Self::to_json`]: decode a `blendshapes` envelope.
    pub fn from_json(v: &JsonValue) -> (r: Result<Self, FrameError>)
        ensures
            match r {
                Ok(f) => parse_frame(*v) == Ok::<FrameView, FrameErrorView>(f@),
                Err(e) => parse_frame(*v) == Err::<FrameView, FrameErrorView>(e@),
            },
    {
        let kind: String = match v.get("kind") {
            Some(k) => match k.as_str() {
                Some(s) => s.to_owned(),
                None => String::new(),
            },
            None => String::new(),
        };
        assert(kind@ == envelope_kind(*v));
        if kind != "blendshapes".to_owned() {
            return Err(FrameError::WrongKind(kind));
        }
        let arr = match v.get("arkit_52") {
            Some(a) => match a.as_array() {
                Some(items) => items,
                None => {
                    return Err(FrameError::MissingArkit);
                },
            },
            None => {
                return Err(FrameError::MissingArkit);
            },
        };
        if arr.len() != ARKIT_52 {
            return Err(FrameError::WrongArkitLength(arr.len()));
        }
        let mut arkit_52 = [JsonNumber::Float(0); ARKIT_52];
        let mut i: usize = 0;
        #[verifier::loop_isolation(false)]
        while i < ARKIT_52
            invariant
                i <= ARKIT_52,
                arr@.len() == ARKIT_52,
                forall|j: int| 0 <= j < i ==> #[trigger] arr@[j] is Number,
                forall|j: int| 0 <= j < i ==> arkit_52@[j] == #[trigger] arr@[j]->Number_0,
            decreases ARKIT_52 - i,
        {
            match &arr[i] {
                JsonValue::Number(n) => {
                    arkit_52[i] = *n;
                },
                _ => {
                    assert(is_first_non_number(arr@, i as nat));
                    assert forall|k: nat| is_first_non_number(arr@, k) implies k == i by {
                        if k < i {
                            assert(arr@[k as int] is Number);
                        } else if k > i {
                            assert(arr@[i as int] is Number);
                        }
                    }
                    return Err(FrameError::NotANumber(i));
                },
            }
            i = i + 1;
        }
        assert(all_numbers(arr@));
        assert(arkit_52@ =~= numbers_of(arr@));
        let pts_ms = match v.get("pts_ms") {
            Some(p) => match p.as_u64() {
                Some(n) => n,
                None => {
                    return Err(FrameError::MissingPtsMs);
                },
            },
            None => {
                return Err(FrameError::MissingPtsMs);
            },
        };
        let turn_id = match v.get("turn_id") {
            Some(t) => t.as_u64(),
            None => None,
        };
        Ok(Self::new(arkit_52, pts_ms, turn_id))
    }
}

/// The member names of a `blendshapes` envelope and the aux-port key have
/// different lengths, so no two of them are equal.
pub proof fn lemma_envelope_key_lengths()
    ensures
        "kind"@.len() == 4,
        "arkit_52"@.len() == 8,
        "pts_ms"@.len() == 6,
        "turn_id"@.len() == 7,
        AUX_PORT_ENVELOPE_KEY@.len() == 12,
{
    reveal_strlit("kind");
    reveal_strlit("arkit_52");
    reveal_strlit("pts_ms");
    reveal_strlit("turn_id");
    reveal_strlit("__aux_port__");
}

/// Decoding inverts encoding: the canonical envelope of a frame decodes
/// back to that frame.
pub proof fn lemma_from_json_inverts_to_json(j: JsonValue, f: FrameView)
    requires
        is_frame_json(j, f),
        f.arkit_52.len() == ARKIT_52,
    ensures
        parse_frame(j) == Ok::<FrameView, FrameErrorView>(f),
{
    lemma_envelope_key_lengths();
    reveal_with_fuel(crate::json::lookup, 5);
    let fs = j->Object_0@;
    let items = fs[1].1->Array_0@;
    assert(fs.drop_first()[0] == fs[1]);
    assert(fs.drop_first().drop_first()[0] == fs[2]);
    assert(j.field("kind"@) == Some(fs[0].1));
    assert(envelope_kind(j) == "blendshapes"@);
    assert(j.field("arkit_52"@) == Some(fs[1].1));
    assert(all_numbers(items));
    assert(numbers_of(items) =~= f.arkit_52);
    assert(j.field("pts_ms"@) == Some(fs[2].1));
    if f.turn_id is Some {
        assert(j.field("turn_id"@) == Some(fs[3].1));
    } else {
        assert(j.field("turn_id"@) is None);
    }
}

/// A blendshape envelope is decoded by its members, in whatever order they
/// stand: an object with distinct keys whose `kind` is `"blendshapes"`,
/// whose `arkit_52` is an array of 52 numbers and whose `pts_ms` is a
/// non-negative integer decodes to those numbers and that pts, with the
/// `turn_id` member's integer if it has one and none if it has no such
/// member.
pub proof fn lemma_parse_frame_by_members(
    v: JsonValue,
    i: int,
    j: int,
    k: int,
    l: int,
    items: Seq<JsonValue>,
    pts_ms: u64,
    turn_id: Option<u64>,
)
    requires
        v is Object,
        crate::json::keys_distinct(v->Object_0@),
        0 <= i < v->Object_0@.len(),
        0 <= j < v->Object_0@.len(),
        0 <= k < v->Object_0@.len(),
        v->Object_0@[i].0@ == "kind"@,
        v->Object_0@[i].1 is Str,
        v->Object_0@[i].1->Str_0@ == "blendshapes"@,
        v->Object_0@[j].0@ == "arkit_52"@,
        v->Object_0@[j].1 is Array,
        v->Object_0@[j].1->Array_0@ == items,
        items.len() == ARKIT_52,
        forall|idx: int| 0 <= idx < items.len() ==> #[trigger] items[idx] is Number,
        v->Object_0@[k].0@ == "pts_ms"@,
        v->Object_0@[k].1 == JsonValue::Number(JsonNumber::PosInt(pts_ms)),
        turn_id is None ==> forall|m: int|
            0 <= m < v->Object_0@.len() ==> #[trigger] v->Object_0@[m].0@ != "turn_id"@,
        turn_id is Some ==> {
            &&& 0 <= l < v->Object_0@.len()
            &&& v->Object_0@[l].0@ == "turn_id"@
            &&& v->Object_0@[l].1 == JsonValue::Number(JsonNumber::PosInt(turn_id->0))
        },
    ensures
        parse_frame(v) is Ok,
        parse_frame(v)->Ok_0.arkit_52.len() == ARKIT_52,
        forall|idx: int|
            0 <= idx < ARKIT_52 ==> #[trigger] parse_frame(v)->Ok_0.arkit_52[idx]
                == items[idx]->Number_0,
        parse_frame(v)->Ok_0.pts_ms == pts_ms,
        parse_frame(v)->Ok_0.turn_id == turn_id,
{
    let fs = v->Object_0@;
    crate::json::lemma_lookup_member(fs, i);
    crate::json::lemma_lookup_member(fs, j);
    crate::json::lemma_lookup_member(fs, k);
    if turn_id is Some {
        crate::json::lemma_lookup_member(fs, l);
    } else {
        crate::json::lemma_lookup_absent(fs, "turn_id"@);
    }
    assert(envelope_kind(v) == "blendshapes"@);
    assert(all_numbers(items));
}

} // verus!
