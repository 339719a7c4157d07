use live2d_render::arkit::{BlendshapeFrame, FrameError, ARKIT_52, ARKIT_BLENDSHAPE_NAMES};
use live2d_render::json::{JsonNumber, JsonValue};
use live2d_render::session_control::{aux_port_of, is_barge_in, RuntimeData, BARGE_IN_PORT};

fn obj(fields: Vec<(&str, JsonValue)>) -> JsonValue {
    JsonValue::Object(fields.into_iter().map(|(k, v)| (k.to_string(), v)).collect())
}

fn s(text: &str) -> JsonValue {
    JsonValue::Str(text.to_string())
}

fn uint(n: u64) -> JsonValue {
    JsonValue::Number(JsonNumber::PosInt(n))
}

fn float(x: f64) -> JsonValue {
    JsonValue::Number(JsonNumber::Float(x.to_bits()))
}

fn arkit_items(n: usize) -> Vec<JsonValue> {
    (0..n).map(|i| float(i as f64 / 100.0)).collect()
}

fn blendshape_envelope(items: Vec<JsonValue>, pts: JsonValue, turn: Option<JsonValue>) -> JsonValue {
    let mut fields = vec![("kind", s("blendshapes")), ("arkit_52", JsonValue::Array(items)), ("pts_ms", pts)];
    if let Some(t) = turn {
        fields.push(("turn_id", t));
    }
    obj(fields)
}

#[test]
fn get_finds_member_of_object() {
    let v = obj(vec![("a", uint(1)), ("b", s("x"))]);
    assert_eq!(v.get("b"), Some(&s("x")));
    assert_eq!(v.get("a").and_then(|x| x.as_u64()), Some(1));
    assert_eq!(v.get("c"), None);
}

#[test]
fn get_on_non_object_is_none() {
    assert_eq!(s("kind").get("kind"), None);
    assert_eq!(JsonValue::Array(vec![s("kind")]).get("kind"), None);
    assert_eq!(JsonValue::Null.get("kind"), None);
}

#[test]
fn as_u64_only_for_non_negative_integers() {
    assert_eq!(uint(7).as_u64(), Some(7));
    assert_eq!(JsonValue::Number(JsonNumber::NegInt(-1)).as_u64(), None);
    assert_eq!(float(7.0).as_u64(), None);
    assert_eq!(s("7").as_u64(), None);
}

#[test]
fn as_str_and_as_array() {
    assert_eq!(s("hi").as_str(), Some("hi"));
    assert_eq!(uint(1).as_str(), None);
    assert_eq!(JsonValue::Array(vec![uint(1)]).as_array().map(|a| a.len()), Some(1));
    assert_eq!(JsonValue::Bool(true).as_array(), None);
}

#[test]
fn aux_port_of_reads_port_member() {
    let data = RuntimeData::Json(obj(vec![("__aux_port__", s("barge_in"))]));
    assert_eq!(aux_port_of(&data), Some(BARGE_IN_PORT));
    assert!(is_barge_in(&data));
}

#[test]
fn aux_port_of_other_data_is_none() {
    assert_eq!(aux_port_of(&RuntimeData::Other), None);
    let not_string = RuntimeData::Json(obj(vec![("__aux_port__", uint(3))]));
    assert_eq!(aux_port_of(&not_string), None);
    let other_port = RuntimeData::Json(obj(vec![("__aux_port__", s("cancel"))]));
    assert_eq!(aux_port_of(&other_port), Some("cancel"));
    assert!(!is_barge_in(&other_port));
    assert!(!is_barge_in(&RuntimeData::Other));
}

#[test]
fn arkit_names_are_canonical() {
    assert_eq!(ARKIT_52, 52);
    assert_eq!(ARKIT_BLENDSHAPE_NAMES.len(), ARKIT_52);
    assert_eq!(ARKIT_BLENDSHAPE_NAMES[0], "eyeBlinkLeft");
    assert_eq!(ARKIT_BLENDSHAPE_NAMES[17], "jawOpen");
    assert_eq!(ARKIT_BLENDSHAPE_NAMES[51], "tongueOut");
}

#[test]
fn neutral_frame_is_all_zero() {
    let f = BlendshapeFrame::neutral(99);
    assert!(f.arkit_52.iter().all(|n| *n == JsonNumber::Float(0.0f64.to_bits())));
    assert_eq!(f.pts_ms, 99);
    assert_eq!(f.turn_id, None);
}

#[test]
fn from_json_decodes_valid_frame() {
    let v = blendshape_envelope(arkit_items(52), uint(1234), Some(uint(7)));
    let f = BlendshapeFrame::from_json(&v).unwrap();
    assert_eq!(f.pts_ms, 1234);
    assert_eq!(f.turn_id, Some(7));
    assert_eq!(f.arkit_52[10], JsonNumber::Float(0.1f64.to_bits()));
    assert_eq!(f.arkit_52[0], JsonNumber::Float(0.0f64.to_bits()));
}

#[test]
fn from_json_turn_id_is_optional() {
    let v = blendshape_envelope(arkit_items(52), uint(5), None);
    assert_eq!(BlendshapeFrame::from_json(&v).unwrap().turn_id, None);
    let v = blendshape_envelope(arkit_items(52), uint(5), Some(s("seven")));
    assert_eq!(BlendshapeFrame::from_json(&v).unwrap().turn_id, None);
}

#[test]
fn from_json_accepts_integer_activations() {
    let mut items = arkit_items(52);
    items[3] = uint(1);
    items[4] = JsonValue::Number(JsonNumber::NegInt(-1));
    let f = BlendshapeFrame::from_json(&blendshape_envelope(items, uint(0), None)).unwrap();
    assert_eq!(f.arkit_52[3], JsonNumber::PosInt(1));
    assert_eq!(f.arkit_52[4], JsonNumber::NegInt(-1));
}

#[test]
fn from_json_rejects_wrong_kind() {
    let v = obj(vec![("kind", s("emotion")), ("arkit_52", JsonValue::Array(arkit_items(52))), ("pts_ms", uint(1))]);
    assert_eq!(BlendshapeFrame::from_json(&v), Err(FrameError::WrongKind("emotion".to_string())));
}

#[test]
fn from_json_missing_kind_reports_empty_kind() {
    let v = obj(vec![("arkit_52", JsonValue::Array(arkit_items(52))), ("pts_ms", uint(1))]);
    assert_eq!(BlendshapeFrame::from_json(&v), Err(FrameError::WrongKind(String::new())));
    let v = obj(vec![("kind", uint(1))]);
    assert_eq!(BlendshapeFrame::from_json(&v), Err(FrameError::WrongKind(String::new())));
    assert_eq!(BlendshapeFrame::from_json(&JsonValue::Null), Err(FrameError::WrongKind(String::new())));
}

#[test]
fn from_json_rejects_missing_arkit() {
    let v = obj(vec![("kind", s("blendshapes")), ("pts_ms", uint(1))]);
    assert_eq!(BlendshapeFrame::from_json(&v), Err(FrameError::MissingArkit));
    let v = obj(vec![("kind", s("blendshapes")), ("arkit_52", s("none")), ("pts_ms", uint(1))]);
    assert_eq!(BlendshapeFrame::from_json(&v), Err(FrameError::MissingArkit));
}

#[test]
fn from_json_rejects_wrong_length() {
    let v = blendshape_envelope(arkit_items(51), uint(1), None);
    assert_eq!(BlendshapeFrame::from_json(&v), Err(FrameError::WrongArkitLength(51)));
    let v = blendshape_envelope(arkit_items(53), uint(1), None);
    assert_eq!(BlendshapeFrame::from_json(&v), Err(FrameError::WrongArkitLength(53)));
}

#[test]
fn from_json_reports_first_non_number() {
    let mut items = arkit_items(52);
    items[9] = s("x");
    items[20] = JsonValue::Null;
    let v = blendshape_envelope(items, uint(1), None);
    assert_eq!(BlendshapeFrame::from_json(&v), Err(FrameError::NotANumber(9)));
}

#[test]
fn from_json_rejects_missing_or_negative_pts() {
    let v = obj(vec![("kind", s("blendshapes")), ("arkit_52", JsonValue::Array(arkit_items(52)))]);
    assert_eq!(BlendshapeFrame::from_json(&v), Err(FrameError::MissingPtsMs));
    let v = blendshape_envelope(arkit_items(52), JsonValue::Number(JsonNumber::NegInt(-5)), None);
    assert_eq!(BlendshapeFrame::from_json(&v), Err(FrameError::MissingPtsMs));
    let v = blendshape_envelope(arkit_items(52), float(5.5), None);
    assert_eq!(BlendshapeFrame::from_json(&v), Err(FrameError::MissingPtsMs));
}

#[test]
fn to_json_builds_canonical_envelope() {
    let f = BlendshapeFrame::neutral(42);
    let v = f.to_json();
    assert_eq!(v.get("kind"), Some(&s("blendshapes")));
    assert_eq!(v.get("pts_ms"), Some(&uint(42)));
    assert_eq!(v.get("turn_id"), None);
    assert_eq!(v.get("arkit_52").and_then(|a| a.as_array()).map(|a| a.len()), Some(52));
    let mut with_turn = f;
    with_turn.turn_id = Some(3);
    assert_eq!(with_turn.to_json().get("turn_id"), Some(&uint(3)));
}

#[test]
fn from_json_inverts_to_json_on_values() {
    let mut arkit = [JsonNumber::Float(0); ARKIT_52];
    for (i, a) in arkit.iter_mut().enumerate() {
        *a = JsonNumber::Float((i as f64 * 0.25).to_bits());
    }
    arkit[7] = JsonNumber::PosInt(1);
    let f = BlendshapeFrame::new(arkit, 1000, Some(12));
    assert_eq!(BlendshapeFrame::from_json(&f.to_json()), Ok(f));
    let g = BlendshapeFrame::new(arkit, u64::MAX, None);
    assert_eq!(BlendshapeFrame::from_json(&g.to_json()), Ok(g));
}
