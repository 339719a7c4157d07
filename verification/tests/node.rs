use live2d_render::arkit::BlendshapeFrame;
use live2d_render::json::{JsonNumber, JsonValue};
use live2d_render::live2d_render::node::{
    decode_envelope, Live2DRenderConfig, RendererInput, StateAction, TickPlan, Timeline,
};
use live2d_render::session_control::RuntimeData;
use live2d_render::{Live2DRenderManifestParams, Live2DRenderNodeFactory};

const MS: u64 = 1_000_000;

fn obj(fields: Vec<(&str, JsonValue)>) -> JsonValue {
    JsonValue::Object(fields.into_iter().map(|(k, v)| (k.to_string(), v)).collect())
}

fn s(text: &str) -> JsonValue {
    JsonValue::Str(text.to_string())
}

fn uint(n: u64) -> JsonValue {
    JsonValue::Number(JsonNumber::PosInt(n))
}

fn json(v: JsonValue) -> RuntimeData {
    RuntimeData::Json(v)
}

fn blendshapes(pts: u64) -> RuntimeData {
    json(BlendshapeFrame::neutral(pts).to_json())
}

fn audio_clock(pts: u64) -> RuntimeData {
    json(obj(vec![("kind", s("audio_clock")), ("pts_ms", uint(pts))]))
}

fn emotion(emoji: &str) -> RuntimeData {
    json(obj(vec![("kind", s("emotion")), ("emoji", s(emoji))]))
}

fn barge() -> RuntimeData {
    json(obj(vec![("kind", s("barge_in"))]))
}

fn aux_barge() -> RuntimeData {
    json(obj(vec![("__aux_port__", s("barge_in"))]))
}

#[test]
fn decode_envelope_recognizes_each_kind() {
    assert_eq!(
        decode_envelope(&blendshapes(10)),
        Some(RendererInput::Blendshape(BlendshapeFrame::neutral(10)))
    );
    assert_eq!(decode_envelope(&emotion("😊")), Some(RendererInput::Emotion("😊".to_string())));
    assert_eq!(decode_envelope(&audio_clock(77)), Some(RendererInput::AudioClock(77)));
    assert_eq!(decode_envelope(&barge()), Some(RendererInput::BargeIn));
}

#[test]
fn decode_envelope_aux_barge_wins_over_kind() {
    assert_eq!(decode_envelope(&aux_barge()), Some(RendererInput::BargeIn));
    let both = json(obj(vec![("kind", s("emotion")), ("emoji", s("x")), ("__aux_port__", s("barge_in"))]));
    assert_eq!(decode_envelope(&both), Some(RendererInput::BargeIn));
}

#[test]
fn decode_envelope_ignores_unknown_and_malformed() {
    assert_eq!(decode_envelope(&RuntimeData::Other), None);
    assert_eq!(decode_envelope(&json(obj(vec![("kind", s("video"))]))), None);
    assert_eq!(decode_envelope(&json(obj(vec![]))), None);
    assert_eq!(decode_envelope(&json(obj(vec![("kind", s("emotion"))]))), None);
    assert_eq!(decode_envelope(&json(obj(vec![("kind", s("audio_clock")), ("pts_ms", s("1"))]))), None);
    assert_eq!(decode_envelope(&json(obj(vec![("kind", s("blendshapes")), ("pts_ms", uint(1))]))), None);
    let other_port = json(obj(vec![("__aux_port__", s("cancel"))]));
    assert_eq!(decode_envelope(&other_port), None);
}

#[test]
fn first_blendshape_anchors_timeline() {
    let mut t = Timeline::new();
    let a = t.process_streaming(&blendshapes(500), 3 * MS);
    assert_eq!(a, StateAction::PushBlendshape(BlendshapeFrame::neutral(500)));
    assert_eq!(t.anchor_pts_ms, Some(500));
    assert_eq!(t.playback_anchor, Some((3 * MS, 500)));
    assert_eq!(t.latest_blendshape_pts_ms, Some(500));
    let a = t.process_streaming(&blendshapes(533), 40 * MS);
    assert_eq!(a, StateAction::PushBlendshape(BlendshapeFrame::neutral(533)));
    assert_eq!(t.anchor_pts_ms, Some(500));
    assert_eq!(t.playback_anchor, Some((3 * MS, 500)));
    assert_eq!(t.latest_blendshape_pts_ms, Some(533));
}

#[test]
fn audio_clock_anchors_and_records_tap() {
    let mut t = Timeline::new();
    assert_eq!(t.process_streaming(&audio_clock(200), 0), StateAction::Nothing);
    assert_eq!(t.anchor_pts_ms, Some(200));
    assert_eq!(t.latest_audio_clock_ms, Some(200));
    t.process_streaming(&audio_clock(260), 5 * MS);
    assert_eq!(t.anchor_pts_ms, Some(200));
    assert_eq!(t.latest_audio_clock_ms, Some(260));
}

#[test]
fn emotion_changes_no_anchor() {
    let mut t = Timeline::new();
    t.process_streaming(&blendshapes(10), 0);
    let before = t;
    assert_eq!(t.process_streaming(&emotion("😢"), 9 * MS), StateAction::PushEmotion("😢".to_string()));
    assert_eq!(t, before);
}

#[test]
fn unknown_envelope_changes_nothing() {
    let mut t = Timeline::new();
    t.process_streaming(&blendshapes(10), 0);
    let before = t;
    assert_eq!(t.process_streaming(&RuntimeData::Other, 9 * MS), StateAction::Nothing);
    assert_eq!(t, before);
}

#[test]
fn barge_resets_then_next_blendshape_reanchors() {
    let mut t = Timeline::new();
    t.process_streaming(&blendshapes(100), MS);
    t.process_streaming(&audio_clock(150), 2 * MS);
    assert_eq!(t.process_streaming(&barge(), 3 * MS), StateAction::HandleBarge);
    assert_eq!(t, Timeline::new());
    t.process_streaming(&blendshapes(9000), 4 * MS);
    assert_eq!(t.anchor_pts_ms, Some(9000));
    assert_eq!(t.playback_anchor, Some((4 * MS, 9000)));
    assert_eq!(t.latest_audio_clock_ms, None);
}

#[test]
fn control_message_barge_resets_timeline() {
    let mut t = Timeline::new();
    t.process_streaming(&blendshapes(100), MS);
    t.process_streaming(&audio_clock(150), 2 * MS);
    assert!(t.process_control_message(&aux_barge()));
    assert_eq!(t, Timeline::new());
}

#[test]
fn both_barge_paths_stamp_alike() {
    let mut aux = Timeline::new();
    let mut in_band = Timeline::new();
    for t in [&mut aux, &mut in_band] {
        t.process_streaming(&blendshapes(4000), 0);
        t.process_streaming(&audio_clock(5000), MS);
    }
    assert!(aux.process_control_message(&aux_barge()));
    assert_eq!(in_band.process_streaming(&barge(), 2 * MS), StateAction::HandleBarge);
    assert_eq!(aux, in_band);
    let config = Live2DRenderConfig::default();
    for t in [&mut aux, &mut in_band] {
        t.process_streaming(&blendshapes(9000), 3 * MS);
        let plan = t.plan_tick(3 * MS + 999 * MS, 0, &config);
        assert_eq!(plan.audio_clock_ms, Some(9999));
        assert_eq!(plan.timestamp_us, 999_000);
    }
}

#[test]
fn history_with_tap_stamps_from_first_input() {
    let mut t = Timeline::new();
    t.process_streaming(&emotion("x"), 0);
    t.process_streaming(&blendshapes(2000), 5 * MS);
    t.process_streaming(&audio_clock(2100), 6 * MS);
    t.process_streaming(&blendshapes(2133), 7 * MS);
    t.process_streaming(&audio_clock(2250), 8 * MS);
    let plan = t.plan_tick(10_000 * MS, 0, &Live2DRenderConfig::default());
    assert_eq!(plan.cursor_ms, 250);
    assert_eq!(plan.timestamp_us, 250_000);
}

#[test]
fn control_message_other_is_not_handled() {
    let mut t = Timeline::new();
    t.process_streaming(&blendshapes(100), MS);
    let before = t;
    assert!(!t.process_control_message(&barge()));
    assert!(!t.process_control_message(&RuntimeData::Other));
    assert_eq!(t, before);
}

#[test]
fn tick_before_anchor_uses_pacer_pts() {
    let t = Timeline::new();
    let plan = t.plan_tick(7 * MS, 66_999, &Live2DRenderConfig::default());
    assert_eq!(
        plan,
        TickPlan { audio_clock_ms: None, frame_interval_ms: 33, cursor_ms: 66, timestamp_us: 66_000 }
    );
}

#[test]
fn tick_wall_sim_cursor_is_elapsed_since_first_blendshape() {
    let mut t = Timeline::new();
    t.process_streaming(&blendshapes(5000), 10 * MS);
    let plan = t.plan_tick(10 * MS + 133 * MS + 999_999, 0, &Live2DRenderConfig::default());
    assert_eq!(plan.audio_clock_ms, Some(5133));
    assert_eq!(plan.cursor_ms, 133);
    assert_eq!(plan.timestamp_us, 133_000);
}

#[test]
fn tick_wall_clock_earlier_than_anchor_counts_zero() {
    let mut t = Timeline::new();
    t.process_streaming(&blendshapes(5000), 10 * MS);
    let plan = t.plan_tick(MS, 0, &Live2DRenderConfig::default());
    assert_eq!(plan.audio_clock_ms, Some(5000));
    assert_eq!(plan.cursor_ms, 0);
}

#[test]
fn tick_clock_tap_overrides_wall_sim() {
    let mut t = Timeline::new();
    t.process_streaming(&blendshapes(1000), 0);
    t.process_streaming(&audio_clock(1400), MS);
    let plan = t.plan_tick(900 * MS, 0, &Live2DRenderConfig::default());
    assert_eq!(plan.audio_clock_ms, Some(1400));
    assert_eq!(plan.cursor_ms, 400);
}

#[test]
fn tick_clock_behind_anchor_saturates_to_zero() {
    let mut t = Timeline::new();
    t.process_streaming(&blendshapes(1000), 0);
    t.process_streaming(&audio_clock(400), MS);
    let plan = t.plan_tick(MS, 0, &Live2DRenderConfig::default());
    assert_eq!(plan.cursor_ms, 0);
    assert_eq!(plan.timestamp_us, 0);
}

#[test]
fn tick_saturates_clock_and_timestamp() {
    let mut t = Timeline::new();
    t.process_streaming(&audio_clock(u64::MAX - 1), 0);
    t.latest_audio_clock_ms = None;
    let plan = t.plan_tick(10 * MS, 0, &Live2DRenderConfig::default());
    assert_eq!(plan.audio_clock_ms, Some(u64::MAX));
    assert_eq!(plan.cursor_ms, 1);
    let t2 = Timeline::new();
    let plan2 = t2.plan_tick(0, u64::MAX, &Live2DRenderConfig::default());
    assert_eq!(plan2.cursor_ms, u64::MAX / 1000);
    assert_eq!(plan2.timestamp_us, (u64::MAX / 1000) * 1000);
    let mut t3 = Timeline::new();
    t3.process_streaming(&audio_clock(0), 0);
    t3.process_streaming(&audio_clock(u64::MAX), 0);
    assert_eq!(t3.plan_tick(0, 0, &Live2DRenderConfig::default()).timestamp_us, u64::MAX);
}

#[test]
fn config_defaults_and_rates() {
    let c = Live2DRenderConfig::default();
    assert!(c.model_path.is_none());
    assert_eq!(c.framerate, 30);
    assert_eq!(c.video_stream_id, "avatar");
    assert_eq!(c.fallback_rate_hz(), 30);
    assert_eq!(c.frame_interval_ms(), 33);
    let zero = Live2DRenderConfig { framerate: 0, ..Live2DRenderConfig::default() };
    assert_eq!(zero.fallback_rate_hz(), 1);
    assert_eq!(zero.frame_interval_ms(), 1000);
    let fast = Live2DRenderConfig { framerate: 2000, ..Live2DRenderConfig::default() };
    assert_eq!(fast.frame_interval_ms(), 0);
}

#[test]
fn manifest_params_defaults() {
    let p = Live2DRenderManifestParams::default();
    assert!(p.model_path.is_none());
    assert_eq!(p.framerate, 30);
    assert_eq!(p.video_stream_id, "avatar");
    assert_eq!(p.width, 1280);
    assert_eq!(p.height, 720);
    assert_eq!(p.render_target_size(), (1280, 720));
}

#[test]
fn manifest_params_clamp_to_one() {
    let p = Live2DRenderManifestParams {
        model_path: Some(std::path::PathBuf::from("/m/aria.model3.json")),
        framerate: 0,
        video_stream_id: "left".to_string(),
        width: 0,
        height: 0,
    };
    assert_eq!(p.render_target_size(), (1, 1));
    let c = p.into_render_config();
    assert_eq!(c.framerate, 1);
    assert_eq!(c.video_stream_id, "left");
    assert_eq!(c.model_path, Some(std::path::PathBuf::from("/m/aria.model3.json")));
}

#[test]
fn factory_node_type() {
    assert_eq!(Live2DRenderNodeFactory.node_type(), "Live2DRenderNode");
}

#[test]
fn encoded_frame_is_consumed_by_node() {
    let mut arkit = BlendshapeFrame::neutral(0).arkit_52;
    arkit[17] = JsonNumber::Float(0.75f64.to_bits());
    let f = BlendshapeFrame::new(arkit, 321, Some(4));
    let mut t = Timeline::new();
    let a = t.process_streaming(&json(f.to_json()), 8 * MS);
    assert_eq!(a, StateAction::PushBlendshape(f));
    assert_eq!(t.anchor_pts_ms, Some(321));
    assert_eq!(t.latest_blendshape_pts_ms, Some(321));
}
