//! The decisions of the `Live2DRenderNode`: which envelopes it accepts,
//! how they move the audio-time anchors, and what each paced tick renders
//! and stamps.
//!
//! The node is audio-clock driven. The first blendshape (or audio-clock)
//! pts becomes audio-time zero; video frames are stamped relative to it. A
//! barge-in clears the anchors, so the next blendshape re-anchors the
//! timeline. Wall time is handed in by the caller as nanoseconds on a
//! monotonic clock.

use vstd::prelude::*;
use std::path::PathBuf;
use crate::arkit::{
    ARKIT_52, BlendshapeFrame, FrameView, envelope_kind, is_frame_json,
    lemma_envelope_key_lengths, lemma_from_json_inverts_to_json, parse_frame,
};
use crate::json::{JsonNumber, JsonValue, lookup, str_field, u64_field};
use crate::session_control::{
    AUX_PORT_ENVELOPE_KEY, BARGE_IN_PORT, RuntimeData, is_barge_envelope, is_barge_in,
};

verus! {

/// Node type name under which the renderer registers.
pub const NODE_TYPE: &'static str = "Live2DRenderNode";

/// Default output framerate (frames per second).
pub const DEFAULT_FRAMERATE: u32 = 30;

/// Default `stream_id` of the emitted video.
pub const DEFAULT_VIDEO_STREAM_ID: &'static str = "avatar";

/// Configuration for the render node.
///
/// The state-machine knobs (blink intervals, expression hold, emotion
/// mapping, mapper) travel beside this value, in the renderer's pose stage.
#[derive(Debug, Clone)]
pub struct Live2DRenderConfig {
    /// Path to the Live2D `.model3.json` to render.
    pub model_path: Option<PathBuf>,
    /// Output framerate (frames per second). Defaults to 30.
    pub framerate: u32,
    /// Output video `stream_id`. Defaults to `"avatar"`.
    pub video_stream_id: String,
}

impl Default for Live2DRenderConfig {
    fn default() -> (r: Self)
        ensures
            r.model_path is None,
            r.framerate == 30,
            r.video_stream_id@ == DEFAULT_VIDEO_STREAM_ID@,
    {
        Live2DRenderConfig {
            model_path: None,
            framerate: DEFAULT_FRAMERATE,
            video_stream_id: DEFAULT_VIDEO_STREAM_ID.to_owned(),
        }
    }
}

/// `framerate` with 0 raised to 1.
pub open spec fn effective_rate(framerate: u32) -> u32 {
    if framerate == 0 { 1 } else { framerate }
}

impl Live2DRenderConfig {
    /// The rate at which the pacer ticks the node when no wire clock is
    /// bound: the configured framerate, at least 1 Hz.
    pub fn fallback_rate_hz(&self) -> (r: u32)
        ensures
            r == effective_rate(self.framerate),
            r >= 1,
    {
        if self.framerate == 0 { 1 } else { self.framerate }
    }

    /// Milliseconds of animation that one tick advances the state machine.
    pub fn frame_interval_ms(&self) -> (r: u64)
        ensures
            r == 1000int / (effective_rate(self.framerate) as int),
    {
        let rate: u64 = self.fallback_rate_hz() as u64;
        1000 / rate
    }
}

/// Decoded input parsed from a runtime data envelope.
#[derive(Debug, PartialEq)]
pub enum RendererInput {
    Blendshape(BlendshapeFrame),
    Emotion(String),
    AudioClock(u64),
    BargeIn,
}

pub enum InputView {
    Blendshape(FrameView),
    Emotion(Seq<char>),
    AudioClock(u64),
    BargeIn,
}

impl View for RendererInput {
    type V = InputView;

    open spec fn view(&self) -> InputView {
        match self {
            RendererInput::Blendshape(f) => InputView::Blendshape(f@),
            RendererInput::Emotion(e) => InputView::Emotion(e@),
            RendererInput::AudioClock(p) => InputView::AudioClock(*p),
            RendererInput::BargeIn => InputView::BargeIn,
        }
    }
}

/// What the node makes of an envelope: a barge-in on the aux port, or one
/// of the four `kind`s of JSON envelope; `None` for anything else,
/// including a malformed envelope of a known kind.
pub open spec fn decode(data: RuntimeData) -> Option<InputView> {
    if is_barge_envelope(data) {
        Some(InputView::BargeIn)
    } else {
        match data {
            RuntimeData::Json(v) => {
                let kind = envelope_kind(v);
                if kind == "blendshapes"@ {
                    match parse_frame(v) {
                        Ok(f) => Some(InputView::Blendshape(f)),
                        Err(_) => None,
                    }
                } else if kind == "emotion"@ {
                    match str_field(v, "emoji"@) {
                        Some(e) => Some(InputView::Emotion(e)),
                        None => None,
                    }
                } else if kind == "audio_clock"@ {
                    match u64_field(v, "pts_ms"@) {
                        Some(p) => Some(InputView::AudioClock(p)),
                        None => None,
                    }
                } else if kind == "barge_in"@ {
                    Some(InputView::BargeIn)
                } else {
                    None
                }
            },
            RuntimeData::Other => None,
        }
    }
}

/// Parse one envelope into a [`RendererInput`]. Returns `None` for
/// envelopes the renderer doesn't recognize.
pub fn decode_envelope(data: &RuntimeData) -> (r: Option<RendererInput>)
    ensures
        r is Some == decode(*data) is Some,
        r is Some ==> r->0@ == decode(*data)->0,
{
    if is_barge_in(data) {
        return Some(RendererInput::BargeIn);
    }
    let v = match data {
        RuntimeData::Json(v) => v,
        RuntimeData::Other => {
            return None;
        },
    };
    let kind: String = match v.get("kind") {
        Some(k) => match k.as_str() {
            Some(s) => s.to_owned(),
            None => String::new(),
        },
        None => String::new(),
    };
    assert(kind@ == envelope_kind(*v));
    if kind == "blendshapes".to_owned() {
        match BlendshapeFrame::from_json(v) {
            Ok(f) => Some(RendererInput::Blendshape(f)),
            Err(_) => None,
        }
    } else if kind == "emotion".to_owned() {
        match v.get("emoji") {
            Some(e) => match e.as_str() {
                Some(s) => Some(RendererInput::Emotion(s.to_owned())),
                None => None,
            },
            None => None,
        }
    } else if kind == "audio_clock".to_owned() {
        match v.get("pts_ms") {
            Some(p) => match p.as_u64() {
                Some(n) => Some(RendererInput::AudioClock(n)),
                None => None,
            },
            None => None,
        }
    } else if kind == "barge_in".to_owned() {
        Some(RendererInput::BargeIn)
    } else {
        None
    }
}

/// The audio-time anchors of the renderer, the part of its state that
/// the envelopes move. Instants are nanoseconds on the caller's monotonic
/// clock.
#[derive(Clone, Copy, Debug, PartialEq, Eq)]
pub struct Timeline {
    /// First blendshape (or audio-clock) pts: audio-time zero. Video pts
    /// are relative to it.
    pub anchor_pts_ms: Option<u64>,
    /// Most recent blendshape `pts_ms` pushed to the ring.
    pub latest_blendshape_pts_ms: Option<u64>,
    /// Most recent `audio_clock` pts received from the audio sender's
    /// clock tap.
    pub latest_audio_clock_ms: Option<u64>,
    /// `(wall instant, content pts_ms)` captured at the first blendshape
    /// (or audio clock) of a turn; drives a simulated audio clock at wall
    /// pace while no real clock tap arrives.
    pub playback_anchor: Option<(u64, u64)>,
}

/// What the renderer's pose state machine is asked to do with an input.
#[derive(Debug, PartialEq)]
pub enum StateAction {
    /// Push the keyframe into the blendshape ring.
    PushBlendshape(BlendshapeFrame),
    /// Update the active emotion.
    PushEmotion(String),
    /// Reset for a barge-in (the state machine keeps the active emotion).
    HandleBarge,
    /// Nothing to do.
    Nothing,
}

pub enum ActionView {
    PushBlendshape(FrameView),
    PushEmotion(Seq<char>),
    HandleBarge,
    Nothing,
}

impl View for StateAction {
    type V = ActionView;

    open spec fn view(&self) -> ActionView {
        match self {
            StateAction::PushBlendshape(f) => ActionView::PushBlendshape(f@),
            StateAction::PushEmotion(e) => ActionView::PushEmotion(e@),
            StateAction::HandleBarge => ActionView::HandleBarge,
            StateAction::Nothing => ActionView::Nothing,
        }
    }
}

/// The timeline with nothing anchored.
pub open spec fn empty_timeline() -> Timeline {
    Timeline {
        anchor_pts_ms: None,
        latest_blendshape_pts_ms: None,
        latest_audio_clock_ms: None,
        playback_anchor: None,
    }
}

/// `t` with its anchors set from a timed input at `pts`, where they are
/// not set yet.
pub open spec fn anchored(t: Timeline, pts: u64, now_ns: u64) -> Timeline {
    Timeline {
        anchor_pts_ms: if t.anchor_pts_ms is None { Some(pts) } else { t.anchor_pts_ms },
        playback_anchor: if t.playback_anchor is None {
            Some((now_ns, pts))
        } else {
            t.playback_anchor
        },
        ..t
    }
}

/// The timeline after an input that arrived at `now_ns`.
pub open spec fn after_input(t: Timeline, input: InputView, now_ns: u64) -> Timeline {
    match input {
        InputView::Blendshape(f) => Timeline {
            latest_blendshape_pts_ms: Some(f.pts_ms),
            ..anchored(t, f.pts_ms, now_ns)
        },
        InputView::Emotion(_) => t,
        InputView::AudioClock(pts) => Timeline {
            latest_audio_clock_ms: Some(pts),
            ..anchored(t, pts, now_ns)
        },
        InputView::BargeIn => empty_timeline(),
    }
}

/// What the pose state machine does with an input.
pub open spec fn action_of(input: InputView) -> ActionView {
    match input {
        InputView::Blendshape(f) => ActionView::PushBlendshape(f),
        InputView::Emotion(e) => ActionView::PushEmotion(e),
        InputView::AudioClock(_) => ActionView::Nothing,
        InputView::BargeIn => ActionView::HandleBarge,
    }
}

/// Whole milliseconds from `t0_ns` to `now_ns` (zero when `now_ns` is
/// earlier).
pub open spec fn elapsed_ms(t0_ns: u64, now_ns: u64) -> u64 {
    if now_ns >= t0_ns { ((now_ns - t0_ns) / 1_000_000) as u64 } else { 0 }
}

/// `a + b`, saturating at `u64::MAX`.
pub open spec fn sat_add(a: u64, b: u64) -> u64 {
    if a + b > u64::MAX { u64::MAX } else { (a + b) as u64 }
}

/// `a - b`, saturating at 0.
pub open spec fn sat_sub(a: u64, b: u64) -> u64 {
    if a >= b { (a - b) as u64 } else { 0 }
}

/// The effective audio clock: the real clock tap when one arrived, else
/// the wall-time simulation from the playback anchor, else none.
pub open spec fn effective_clock(t: Timeline, now_ns: u64) -> Option<u64> {
    match t.latest_audio_clock_ms {
        Some(c) => Some(c),
        None => match t.playback_anchor {
            Some((t0, pts0)) => Some(sat_add(pts0, elapsed_ms(t0, now_ns))),
            None => None,
        },
    }
}

/// The audio-time cursor of a tick: the effective clock relative to the
/// anchor; before any anchor (or clock), the pacer's own pts.
pub open spec fn cursor_of(t: Timeline, now_ns: u64, tick_pts_us: u64) -> u64 {
    match (t.anchor_pts_ms, effective_clock(t, now_ns)) {
        (Some(anchor), Some(clock)) => sat_sub(clock, anchor),
        _ => (tick_pts_us / 1000) as u64,
    }
}

/// The video timestamp of a frame at `cursor_ms`, in microseconds,
/// saturating at `u64::MAX`.
pub open spec fn timestamp_of(cursor_ms: u64) -> u64 {
    if cursor_ms * 1000 > u64::MAX { u64::MAX } else { (cursor_ms * 1000) as u64 }
}

/// What one paced tick does: advance the audio clock of the pose state
/// machine (when there is one), tick it by the frame interval, render,
/// and stamp the frame.
#[derive(Clone, Copy, Debug, PartialEq, Eq)]
pub struct TickPlan {
    /// The effective audio clock handed to the pose state machine.
    pub audio_clock_ms: Option<u64>,
    /// Milliseconds the pose state machine advances.
    pub frame_interval_ms: u64,
    /// Audio-time cursor of the frame.
    pub cursor_ms: u64,
    /// The frame's `timestamp_us`.
    pub timestamp_us: u64,
}

/// The reactive input path takes `t` to `t2` with action `a` on `data`:
/// a decoded input moves the anchors as [`after_input`] says; anything
/// else leaves them and asks for nothing.
pub open spec fn streaming_step(
    t: Timeline,
    data: RuntimeData,
    now_ns: u64,
    t2: Timeline,
    a: ActionView,
) -> bool {
    match decode(data) {
        Some(input) => t2 == after_input(t, input, now_ns) && a == action_of(input),
        None => t2 == t && a is Nothing,
    }
}

/// The timeline after a control message: a barge-in on the aux port resets
/// it as an in-band barge-in does; any other message leaves it.
pub open spec fn after_control(t: Timeline, message: RuntimeData) -> Timeline {
    if is_barge_envelope(message) {
        empty_timeline()
    } else {
        t
    }
}

impl Timeline {
    /// The timeline with nothing anchored.
    pub fn new() -> (r: Self)
        ensures
            r == empty_timeline(),
    {
        Timeline {
            anchor_pts_ms: None,
            latest_blendshape_pts_ms: None,
            latest_audio_clock_ms: None,
            playback_anchor: None,
        }
    }

    fn anchor(&mut self, pts: u64, now_ns: u64)
        ensures
            *final(self) == anchored(*old(self), pts, now_ns),
    {
        if self.anchor_pts_ms.is_none() {
            self.anchor_pts_ms = Some(pts);
        }
        if self.playback_anchor.is_none() {
            self.playback_anchor = Some((now_ns, pts));
        }
    }

    /// The reactive input path: decode the envelope that arrived at
    /// `now_ns` and update the anchors. Returns what the pose state machine
    /// is to do with it; unknown envelopes change nothing.
    pub fn process_streaming(&mut self, data: &RuntimeData, now_ns: u64) -> (r: StateAction)
        ensures
            streaming_step(*old(self), *data, now_ns, *final(self), r@),
            decode(*data) matches Some(InputView::Emotion(e)) ==> r@ == ActionView::PushEmotion(e)
                && *final(self) == *old(self),
    {
        let input = match decode_envelope(data) {
            Some(i) => i,
            None => {
                return StateAction::Nothing;
            },
        };
        match input {
            RendererInput::Blendshape(f) => {
                let pts = f.pts_ms;
                self.anchor(pts, now_ns);
                self.latest_blendshape_pts_ms = Some(pts);
                StateAction::PushBlendshape(f)
            },
            RendererInput::Emotion(e) => StateAction::PushEmotion(e),
            RendererInput::AudioClock(pts) => {
                self.anchor(pts, now_ns);
                self.latest_audio_clock_ms = Some(pts);
                StateAction::Nothing
            },
            RendererInput::BargeIn => {
                self.anchor_pts_ms = None;
                self.latest_blendshape_pts_ms = None;
                self.latest_audio_clock_ms = None;
                self.playback_anchor = None;
                StateAction::HandleBarge
            },
        }
    }

    /// The barge handler for control messages: a barge-in aux-port
    /// envelope resets the timeline as an in-band barge-in does (so the
    /// next blendshape re-anchors at its own pts) and returns `true`, after
    /// which the pose state machine handles the barge; any other message is
    /// left alone.
    pub fn process_control_message(&mut self, message: &RuntimeData) -> (r: bool)
        ensures
            r == is_barge_envelope(*message),
            *final(self) == after_control(*old(self), *message),
    {
        if is_barge_in(message) {
            self.anchor_pts_ms = None;
            self.latest_blendshape_pts_ms = None;
            self.latest_audio_clock_ms = None;
            self.playback_anchor = None;
            true
        } else {
            false
        }
    }

    /// The effective audio clock at `now_ns`.
    pub fn effective_clock_ms(&self, now_ns: u64) -> (r: Option<u64>)
        ensures
            r == effective_clock(*self, now_ns),
            self.latest_audio_clock_ms is Some ==> r == self.latest_audio_clock_ms,
            self.latest_audio_clock_ms is None && self.playback_anchor is None ==> r is None,
            self.playback_anchor matches Some((t0, p0)) ==> self.latest_audio_clock_ms is None
                && now_ns >= t0 ==> r == Some(
                if p0 + (now_ns - t0) / 1_000_000 > u64::MAX {
                    u64::MAX
                } else {
                    (p0 + (now_ns - t0) / 1_000_000) as u64
                },
            ),
    {
        match self.latest_audio_clock_ms {
            Some(c) => Some(c),
            None => match self.playback_anchor {
                Some((t0, pts0)) => {
                    let elapsed_ms: u64 = if now_ns >= t0 {
                        (now_ns - t0) / 1_000_000
                    } else {
                        0
                    };
                    Some(pts0.saturating_add(elapsed_ms))
                },
                None => None,
            },
        }
    }

    /// Plan the tick that the pacer fires at `now_ns` with its own
    /// `tick_pts_us`.
    pub fn plan_tick(&self, now_ns: u64, tick_pts_us: u64, config: &Live2DRenderConfig) -> (r:
        TickPlan)
        ensures
            r.audio_clock_ms == effective_clock(*self, now_ns),
            r.frame_interval_ms == 1000int / (effective_rate(config.framerate) as int),
            r.cursor_ms == cursor_of(*self, now_ns, tick_pts_us),
            r.timestamp_us == timestamp_of(r.cursor_ms),
    {
        let clock = self.effective_clock_ms(now_ns);
        let cursor_ms = match (self.anchor_pts_ms, clock) {
            (Some(anchor), Some(absolute_pts)) => absolute_pts.saturating_sub(anchor),
            _ => tick_pts_us / 1000,
        };
        let timestamp_us = match cursor_ms.checked_mul(1000) {
            Some(t) => t,
            None => u64::MAX,
        };
        TickPlan {
            audio_clock_ms: clock,
            frame_interval_ms: config.frame_interval_ms(),
            cursor_ms,
            timestamp_us,
        }
    }
}

/// A keyframe encoded as its canonical envelope is taken by the node as
/// exactly that keyframe: it is pushed to the pose state machine, and it
/// anchors the timeline when nothing is anchored yet.
pub proof fn lemma_encoded_frame_is_consumed(
    j: JsonValue,
    f: FrameView,
    t: Timeline,
    now_ns: u64,
    t2: Timeline,
    a: ActionView,
)
    requires
        is_frame_json(j, f),
        f.arkit_52.len() == ARKIT_52,
        streaming_step(t, RuntimeData::Json(j), now_ns, t2, a),
    ensures
        decode(RuntimeData::Json(j)) == Some(InputView::Blendshape(f)),
        a == ActionView::PushBlendshape(f),
        t2.latest_blendshape_pts_ms == Some(f.pts_ms),
        t.anchor_pts_ms is None ==> t2.anchor_pts_ms == Some(f.pts_ms),
{
    lemma_from_json_inverts_to_json(j, f);
    lemma_envelope_key_lengths();
    reveal_with_fuel(crate::json::lookup, 5);
    let fs = j->Object_0@;
    assert(fs.drop_first()[0] == fs[1]);
    assert(fs.drop_first().drop_first()[0] == fs[2]);
    if f.turn_id is Some {
        assert(fs.drop_first().drop_first().drop_first()[0] == fs[3]);
    }
    assert(j.field(crate::session_control::AUX_PORT_ENVELOPE_KEY@) is None);
    assert(!is_barge_envelope(RuntimeData::Json(j)));
    assert(envelope_kind(j) == "blendshapes"@);
}

/// A barge-in envelope on the aux port is always taken as a barge-in,
/// whatever else it holds.
pub proof fn lemma_aux_barge_decodes_as_barge(data: RuntimeData)
    requires
        is_barge_envelope(data),
    ensures
        decode(data) == Some(InputView::BargeIn),
{
}

/// A barge-in clears every anchor, and the next blendshape re-anchors the
/// audio timeline at its own pts and arrival time.
pub proof fn lemma_barge_then_blendshape_reanchors(
    t: Timeline,
    barge: RuntimeData,
    barge_ns: u64,
    t1: Timeline,
    a1: ActionView,
    next: RuntimeData,
    f: FrameView,
    now_ns: u64,
    t2: Timeline,
    a2: ActionView,
)
    requires
        decode(barge) == Some(InputView::BargeIn),
        decode(next) == Some(InputView::Blendshape(f)),
        streaming_step(t, barge, barge_ns, t1, a1),
        streaming_step(t1, next, now_ns, t2, a2),
    ensures
        t1 == empty_timeline(),
        a1 is HandleBarge,
        t2.anchor_pts_ms == Some(f.pts_ms),
        t2.playback_anchor == Some((now_ns, f.pts_ms)),
        t2.latest_blendshape_pts_ms == Some(f.pts_ms),
        t2.latest_audio_clock_ms is None,
        a2 == ActionView::PushBlendshape(f),
{
}

/// Once anchored, the audio-time zero and the playback anchor stay put
/// until a barge-in: no other input moves them.
pub proof fn lemma_anchor_stable_until_barge(
    t: Timeline,
    data: RuntimeData,
    now_ns: u64,
    t2: Timeline,
    a: ActionView,
)
    requires
        t.anchor_pts_ms is Some,
        t.playback_anchor is Some,
        decode(data) != Some(InputView::BargeIn),
        streaming_step(t, data, now_ns, t2, a),
    ensures
        t2.anchor_pts_ms == t.anchor_pts_ms,
        t2.playback_anchor == t.playback_anchor,
{
}

/// Video time is rooted at the first input: after the first blendshape
/// of a turn arrives at `t0_ns` and while no clock tap has arrived, the
/// cursor of a tick at `now_ns` is the wall time elapsed since then.
pub proof fn lemma_first_blendshape_roots_video_time(
    data: RuntimeData,
    f: FrameView,
    t0_ns: u64,
    t1: Timeline,
    a: ActionView,
    now_ns: u64,
    tick_pts_us: u64,
)
    requires
        decode(data) == Some(InputView::Blendshape(f)),
        streaming_step(empty_timeline(), data, t0_ns, t1, a),
        f.pts_ms + elapsed_ms(t0_ns, now_ns) <= u64::MAX,
    ensures
        cursor_of(t1, now_ns, tick_pts_us) == elapsed_ms(t0_ns, now_ns),
{
}

/// A real clock tap, once it has arrived, overrides the wall-time
/// simulation.
pub proof fn lemma_clock_tap_wins(t: Timeline, now_ns: u64)
    requires
        t.latest_audio_clock_ms is Some,
    ensures
        effective_clock(t, now_ns) == t.latest_audio_clock_ms,
{
}

/// With nothing anchored (at start, or after a barge-in) a tick falls back
/// to the pacer's own pts.
pub proof fn lemma_unanchored_tick_uses_pacer_pts(now_ns: u64, tick_pts_us: u64)
    ensures
        effective_clock(empty_timeline(), now_ns) is None,
        cursor_of(empty_timeline(), now_ns, tick_pts_us) == tick_pts_us / 1000,
{
}

/// Both ways of receiving a barge-in reset the timeline alike: a barge-in
/// on the aux port handled as a control message leaves the same timeline
/// as a `barge_in` envelope on the main input.
pub proof fn lemma_barge_paths_agree(
    t: Timeline,
    aux: RuntimeData,
    in_band: RuntimeData,
    now_ns: u64,
    t1: Timeline,
    a1: ActionView,
)
    requires
        is_barge_envelope(aux),
        decode(in_band) == Some(InputView::BargeIn),
        streaming_step(t, in_band, now_ns, t1, a1),
    ensures
        after_control(t, aux) == t1,
        t1 == empty_timeline(),
{
}

/// The timeline after each input of `h` (decoded inputs with their arrival
/// instants, oldest first) was applied in turn to `t`, as
/// `process_streaming` applies them; envelopes that do not decode leave the
/// timeline as it is and are not part of `h`.
pub open spec fn replay(t: Timeline, h: Seq<(InputView, u64)>) -> Timeline
    decreases h.len(),
{
    if h.len() == 0 {
        t
    } else {
        after_input(replay(t, h.drop_last()), h.last().0, h.last().1)
    }
}

/// Whether an input carries a pts on the audio timeline.
pub open spec fn is_timed(i: InputView) -> bool {
    i is Blendshape || i is AudioClock
}

/// The pts of a timed input.
pub open spec fn pts_of(i: InputView) -> u64 {
    match i {
        InputView::Blendshape(f) => f.pts_ms,
        InputView::AudioClock(p) => p,
        _ => 0,
    }
}

/// `(pts, arrival instant)` of the first timed input of `h`.
pub open spec fn first_timed(h: Seq<(InputView, u64)>) -> Option<(u64, u64)>
    decreases h.len(),
{
    if h.len() == 0 {
        None
    } else {
        match first_timed(h.drop_last()) {
            Some(x) => Some(x),
            None => if is_timed(h.last().0) {
                Some((pts_of(h.last().0), h.last().1))
            } else {
                None
            },
        }
    }
}

/// The pts of the latest audio-clock input of `h`.
pub open spec fn latest_tap(h: Seq<(InputView, u64)>) -> Option<u64>
    decreases h.len(),
{
    if h.len() == 0 {
        None
    } else {
        match h.last().0 {
            InputView::AudioClock(p) => Some(p),
            _ => latest_tap(h.drop_last()),
        }
    }
}

/// `h` holds no barge-in.
pub open spec fn no_barge(h: Seq<(InputView, u64)>) -> bool {
    forall|i: int| 0 <= i < h.len() ==> !(#[trigger] h[i].0 is BargeIn)
}

/// Replaying a history in two parts is replaying it whole.
pub proof fn lemma_replay_append(t: Timeline, h1: Seq<(InputView, u64)>, h2: Seq<(InputView, u64)>)
    ensures
        replay(t, h1 + h2) == replay(replay(t, h1), h2),
    decreases h2.len(),
{
    if h2.len() == 0 {
        assert(h1 + h2 =~= h1);
    } else {
        assert((h1 + h2).drop_last() =~= h1 + h2.drop_last());
        assert((h1 + h2).last() == h2.last());
        lemma_replay_append(t, h1, h2.drop_last());
    }
}

/// Whatever came before, the timeline after a barge-in and then `h2` is the
/// one that `h2` builds from scratch.
pub proof fn lemma_replay_after_barge(
    t: Timeline,
    h1: Seq<(InputView, u64)>,
    barge_ns: u64,
    h2: Seq<(InputView, u64)>,
)
    ensures
        replay(t, h1.push((InputView::BargeIn, barge_ns)) + h2) == replay(empty_timeline(), h2),
{
    lemma_replay_append(t, h1.push((InputView::BargeIn, barge_ns)), h2);
    assert(h1.push((InputView::BargeIn, barge_ns)).drop_last() =~= h1);
}

/// From scratch and without barge-ins, the anchors hold the first timed
/// input and the clock tap holds the latest audio-clock input.
pub proof fn lemma_replay_tracks_inputs(h: Seq<(InputView, u64)>)
    requires
        no_barge(h),
    ensures
        replay(empty_timeline(), h).anchor_pts_ms == (match first_timed(h) {
            Some(x) => Some(x.0),
            None => None::<u64>,
        }),
        replay(empty_timeline(), h).playback_anchor == (match first_timed(h) {
            Some(x) => Some((x.1, x.0)),
            None => None::<(u64, u64)>,
        }),
        replay(empty_timeline(), h).latest_audio_clock_ms == latest_tap(h),
    decreases h.len(),
{
    if h.len() > 0 {
        let p = h.drop_last();
        assert forall|i: int| 0 <= i < p.len() implies !(#[trigger] p[i].0 is BargeIn) by {
            assert(p[i] == h[i]);
        }
        assert(!(h[h.len() - 1].0 is BargeIn));
        lemma_replay_tracks_inputs(p);
    }
}

/// Frames are stamped from the first timed input since the last barge-in
/// (or since the node was built): once an audio-clock tap has arrived, the
/// cursor is the latest tap relative to that first pts, whatever the wall
/// time; with blendshapes only, it is the wall time elapsed since that first
/// input arrived. Timestamps are the cursor in microseconds where that does
/// not saturate.
pub proof fn lemma_history_stamps_frames(
    h: Seq<(InputView, u64)>,
    first_pts: u64,
    first_ns: u64,
    now_ns: u64,
    tick_pts_us: u64,
)
    requires
        no_barge(h),
        first_timed(h) == Some((first_pts, first_ns)),
    ensures
        latest_tap(h) matches Some(c) ==> {
            &&& cursor_of(replay(empty_timeline(), h), now_ns, tick_pts_us) == sat_sub(c, first_pts)
            &&& sat_sub(c, first_pts) * 1000 <= u64::MAX ==> timestamp_of(
                cursor_of(replay(empty_timeline(), h), now_ns, tick_pts_us),
            ) == sat_sub(c, first_pts) * 1000
        },
        latest_tap(h) is None && first_pts + elapsed_ms(first_ns, now_ns) <= u64::MAX ==> {
            &&& cursor_of(replay(empty_timeline(), h), now_ns, tick_pts_us) == elapsed_ms(
                first_ns,
                now_ns,
            )
            &&& elapsed_ms(first_ns, now_ns) * 1000 <= u64::MAX ==> timestamp_of(
                cursor_of(replay(empty_timeline(), h), now_ns, tick_pts_us),
            ) == elapsed_ms(first_ns, now_ns) * 1000
        },
{
    lemma_replay_tracks_inputs(h);
}

/// The four envelope kinds are distinct names.
pub proof fn lemma_kind_names_distinct()
    ensures
        "blendshapes"@ != "emotion"@,
        "blendshapes"@ != "audio_clock"@,
        "blendshapes"@ != "barge_in"@,
        "emotion"@ != "audio_clock"@,
        "emotion"@ != "barge_in"@,
        "audio_clock"@ != "barge_in"@,
{
    reveal_strlit("blendshapes");
    reveal_strlit("emotion");
    reveal_strlit("audio_clock");
    reveal_strlit("barge_in");
    assert("blendshapes"@.len() == 11);
    assert("emotion"@.len() == 7);
    assert("audio_clock"@.len() == 11);
    assert("barge_in"@.len() == 8);
    assert("blendshapes"@[0] != "audio_clock"@[0]);
}

/// An object none of whose members is a barge-in on the aux port is not
/// taken as such a barge-in.
proof fn lemma_no_aux_barge_member(v: JsonValue)
    requires
        v is Object,
        forall|m: int|
            0 <= m < v->Object_0@.len() && #[trigger] v->Object_0@[m].0@
                == AUX_PORT_ENVELOPE_KEY@ ==> !(v->Object_0@[m].1 is Str && v->Object_0@[m].1->Str_0@
                == BARGE_IN_PORT@),
    ensures
        !is_barge_envelope(RuntimeData::Json(v)),
{
    let fs = v->Object_0@;
    if lookup(fs, AUX_PORT_ENVELOPE_KEY@) is Some {
        crate::json::lemma_lookup_finds_member(fs, AUX_PORT_ENVELOPE_KEY@);
    }
}

/// An emotion envelope is decoded by its members, in whatever order they
/// stand: an object with distinct keys whose `kind` member is `"emotion"`
/// and whose `emoji` member is a string `e`, and that is no aux-port
/// barge-in, decodes to the emotion `e`.
pub proof fn lemma_decode_emotion_by_members(v: JsonValue, i: int, j: int, e: Seq<char>)
    requires
        v is Object,
        crate::json::keys_distinct(v->Object_0@),
        0 <= i < v->Object_0@.len(),
        0 <= j < v->Object_0@.len(),
        v->Object_0@[i].0@ == "kind"@,
        v->Object_0@[i].1 is Str,
        v->Object_0@[i].1->Str_0@ == "emotion"@,
        v->Object_0@[j].0@ == "emoji"@,
        v->Object_0@[j].1 is Str,
        v->Object_0@[j].1->Str_0@ == e,
        forall|m: int|
            0 <= m < v->Object_0@.len() && #[trigger] v->Object_0@[m].0@
                == AUX_PORT_ENVELOPE_KEY@ ==> !(v->Object_0@[m].1 is Str && v->Object_0@[m].1->Str_0@
                == BARGE_IN_PORT@),
    ensures
        decode(RuntimeData::Json(v)) == Some(InputView::Emotion(e)),
{
    let fs = v->Object_0@;
    lemma_no_aux_barge_member(v);
    lemma_kind_names_distinct();
    crate::json::lemma_lookup_member(fs, i);
    crate::json::lemma_lookup_member(fs, j);
}

/// An audio-clock envelope is decoded by its members, in whatever order
/// they stand: an object with distinct keys whose `kind` member is
/// `"audio_clock"` and whose `pts_ms` member is the non-negative integer
/// `p`, and that is no aux-port barge-in, decodes to the audio clock `p`.
pub proof fn lemma_decode_audio_clock_by_members(v: JsonValue, i: int, k: int, p: u64)
    requires
        v is Object,
        crate::json::keys_distinct(v->Object_0@),
        0 <= i < v->Object_0@.len(),
        0 <= k < v->Object_0@.len(),
        v->Object_0@[i].0@ == "kind"@,
        v->Object_0@[i].1 is Str,
        v->Object_0@[i].1->Str_0@ == "audio_clock"@,
        v->Object_0@[k].0@ == "pts_ms"@,
        v->Object_0@[k].1 == JsonValue::Number(JsonNumber::PosInt(p)),
        forall|m: int|
            0 <= m < v->Object_0@.len() && #[trigger] v->Object_0@[m].0@
                == AUX_PORT_ENVELOPE_KEY@ ==> !(v->Object_0@[m].1 is Str && v->Object_0@[m].1->Str_0@
                == BARGE_IN_PORT@),
    ensures
        decode(RuntimeData::Json(v)) == Some(InputView::AudioClock(p)),
{
    let fs = v->Object_0@;
    lemma_no_aux_barge_member(v);
    lemma_kind_names_distinct();
    crate::json::lemma_lookup_member(fs, i);
    crate::json::lemma_lookup_member(fs, k);
}

/// An object with distinct keys whose `kind` member is `"barge_in"`, in
/// whatever position, decodes to a barge-in.
pub proof fn lemma_decode_barge_by_members(v: JsonValue, i: int)
    requires
        v is Object,
        crate::json::keys_distinct(v->Object_0@),
        0 <= i < v->Object_0@.len(),
        v->Object_0@[i].0@ == "kind"@,
        v->Object_0@[i].1 is Str,
        v->Object_0@[i].1->Str_0@ == "barge_in"@,
    ensures
        decode(RuntimeData::Json(v)) == Some(InputView::BargeIn),
{
    lemma_kind_names_distinct();
    crate::json::lemma_lookup_member(v->Object_0@, i);
}

/// A blendshape envelope is decoded by its members, in whatever order they
/// stand: the node takes it as the keyframe of those 52 numbers and that
/// pts (see `lemma_parse_frame_by_members`).
pub proof fn lemma_decode_blendshapes_by_members(
    v: JsonValue,
    i: int,
    j: int,
    k: int,
    l: int,
    items: Seq<JsonValue>,
    pts_ms: u64,
    turn_id: Option<u64>,
)
    requires
        v is Object,
        crate::json::keys_distinct(v->Object_0@),
        0 <= i < v->Object_0@.len(),
        0 <= j < v->Object_0@.len(),
        0 <= k < v->Object_0@.len(),
        v->Object_0@[i].0@ == "kind"@,
        v->Object_0@[i].1 is Str,
        v->Object_0@[i].1->Str_0@ == "blendshapes"@,
        v->Object_0@[j].0@ == "arkit_52"@,
        v->Object_0@[j].1 is Array,
        v->Object_0@[j].1->Array_0@ == items,
        items.len() == ARKIT_52,
        forall|idx: int| 0 <= idx < items.len() ==> #[trigger] items[idx] is Number,
        v->Object_0@[k].0@ == "pts_ms"@,
        v->Object_0@[k].1 == JsonValue::Number(JsonNumber::PosInt(pts_ms)),
        turn_id is None ==> forall|m: int|
            0 <= m < v->Object_0@.len() ==> #[trigger] v->Object_0@[m].0@ != "turn_id"@,
        turn_id is Some ==> {
            &&& 0 <= l < v->Object_0@.len()
            &&& v->Object_0@[l].0@ == "turn_id"@
            &&& v->Object_0@[l].1 == JsonValue::Number(JsonNumber::PosInt(turn_id->0))
        },
        forall|m: int|
            0 <= m < v->Object_0@.len() && #[trigger] v->Object_0@[m].0@
                == AUX_PORT_ENVELOPE_KEY@ ==> !(v->Object_0@[m].1 is Str && v->Object_0@[m].1->Str_0@
                == BARGE_IN_PORT@),
    ensures
        decode(RuntimeData::Json(v)) matches Some(InputView::Blendshape(f)) && {
            &&& f.arkit_52.len() == ARKIT_52
            &&& forall|idx: int| 0 <= idx < ARKIT_52 ==> #[trigger] f.arkit_52[idx] == items[idx]->Number_0
            &&& f.pts_ms == pts_ms
            &&& f.turn_id == turn_id
        },
{
    crate::arkit::lemma_parse_frame_by_members(v, i, j, k, l, items, pts_ms, turn_id);
    lemma_no_aux_barge_member(v);
    crate::json::lemma_lookup_member(v->Object_0@, i);
}

/// Every decoded emotion is handed to the pose state machine, whatever the
/// timeline (anchored or not), and moves no anchor.
pub proof fn lemma_emotion_always_pushed(
    t: Timeline,
    data: RuntimeData,
    e: Seq<char>,
    now_ns: u64,
    t2: Timeline,
    a: ActionView,
)
    requires
        decode(data) == Some(InputView::Emotion(e)),
        streaming_step(t, data, now_ns, t2, a),
    ensures
        a == ActionView::PushEmotion(e),
        t2 == t,
{
}

/// With no clock tap, the simulated audio clock is the playback anchor's pts
/// plus the whole milliseconds of wall time since the anchor's instant
/// (saturating at `u64::MAX`), so it grows by 1000 for every further second;
/// the cursor is that many milliseconds past the anchor's pts.
pub proof fn lemma_wall_clock_counts_whole_ms(
    t: Timeline,
    t0_ns: u64,
    pts0: u64,
    now_ns: u64,
    tick_pts_us: u64,
)
    requires
        t.latest_audio_clock_ms is None,
        t.playback_anchor == Some((t0_ns, pts0)),
        now_ns >= t0_ns,
    ensures
        effective_clock(t, now_ns) == Some(
            if pts0 + (now_ns - t0_ns) / 1_000_000 > u64::MAX {
                u64::MAX
            } else {
                (pts0 + (now_ns - t0_ns) / 1_000_000) as u64
            },
        ),
        now_ns + 1_000_000_000 <= u64::MAX && pts0 + (now_ns + 1_000_000_000 - t0_ns) / 1_000_000
            <= u64::MAX ==> effective_clock(t, (now_ns + 1_000_000_000) as u64) == Some(
            (effective_clock(t, now_ns)->0 + 1000) as u64,
        ),
        t.anchor_pts_ms == Some(pts0) && pts0 + (now_ns - t0_ns) / 1_000_000 <= u64::MAX
            ==> cursor_of(t, now_ns, tick_pts_us) == (now_ns - t0_ns) / 1_000_000,
{
    assert((now_ns + 1_000_000_000 - t0_ns) / 1_000_000 == (now_ns - t0_ns) / 1_000_000 + 1000)
        by (nonlinear_arith)
        requires
            now_ns >= t0_ns,
    ;
}

/// The first blendshape of a turn anchors wall time: at any later tick with
/// no clock tap, the cursor is the whole milliseconds of wall time since it
/// arrived.
pub proof fn lemma_blendshape_anchor_counts_wall_ms(
    data: RuntimeData,
    f: FrameView,
    t0_ns: u64,
    t1: Timeline,
    a: ActionView,
    now_ns: u64,
    tick_pts_us: u64,
)
    requires
        decode(data) == Some(InputView::Blendshape(f)),
        streaming_step(empty_timeline(), data, t0_ns, t1, a),
        now_ns >= t0_ns,
        f.pts_ms + (now_ns - t0_ns) / 1_000_000 <= u64::MAX,
    ensures
        effective_clock(t1, now_ns) == Some((f.pts_ms + (now_ns - t0_ns) / 1_000_000) as u64),
        cursor_of(t1, now_ns, tick_pts_us) == (now_ns - t0_ns) / 1_000_000,
{
    lemma_wall_clock_counts_whole_ms(t1, t0_ns, f.pts_ms, now_ns, tick_pts_us);
}

} // verus!
