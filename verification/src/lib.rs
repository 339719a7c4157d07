//! Input arbitration, envelope decoding and configuration rules of the
//! Live2D render node: the node consumes blendshape, emotion, audio-clock
//! and barge-in envelopes, anchors them on the audio timeline, and stamps
//! one video frame per paced tick.

use vstd::prelude::*;
use std::path::PathBuf;
use crate::live2d_render::node::{
    DEFAULT_FRAMERATE, DEFAULT_VIDEO_STREAM_ID, NODE_TYPE, effective_rate,
};

pub mod arkit;
pub mod json;
pub mod live2d_render;
pub mod physics;
pub mod session_control;

pub use live2d_render::Live2DRenderConfig;

verus! {

#[verifier::external_type_specification]
#[verifier::external_body]
pub struct ExPathBuf(std::path::PathBuf);

/// Default render-target width in pixels.
pub const DEFAULT_WIDTH: u32 = 1280;

/// Default render-target height in pixels.
pub const DEFAULT_HEIGHT: u32 = 720;

/// The parameters accepted by the node factory: `modelPath`, `framerate`,
/// `videoStreamId`, `width`, `height`.
#[derive(Debug, Clone)]
pub struct Live2DRenderManifestParams {
    /// Path to the Live2D `.model3.json` to render. Without it the backend
    /// still initializes, with no model loaded.
    pub model_path: Option<PathBuf>,
    /// Output framerate (frames per second). Defaults to 30.
    pub framerate: u32,
    /// Output video `stream_id`. Defaults to `"avatar"`.
    pub video_stream_id: String,
    /// Render-target width in pixels (default 1280).
    pub width: u32,
    /// Render-target height in pixels (default 720).
    pub height: u32,
}

impl Default for Live2DRenderManifestParams {
    fn default() -> (r: Self)
        ensures
            r.model_path is None,
            r.framerate == 30,
            r.video_stream_id@ == DEFAULT_VIDEO_STREAM_ID@,
            r.width == 1280,
            r.height == 720,
    {
        Live2DRenderManifestParams {
            model_path: None,
            framerate: DEFAULT_FRAMERATE,
            video_stream_id: DEFAULT_VIDEO_STREAM_ID.to_owned(),
            width: DEFAULT_WIDTH,
            height: DEFAULT_HEIGHT,
        }
    }
}

/// `n` with 0 raised to 1.
pub open spec fn at_least_one(n: u32) -> u32 {
    if n == 0 { 1 } else { n }
}

impl Live2DRenderManifestParams {
    /// The render-target size the backend is built with: width and height,
    /// each at least one pixel.
    pub fn render_target_size(&self) -> (r: (u32, u32))
        ensures
            r == (at_least_one(self.width), at_least_one(self.height)),
            r.0 == (if self.width == 0 { 1 } else { self.width }),
            r.1 == (if self.height == 0 { 1 } else { self.height }),
    {
        (self.width.max(1), self.height.max(1))
    }

    /// The node configuration these parameters make: the model path and
    /// stream id as given, the framerate at least 1.
    pub fn into_render_config(self) -> (r: Live2DRenderConfig)
        ensures
            r.model_path == self.model_path,
            r.framerate == effective_rate(self.framerate),
            r.framerate == (if self.framerate == 0 { 1 } else { self.framerate }),
            r.video_stream_id@ == self.video_stream_id@,
    {
        let framerate = self.framerate.max(1);
        Live2DRenderConfig {
            model_path: self.model_path,
            framerate,
            video_stream_id: self.video_stream_id,
        }
    }
}

/// The factory that builds `Live2DRenderNode`s from manifest parameters.
#[derive(Debug, Default, Clone, Copy)]
pub struct Live2DRenderNodeFactory;

impl Live2DRenderNodeFactory {
    /// The node type this factory builds.
    pub fn node_type(&self) -> (r: String)
        ensures
            r@ == NODE_TYPE@,
    {
        NODE_TYPE.to_owned()
    }
}

/// A render-target side or a framerate that is at least 1 is kept as
/// given, however large; only 0 is raised, to 1.
pub proof fn lemma_sizes_and_rates_kept(n: u32)
    ensures
        n >= 1 ==> at_least_one(n) == n && effective_rate(n) == n,
        n == 0 ==> at_least_one(n) == 1 && effective_rate(n) == 1,
        at_least_one(n) >= n,
        effective_rate(n) >= 1,
{
}

} // verus!
