//! Live2D render node: the input arbitration and audio-clock anchoring
//! that decide what the renderer draws and how each frame is stamped.

pub mod node;

pub use node::{Live2DRenderConfig, RendererInput, decode_envelope};
