# live2d_render

The verified core of a Live2D render node for a streaming media pipeline.
The node consumes four JSON envelope shapes (`blendshapes`, `emotion`,
`audio_clock`, `barge_in`, plus barge-ins on the session router's aux
port), anchors them on the audio timeline, and on every paced tick renders
one RGB frame stamped with the anchor-relative audio time.

## Layout

- `src/` — the library, verified with Verus:
  - `json.rs`: a plain-value model of the JSON envelopes.
  - `session_control.rs`: aux-port envelopes and barge-in recognition.
  - `arkit.rs`: the ARKit-52 keyframe and its `blendshapes` envelope
    (encode, decode, and the proof that decoding inverts encoding).
  - `live2d_render/node.rs`: envelope decoding, the audio-time anchors that
    inputs move, the tick plan (audio clock, frame interval, cursor,
    timestamp), the node configuration, and the laws relating them.
  - `physics.rs`: the physics rig's targets and the simulator's decisions
    (driven targets, input/output axes, output particle selection).
  - `lib.rs`: manifest parameters, their defaults and clamps, the factory.
- `app/` — the plugin around it: conversions to and from `serde_json` and the
  SDK's `RuntimeData`, the async node, the render worker thread, the
  floating-point physics simulator and response curves, the FFI factory.
- `tests/` — tests of the library on concrete values.
