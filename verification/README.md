# irlume_camera

The decision logic of an infrared-camera stack for face authentication, verified with Verus.

The library decides; it performs no I/O. Where a decision depends on a device, a file or the
environment, it is a sequence of requests and replies: `request` names what is wanted next,
`advance` takes what came of it, and `outcome` says what the sequence came to. Every such sequence
has a model over mathematical values (`asked`, `step`) that the executable functions are proved
equal to, and laws over whole runs of it.

## Layout

- `src/contracts.rs`: identities and roles that evidence is bound to.
- `src/frame_provenance/`: what a dequeued buffer proves about a frame: timestamps, sequence
  numbers, payload layout, and the evidence of one frame or of several.
- `src/inventory.rs`: which cameras are attached, and how one snapshot follows another.
- `src/ir_dark.rs`: why an infrared frame is dark.
- `src/ir_metadata/`: per-frame illumination metadata: its parser, the session on a metadata node,
  and the choice of a frame out of a burst.
- `src/ir_emitter/`: driving the emitter: what a control may be set to, lighting it for a stream,
  putting it back, recovering from an interrupted run, and finding the control in the first place.
- `src/reading.rs`: the order of floating-point measurements, by their bits.
- `src/text.rs`: rendering and reading text.
- `app/`: system calls, files and signals around the library.
- `tests/`: the library from outside.

## What is taken on trust

The items marked `Trusted:` in their doc comments, each with the outside function that it stands
for. Floating-point arithmetic is not modelled: a measurement enters the library as its bits, with
the sums and the printed digits that depend on rounding already computed.
