# thorvg (verified core)

Typed values and argument checks for the ThorVG vector-graphics C
interface, written in Verus and proved against their contracts:

- `error` — status codes to `Result`, one-to-one.
- `ctext` — NUL-terminated text for the C interface; a NUL inside is rejected.
- `font`, `picture` — argument bundles for font and picture loads, with the
  NUL and pixel-buffer-size checks made before the engine reads anything.
- `canvas` — engine options, GPU target descriptions, the software target
  buffer check, and the update/draw/sync steps of a render pass.
- `path` — commands, points and segments, the raw command-byte encoding,
  and the lockstep walk of commands and points.
- `color`, `paint`, `shape`, `gradient`, `scene`, `text` — the value enums
  and parameter types with their C-interface codes.
- `fuzz_input` — byte-to-variant decoders for fuzzing inputs.

`app/` holds what carries floating-point values (matrices, points,
primitive and effect parameters, metrics) and the std integrations
(`Display`, paths).

The objects that own native engine handles (canvases, shapes, scenes,
pictures, texts, animations, savers, accessors, gradients) are not part of
this crate: they require the native ThorVG engine and its C bindings.
