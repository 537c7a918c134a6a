# webp-anim

Verified rules for sequential, bounded-memory processing of animated WebP frame
sequences: inspection, decoding, resizing, and encoding, with frame order, source
durations, loop count, and ANIM background color as explicit parts of the
contract.

- `src/` is the library, verified with Verus. `inspect` classifies containers,
  `codec::decode` and `codec::encode` keep the time lines of the source and the
  output, `codec::roundtrip` relates the two, `resize` derives and applies resize
  plans, and `transcode` composes the stages. `model`, `time`, and `text` hold the
  shared data types, spans of time, and the text of messages.
- `app/` connects the library to libwebp, whose decoder and encoder take unsafe
  calls. The library says what each call is given and what its answer means.
- `tests/` runs the library on concrete values.

Resampling is done by `fast_image_resize`, and the initial encoder configuration
comes from libwebp; the library states what it relies on in both cases beside the
call.
