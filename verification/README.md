# exif-stripper-wasm

A library that removes privacy-sensitive metadata from JPEG and PNG images
and lists the EXIF tags an image carries, with its behaviour stated in
contracts and proved by Verus.

- `src/jpeg.rs`: stripping a JPEG. The segments are read and written by
  `img-parts`; the library removes APP1, APP13 and COM segments, the ICC
  profile and any EXIF segment, and proves what is kept, that the output
  reads back as the kept segments, that stripping twice is stripping once,
  and that the output is never longer than the input's segments written back.
- `src/png.rs`: stripping a PNG. Only chunks on an allowlist and off the
  metadata blocklist are kept; the CRC-32 of each chunk is stated as a spec
  function, and the laws cover idempotence, size and a clean file passing
  through unchanged.
- `src/exif_tags.rs`: listing EXIF tags through `kamadak-exif`, with each
  tag put into a privacy category and the list written as JSON by
  `serde_json`.
- `src/image_format.rs`: the parse errors shared by both formats.
- `src/seq_filter.rs`: lemmas about filtering sequences.
- `app/`: the WebAssembly exports, which hand errors to JavaScript.
