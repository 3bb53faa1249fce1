# rhwp

Logic of a word processor for HWP documents, written in Rust and proved with Verus.

- `src/renderer/equation`: equation scripts. `tokenizer` splits a script into tokens,
  `grammar` says what a list of tokens means, and `parser` builds the syntax tree that the
  grammar gives.
- `src/document_core/converters`: brings a document that was read from HWPX or HWP3 into the form
  that the writer of the binary format expects. `normal_form` says what that form is and counts
  the changes that lead to it, `hwpx_to_hwp` makes the changes, and `laws` holds what follows: a
  second run changes nothing and reports nothing. `record_slots` says what a report that counts
  nothing tells of a document.
- `src/renderer/height_cursor`: which vertical position, and which base, the place of the next
  paragraph in a column is worked out from.
- `src/model`: documents, each type with its mathematical counterpart.
- `app`: the part of the height cursor that works in pixels.

The one thing believed without proof is what `String::push` of the standard library does; see
`src/text.rs`.
