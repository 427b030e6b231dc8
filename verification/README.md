# lexicog

Verified core of a desktop helper for word lookup, translation and OCR.

- `src/raster.rs` – the model of a decoded image (layout and raw samples) and
  the trusted calls into the `image` crate (decode, dimensions, crop, PNG).
- `src/crop.rs` – choosing the selected region of a screenshot and cutting it
  out as PNG, with laws on the region and on the pixels kept.
- `src/encoding.rs` – padded standard Base64 of image payloads.
- `src/ocr_flow.rs` – the OCR request as a state machine driven by the host,
  with laws on task registration and on the platform recognizer's precedence.
- `src/shortcut.rs`, `src/tray.rs` – global-shortcut dispatch and tray / window
  routing decisions.
- `app/` – the asynchronous host: shared state, cancel signals, the front-end
  channel and the model client, driving the verified state machine.
