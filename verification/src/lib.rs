//! Verified core of an OCR / lookup desktop helper: screenshot cropping, Base64
//! framing of image payloads, the decisions of the OCR request flow, global
//! shortcut dispatch and tray / window routing.

pub mod raster;
pub mod crop;
pub mod encoding;
pub mod ocr_flow;
pub mod shortcut;
pub mod tray;
