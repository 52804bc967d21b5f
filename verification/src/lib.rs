//! Verified core of a screen OCR utility: hotkey configuration, the
//! selection overlay's frame logic, desktop composition and cropping,
//! the image clean-up pipeline that runs before OCR, and the text
//! handling around the OCR engine.

pub mod text;
pub mod keys;
pub mod modifiers;
pub mod config;
pub mod imaging;
pub mod preprocessing;
pub mod capture;
pub mod overlay;
pub mod ocr;
