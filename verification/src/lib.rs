//! Conversion of document filter-effect functions (grayscale, sepia, saturate,
//! hue-rotate, invert, opacity, brightness, contrast, blur, drop-shadow) into
//! normalized filter primitives: color matrices, per-channel transfer curves,
//! Gaussian blurs and drop shadows.
//!
//! Every numeric value is an exact fixed-point integer; the scales are declared
//! in [`model`]. Each converter's contract pins the primitive it returns, entry
//! by entry, so the encoded formulas can be checked against the filter-effects
//! specification.

pub mod funcs;
pub mod laws;
pub mod model;
pub mod primitive;
