//! The raw-input side of the translation: the unit-section options and the
//! per-kind field sets as the caller collects them.

pub mod kube;
pub mod unit;
