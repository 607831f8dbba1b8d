//! Render-target lifecycle and per-frame submission protocol for a host that
//! draws one triangle: surface configuration, its depth attachment, the fixed
//! pipeline description, and the frame-by-frame acquire/record/present rules.

pub mod format;
pub mod layout;
pub mod pipeline;
pub mod surface;
pub mod frame;
pub mod state;
