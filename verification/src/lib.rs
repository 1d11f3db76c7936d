//! A bridge between an embedded script and a host-rendered user interface.
//!
//! A script declares widgets (labels, text inputs, buttons, separators,
//! checkboxes) through a fixed set of binding functions; the declarations
//! accumulate in an insertion-ordered [`registry::Registry`].  Each frame the
//! host walks the registry in declaration order, renders every widget, and
//! feeds user interactions back into the shared cells that script-side
//! handles read.

pub mod engine;
pub mod laws;
pub mod registry;
pub mod render;
