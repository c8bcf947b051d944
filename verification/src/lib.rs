//! Flow-field curve tracing and the discrete rules around it.
//!
//! Numbers such as coordinates, headings and colours are carried through as
//! type parameters: the caller picks the representation and supplies the
//! arithmetic, the library decides what is computed, in which order and how
//! often.

pub mod art;
pub mod background;
pub mod color;
pub mod common;
pub mod dot;
pub mod extrude;
pub mod field;
pub mod fractal;
pub mod gradient;
pub mod gui;
pub mod length;
pub mod location;
pub mod noise;
pub mod presets;
pub mod sine;
pub mod size;
