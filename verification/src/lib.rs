//! A verified model of a reactive "dot" control panel: one integer `Size`
//! drives a slider, a numeric readout and a canvas that shows a centered
//! circle of radius `Size`. The library holds the state, the validation,
//! the decimal text handling, the geometry of every redraw, and the static
//! page structure; a thin host layer performs the actual browser calls.

pub mod controller;
pub mod decimal;
pub mod render;
pub mod scaffold;
pub mod size;
