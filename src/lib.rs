//! Plots described by drawables that write commands for matplotlib: 3D
//! surfaces and wireframes, composed into one script per figure.

use vstd::prelude::*;

pub mod bridge;
pub mod graph;
pub mod plot;
pub mod surface;
pub mod text;

pub use bridge::{execution_outcome, python_code, EXECUTION_FAILED, PYTHON_HEADER};
pub use graph::GraphMaker;
pub use plot::{Plot, PlotView};
pub use surface::{palette_colormap, Surface, SurfaceSetting, SurfaceView, COLORMAP_COUNT};

verus! {

/// The error of this library: a fixed message.
pub type StrError = &'static str;

} // verus!
