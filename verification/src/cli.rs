//! The choices a run is invoked with; parsing them belongs to the caller.

use vstd::prelude::*;

verus! {

/// Which mode the renderer runs in, with that mode's own parameters:
/// rendering to an image file, probing a single pixel, or an interactive
/// view.
#[derive(Clone)]
pub enum SubCommandArgs {
    ImgArgs { num_samples: u32, output_file: String },
    DbgArgs { pixel_x: u32, pixel_y: u32 },
    GuiArgs {},
}

} // verus!
