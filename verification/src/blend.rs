//! The blending raster pass: a list of palette indices per pixel, folded to
//! one color through a caller-supplied blend function.

use vstd::prelude::*;

pub use crate::image_function::ImageResult;

use crate::color::{ChannelOrder, Color};
use crate::error::Error;
use crate::scan::{
    max_run, pixel_total, row_count, run_scan, scan_bounded, scan_bytes, scan_indices_ok, Blender,
    MultiClassifier,
};

verus! {

/// A raster pass pairing a palette with a list-of-indices classification
/// function, a blend function, and a declared channel order.
pub struct ImageFunction<C: MultiClassifier, B: Blender> {
    pub palette: Vec<Color>,
    pub function: C,
    pub blending: B,
    pub order: ChannelOrder,
}

impl<C: MultiClassifier, B: Blender> ImageFunction<C, B> {
    pub fn new(palette: Vec<Color>, function: C, blending: B, order: ChannelOrder) -> (r:
        ImageFunction<C, B>)
        ensures
            r.palette == palette,
            r.function == function,
            r.blending == blending,
            r.order == order,
    {
        ImageFunction { palette, function, blending, order }
    }

    /// Run the probe-until-none scan with this palette, classifier and blend
    /// function.
    ///
    /// Each emitted pixel's index list is folded left through the blend
    /// function, seeded with transparent white, and the folded color's four
    /// bytes are appended in the configured channel order. Fails with
    /// `PaletteIndexOutOfRange` exactly when some emitted pixel's list names
    /// an index outside the palette.
    pub fn execute(&self) -> (r: Result<ImageResult, Error>)
        requires
            self.function.wf(),
            scan_bounded(&self.function),
        ensures
            r is Ok ==> ({
                let out = r.unwrap();
                let rows = row_count(&self.function);
                &&& out.data@ == scan_bytes(
                    &self.function,
                    &self.blending,
                    self.palette@,
                    self.order,
                    rows,
                )
                &&& out.data@.len() == 4 * pixel_total(&self.function, rows)
                &&& out.size.x == max_run(&self.function, rows)
                &&& out.size.y == rows
            }),
            r is Err ==> r.unwrap_err() == Error::PaletteIndexOutOfRange,
            r is Err <==> !scan_indices_ok(&self.function, self.palette@.len() as int),
    {
        match run_scan(&self.palette, &self.function, &self.blending, self.order) {
            Ok((size, data)) => Ok(ImageResult { size, data }),
            Err(e) => Err(e),
        }
    }
}

} // verus!
