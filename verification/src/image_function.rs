//! The single-index raster pass: one palette index per pixel.

use vstd::prelude::*;

use crate::color::{spec_color_bytes, ChannelOrder, Color};
use crate::error::Error;
use crate::iso::Point;
use crate::scan::{
    blend_fold, lemma_scan_bytes_at, max_run, pixel_color, pixel_total, row_count, run_len,
    run_scan, scan_bounded, scan_bytes, scan_indices_ok, Blender, Classifier, MultiClassifier,
};

verus! {

/// A raster pass output: the discovered bounding size and the flat byte
/// buffer, four bytes per emitted pixel, row-major from the top-left.
#[derive(Debug)]
pub struct ImageResult {
    pub size: Point,
    pub data: Vec<u8>,
}

/// The blend step the plain passes use: each step keeps the newer color, so
/// the last index of a pixel's list wins.
pub struct LastWins;

impl Blender for LastWins {
    open spec fn spec_blend(&self, acc: Color, next: Color) -> Color {
        next
    }

    fn blend(&self, acc: Color, next: Color) -> (r: Color) {
        next
    }
}

/// A single-index classifier viewed as a one-entry-list classifier, so the
/// shared scan engine can drive it.
pub struct SingleLayer<'a, C: Classifier> {
    pub inner: &'a C,
}

impl<'a, C: Classifier> MultiClassifier for SingleLayer<'a, C> {
    open spec fn wf(&self) -> bool {
        self.inner.wf()
    }

    open spec fn pixel(&self, x: int, y: int) -> Option<Seq<usize>> {
        match self.inner.pixel(x, y) {
            Some(i) => Some(seq![i]),
            None => None,
        }
    }

    fn classify(&self, x: u32, y: u32) -> (r: Option<Vec<usize>>) {
        match self.inner.classify(x, y) {
            Some(i) => {
                let v: Vec<usize> = vec![i];
                proof {
                    assert(v@ =~= seq![i]);
                }
                Some(v)
            },
            None => None,
        }
    }
}

/// The one-entry-list view of a single-index classifier.
pub open spec fn lifted<'a, C: Classifier>(c: &'a C) -> SingleLayer<'a, C> {
    SingleLayer { inner: c }
}

/// Under the last-wins blend, a single-index pixel's color is simply its
/// palette entry.
pub proof fn lemma_single_pixel_color<'a, C: Classifier>(
    c: &'a C,
    palette: Seq<Color>,
    x: int,
    y: int,
)
    requires
        c.pixel(x, y) is Some,
    ensures
        pixel_color(&lifted(c), &LastWins, palette, x, y) == palette[c.pixel(
            x,
            y,
        ).unwrap() as int],
{
    let i = c.pixel(x, y).unwrap();
    let idxs = seq![i];
    assert(idxs.drop_last() =~= Seq::<usize>::empty());
    assert(blend_fold(&LastWins, palette, idxs) == palette[i as int]);
}

/// Law: in a single-index pass the four bytes of pixel `(x, y)` are the
/// bytes of its palette entry, at the offset counting four bytes for every
/// pixel emitted before it.
pub proof fn lemma_single_scan_pixel_bytes<'a, C: Classifier>(
    c: &'a C,
    palette: Seq<Color>,
    o: ChannelOrder,
    rows: int,
    x: int,
    y: int,
)
    requires
        0 <= y < rows,
        0 <= x < run_len(&lifted(c), y),
        forall|y2: int| 0 <= y2 < rows ==> run_len(&lifted(c), y2) >= 0,
        c.pixel(x, y) is Some,
    ensures
        scan_bytes(&lifted(c), &LastWins, palette, o, rows).subrange(
            4 * (pixel_total(&lifted(c), y) + x),
            4 * (pixel_total(&lifted(c), y) + x) + 4,
        ) == spec_color_bytes(palette[c.pixel(x, y).unwrap() as int], o),
{
    lemma_scan_bytes_at(&lifted(c), &LastWins, palette, o, rows, x, y);
    lemma_single_pixel_color(c, palette, x, y);
}

/// A raster pass pairing a palette with a single-index classification
/// function and a declared channel order.
pub struct ImageFunction<C: Classifier> {
    pub palette: Vec<Color>,
    pub function: C,
    pub order: ChannelOrder,
}

impl<C: Classifier> ImageFunction<C> {
    pub fn new(palette: Vec<Color>, function: C, order: ChannelOrder) -> (r: ImageFunction<C>)
        ensures
            r.palette == palette,
            r.function == function,
            r.order == order,
    {
        ImageFunction { palette, function, order }
    }

    /// Run the probe-until-none scan with this palette and classifier.
    ///
    /// The result's buffer and size are exactly the scan model of the
    /// one-entry-list view of the classifier under the last-wins blend: each
    /// emitted pixel contributes the four bytes of its palette entry in the
    /// configured channel order. Fails with `PaletteIndexOutOfRange` exactly
    /// when some emitted pixel's index lies outside the palette.
    pub fn execute(&self) -> (r: Result<ImageResult, Error>)
        requires
            self.function.wf(),
            scan_bounded(&lifted(&self.function)),
        ensures
            r is Ok ==> ({
                let out = r.unwrap();
                let view = lifted(&self.function);
                let rows = row_count(&view);
                &&& out.data@ == scan_bytes(&view, &LastWins, self.palette@, self.order, rows)
                &&& out.data@.len() == 4 * pixel_total(&view, rows)
                &&& out.size.x == max_run(&view, rows)
                &&& out.size.y == rows
            }),
            r is Err ==> r.unwrap_err() == Error::PaletteIndexOutOfRange,
            r is Err <==> !scan_indices_ok(&lifted(&self.function), self.palette@.len() as int),
    {
        let layer = SingleLayer { inner: &self.function };
        proof {
            assert(layer == lifted(&self.function));
        }
        match run_scan(&self.palette, &layer, &LastWins, self.order) {
            Ok((size, data)) => Ok(ImageResult { size, data }),
            Err(e) => Err(e),
        }
    }
}

} // verus!
