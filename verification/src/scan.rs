//! The probe-until-none raster scan: classifier and blender interfaces, the
//! mathematical model of the scan, and the generic engine that drives it.
//!
//! The scan walks pixels row-major from `(0, 0)`. Within a row it probes
//! `x = 0, 1, 2, ...` until the classifier first answers `None`; a row whose
//! very first probe answers `None` ends the whole scan. Every probed `Some`
//! pixel contributes four bytes to the output buffer, and the discovered size
//! is the maximum extent reached over all rows.

use vstd::prelude::*;

use crate::color::{spec_color_bytes, ChannelOrder, Color};
use crate::error::Error;
use crate::iso::Point;

verus! {

/// A per-pixel classification function yielding a list of palette indices,
/// to be folded by a [`Blender`]. `wf` is whatever well-formedness the
/// concrete classifier needs; `pixel` is its mathematical meaning.
pub trait MultiClassifier {
    spec fn wf(&self) -> bool;

    spec fn pixel(&self, x: int, y: int) -> Option<Seq<usize>>;

    fn classify(&self, x: u32, y: u32) -> (r: Option<Vec<usize>>)
        requires
            self.wf(),
        ensures
            r is Some <==> self.pixel(x as int, y as int) is Some,
            r is Some ==> r.unwrap()@ == self.pixel(x as int, y as int).unwrap(),
    ;
}

/// A per-pixel classification function yielding a single palette index.
pub trait Classifier {
    spec fn wf(&self) -> bool;

    spec fn pixel(&self, x: int, y: int) -> Option<usize>;

    fn classify(&self, x: u32, y: u32) -> (r: Option<usize>)
        requires
            self.wf(),
        ensures
            r == self.pixel(x as int, y as int),
    ;
}

/// A fold step combining an accumulated color with the next palette color.
pub trait Blender {
    spec fn spec_blend(&self, acc: Color, next: Color) -> Color;

    fn blend(&self, acc: Color, next: Color) -> (r: Color)
        ensures
            r == self.spec_blend(acc, next),
    ;
}

/// The transparent-white sentinel that seeds the blend fold of each pixel.
pub open spec fn seed_color() -> Color {
    Color { r: 255, g: 255, b: 255, a: 0 }
}

/// Left fold of the palette colors named by `idxs` through the blender,
/// seeded with transparent white.
pub open spec fn blend_fold<B: Blender>(b: &B, palette: Seq<Color>, idxs: Seq<usize>) -> Color
    decreases idxs.len(),
{
    if idxs.len() == 0 {
        seed_color()
    } else {
        b.spec_blend(blend_fold(b, palette, idxs.drop_last()), palette[idxs.last() as int])
    }
}

/// `n` is the exact run length of row `y`: the first probe that answers
/// `None`, with every earlier probe answering `Some`.
pub open spec fn is_run_len<C: MultiClassifier>(c: &C, y: int, n: int) -> bool {
    &&& 0 <= n
    &&& c.pixel(n, y) is None
    &&& forall|m: int| 0 <= m < n ==> c.pixel(m, y) is Some
}

/// The run length of row `y` (meaningful whenever some probe of the row
/// answers `None`).
pub open spec fn run_len<C: MultiClassifier>(c: &C, y: int) -> int {
    choose|n: int| is_run_len(c, y, n)
}

/// `rows` is the exact number of rows the scan visits: the first row whose
/// leading probe answers `None`, with every earlier row non-empty.
pub open spec fn is_row_count<C: MultiClassifier>(c: &C, rows: int) -> bool {
    &&& 0 <= rows
    &&& c.pixel(0, rows) is None
    &&& forall|y: int| 0 <= y < rows ==> c.pixel(0, y) is Some
}

/// The number of rows the scan visits.
pub open spec fn row_count<C: MultiClassifier>(c: &C) -> int {
    choose|rows: int| is_row_count(c, rows)
}

/// Row `y` answers `None` somewhere within the addressable range.
pub open spec fn row_bounded<C: MultiClassifier>(c: &C, y: int) -> bool {
    exists|x: int| 0 <= x <= i32::MAX && c.pixel(x, y) is None
}

/// The classifier honors the scan protocol's termination contract: every row
/// ends, and some row is empty.
pub open spec fn scan_bounded<C: MultiClassifier>(c: &C) -> bool {
    &&& forall|y: int| 0 <= y ==> row_bounded(c, y)
    &&& exists|y: int| 0 <= y <= i32::MAX && c.pixel(0, y) is None
}

/// `(x, y)` is one of the pixels the scan emits.
pub open spec fn in_scan<C: MultiClassifier>(c: &C, x: int, y: int) -> bool {
    &&& 0 <= y < row_count(c)
    &&& 0 <= x < run_len(c, y)
}

/// Every index of the list is a position inside a palette of `pal_len`
/// entries.
pub open spec fn indices_ok(idxs: Seq<usize>, pal_len: int) -> bool {
    forall|i: int| 0 <= i < idxs.len() ==> (idxs[i] as int) < pal_len
}

/// Every emitted pixel names only indices inside the palette.
pub open spec fn scan_indices_ok<C: MultiClassifier>(c: &C, pal_len: int) -> bool {
    forall|x: int, y: int| #[trigger]
        in_scan(c, x, y) ==> c.pixel(x, y) is Some && indices_ok(c.pixel(x, y).unwrap(), pal_len)
}

/// The color the scan emits for pixel `(x, y)`.
pub open spec fn pixel_color<C: MultiClassifier, B: Blender>(
    c: &C,
    b: &B,
    palette: Seq<Color>,
    x: int,
    y: int,
) -> Color {
    blend_fold(b, palette, c.pixel(x, y).unwrap())
}

/// The bytes of the first `n` pixels of row `y`.
pub open spec fn row_bytes<C: MultiClassifier, B: Blender>(
    c: &C,
    b: &B,
    palette: Seq<Color>,
    o: ChannelOrder,
    y: int,
    n: int,
) -> Seq<u8>
    decreases n,
{
    if n <= 0 {
        Seq::empty()
    } else {
        row_bytes(c, b, palette, o, y, n - 1) + spec_color_bytes(
            pixel_color(c, b, palette, n - 1, y),
            o,
        )
    }
}

/// The bytes of the first `rows` complete rows.
pub open spec fn scan_bytes<C: MultiClassifier, B: Blender>(
    c: &C,
    b: &B,
    palette: Seq<Color>,
    o: ChannelOrder,
    rows: int,
) -> Seq<u8>
    decreases rows,
{
    if rows <= 0 {
        Seq::empty()
    } else {
        scan_bytes(c, b, palette, o, rows - 1) + row_bytes(
            c,
            b,
            palette,
            o,
            rows - 1,
            run_len(c, rows - 1),
        )
    }
}

/// The widest run among the first `rows` rows.
pub open spec fn max_run<C: MultiClassifier>(c: &C, rows: int) -> int
    decreases rows,
{
    if rows <= 0 {
        0
    } else {
        vstd::math::max(max_run(c, rows - 1), run_len(c, rows - 1))
    }
}

/// The number of pixels emitted over the first `rows` rows.
pub open spec fn pixel_total<C: MultiClassifier>(c: &C, rows: int) -> int
    decreases rows,
{
    if rows <= 0 {
        0
    } else {
        pixel_total(c, rows - 1) + run_len(c, rows - 1)
    }
}

/// Two run lengths of the same row are the same length.
pub proof fn lemma_run_len_unique<C: MultiClassifier>(c: &C, y: int, n1: int, n2: int)
    requires
        is_run_len(c, y, n1),
        is_run_len(c, y, n2),
    ensures
        n1 == n2,
{
    if n1 < n2 {
        assert(c.pixel(n1, y) is Some);
    }
    if n2 < n1 {
        assert(c.pixel(n2, y) is Some);
    }
}

/// Two row counts of the same scan are the same count.
pub proof fn lemma_row_count_unique<C: MultiClassifier>(c: &C, r1: int, r2: int)
    requires
        is_row_count(c, r1),
        is_row_count(c, r2),
    ensures
        r1 == r2,
{
    if r1 < r2 {
        assert(c.pixel(0, r1) is Some);
    }
    if r2 < r1 {
        assert(c.pixel(0, r2) is Some);
    }
}

/// A row with a `None` probe has a first `None` probe.
pub proof fn lemma_first_none<C: MultiClassifier>(c: &C, y: int, x: int)
    requires
        0 <= x,
        c.pixel(x, y) is None,
    ensures
        exists|n: int| is_run_len(c, y, n),
    decreases x,
{
    if exists|m: int| 0 <= m < x && c.pixel(m, y) is None {
        let m = choose|m: int| 0 <= m < x && c.pixel(m, y) is None;
        lemma_first_none(c, y, m);
    } else {
        assert(forall|m: int| 0 <= m < x ==> c.pixel(m, y) is Some);
        assert(is_run_len(c, y, x));
    }
}

/// A scan with an empty row has a first empty row.
pub proof fn lemma_first_empty_row<C: MultiClassifier>(c: &C, y: int)
    requires
        0 <= y,
        c.pixel(0, y) is None,
    ensures
        exists|rows: int| is_row_count(c, rows),
    decreases y,
{
    if exists|m: int| 0 <= m < y && c.pixel(0, m) is None {
        let m = choose|m: int| 0 <= m < y && c.pixel(0, m) is None;
        lemma_first_empty_row(c, m);
    } else {
        assert(forall|m: int| 0 <= m < y ==> c.pixel(0, m) is Some);
        assert(is_row_count(c, y));
    }
}

/// A probe that answers `Some` after only `Some` answers lies inside the run
/// of its row.
pub proof fn lemma_some_below_run_len<C: MultiClassifier>(c: &C, y: int, x: int)
    requires
        row_bounded(c, y),
        0 <= x,
        c.pixel(x, y) is Some,
        forall|m: int| 0 <= m < x ==> c.pixel(m, y) is Some,
    ensures
        is_run_len(c, y, run_len(c, y)),
        x < run_len(c, y),
{
    let x0 = choose|x0: int| 0 <= x0 <= i32::MAX && c.pixel(x0, y) is None;
    lemma_first_none(c, y, x0);
    let n = run_len(c, y);
    assert(is_run_len(c, y, n));
    if n < x {
        assert(c.pixel(n, y) is Some);
    }
    assert(n != x);
}

/// A row whose leading probe answers `Some` after only non-empty rows lies
/// below the scan's row count.
pub proof fn lemma_row_below_count<C: MultiClassifier>(c: &C, y: int)
    requires
        scan_bounded(c),
        0 <= y,
        c.pixel(0, y) is Some,
        forall|m: int| 0 <= m < y ==> c.pixel(0, m) is Some,
    ensures
        is_row_count(c, row_count(c)),
        y < row_count(c),
{
    let y0 = choose|y0: int| 0 <= y0 <= i32::MAX && c.pixel(0, y0) is None;
    lemma_first_empty_row(c, y0);
    let rows = row_count(c);
    assert(is_row_count(c, rows));
    if rows < y {
        assert(c.pixel(0, rows) is Some);
    }
    assert(rows != y);
}

/// The bytes of `n` pixels are `4 * n` bytes.
pub proof fn lemma_row_bytes_len<C: MultiClassifier, B: Blender>(
    c: &C,
    b: &B,
    palette: Seq<Color>,
    o: ChannelOrder,
    y: int,
    n: int,
)
    requires
        0 <= n,
    ensures
        row_bytes(c, b, palette, o, y, n).len() == 4 * n,
    decreases n,
{
    if n > 0 {
        lemma_row_bytes_len(c, b, palette, o, y, n - 1);
    }
}

/// Law: the buffer holds exactly four bytes for every emitted pixel.
pub proof fn lemma_buffer_length<C: MultiClassifier, B: Blender>(
    c: &C,
    b: &B,
    palette: Seq<Color>,
    o: ChannelOrder,
    rows: int,
)
    requires
        0 <= rows,
        forall|y: int| 0 <= y < rows ==> run_len(c, y) >= 0,
    ensures
        scan_bytes(c, b, palette, o, rows).len() == 4 * pixel_total(c, rows),
        pixel_total(c, rows) >= 0,
    decreases rows,
{
    if rows > 0 {
        lemma_buffer_length(c, b, palette, o, rows - 1);
        lemma_row_bytes_len(c, b, palette, o, rows - 1, run_len(c, rows - 1));
    }
}

/// The widest run is never negative.
pub proof fn lemma_max_run_nonneg<C: MultiClassifier>(c: &C, rows: int)
    ensures
        max_run(c, rows) >= 0,
    decreases rows,
{
    if rows > 0 {
        lemma_max_run_nonneg(c, rows - 1);
    }
}

/// Within one row's bytes, pixel `x` occupies bytes `4 * x` up to
/// `4 * x + 4`.
pub proof fn lemma_row_bytes_at<C: MultiClassifier, B: Blender>(
    c: &C,
    b: &B,
    palette: Seq<Color>,
    o: ChannelOrder,
    y: int,
    n: int,
    x: int,
)
    requires
        0 <= x < n,
    ensures
        row_bytes(c, b, palette, o, y, n).subrange(4 * x, 4 * x + 4) == spec_color_bytes(
            pixel_color(c, b, palette, x, y),
            o,
        ),
    decreases n,
{
    lemma_row_bytes_len(c, b, palette, o, y, n - 1);
    if x == n - 1 {
        assert(row_bytes(c, b, palette, o, y, n).subrange(4 * x, 4 * x + 4) =~= spec_color_bytes(
            pixel_color(c, b, palette, x, y),
            o,
        ));
    } else {
        lemma_row_bytes_at(c, b, palette, o, y, n - 1, x);
        assert(row_bytes(c, b, palette, o, y, n).subrange(4 * x, 4 * x + 4) =~= row_bytes(
            c,
            b,
            palette,
            o,
            y,
            n - 1,
        ).subrange(4 * x, 4 * x + 4));
    }
}

/// Law: buffer layout. Within the whole buffer, pixel `(x, y)` occupies the
/// four bytes starting at `4 * (pixel_total(y) + x)`: four bytes for every
/// pixel emitted before it on earlier rows and to its left in its own row.
pub proof fn lemma_scan_bytes_at<C: MultiClassifier, B: Blender>(
    c: &C,
    b: &B,
    palette: Seq<Color>,
    o: ChannelOrder,
    rows: int,
    x: int,
    y: int,
)
    requires
        0 <= y < rows,
        0 <= x < run_len(c, y),
        forall|y2: int| 0 <= y2 < rows ==> run_len(c, y2) >= 0,
    ensures
        scan_bytes(c, b, palette, o, rows).subrange(
            4 * (pixel_total(c, y) + x),
            4 * (pixel_total(c, y) + x) + 4,
        ) == spec_color_bytes(pixel_color(c, b, palette, x, y), o),
    decreases rows,
{
    lemma_buffer_length(c, b, palette, o, rows - 1);
    lemma_row_bytes_len(c, b, palette, o, rows - 1, run_len(c, rows - 1));
    lemma_pixel_total_monotonic(c, 0, y);
    let off = 4 * (pixel_total(c, y) + x);
    if y == rows - 1 {
        lemma_row_bytes_at(c, b, palette, o, y, run_len(c, y), x);
        assert(scan_bytes(c, b, palette, o, rows - 1).len() == 4 * pixel_total(c, y));
        assert(scan_bytes(c, b, palette, o, rows).subrange(off, off + 4) =~= row_bytes(
            c,
            b,
            palette,
            o,
            y,
            run_len(c, y),
        ).subrange(4 * x, 4 * x + 4));
    } else {
        lemma_scan_bytes_at(c, b, palette, o, rows - 1, x, y);
        lemma_pixel_total_monotonic(c, y + 1, rows - 1);
        assert(pixel_total(c, y + 1) == pixel_total(c, y) + run_len(c, y));
        assert(off + 4 <= 4 * pixel_total(c, rows - 1));
        let prefix = scan_bytes(c, b, palette, o, rows - 1);
        let row = row_bytes(c, b, palette, o, rows - 1, run_len(c, rows - 1));
        assert(scan_bytes(c, b, palette, o, rows) == prefix + row);
        assert((prefix + row).subrange(off, off + 4) =~= prefix.subrange(off, off + 4));
    }
}

/// Emitting more rows never shrinks the pixel count.
pub proof fn lemma_pixel_total_monotonic<C: MultiClassifier>(c: &C, r1: int, r2: int)
    requires
        0 <= r1 <= r2,
        forall|y2: int| 0 <= y2 < r2 ==> run_len(c, y2) >= 0,
    ensures
        pixel_total(c, r1) <= pixel_total(c, r2),
    decreases r2 - r1,
{
    if r1 < r2 {
        lemma_pixel_total_monotonic(c, r1, r2 - 1);
    }
}

/// When every row's run has the same width, the widest run is that width.
pub proof fn lemma_max_run_uniform<C: MultiClassifier>(c: &C, width: int, rows: int)
    requires
        1 <= rows,
        0 <= width,
        forall|y: int| 0 <= y < rows ==> run_len(c, y) == width,
    ensures
        max_run(c, rows) == width,
    decreases rows,
{
    if rows == 1 {
        assert(max_run(c, 1) == vstd::math::max(max_run(c, 0), run_len(c, 0)));
    } else {
        lemma_max_run_uniform(c, width, rows - 1);
    }
}

/// Law: a rectangular silhouette fills its bounding box. If every row's run
/// equals `width`, the scan emits `width * rows` pixels, so the buffer holds
/// `4 * width * rows` bytes.
pub proof fn lemma_rectangular_buffer<C: MultiClassifier>(c: &C, width: int, rows: int)
    requires
        0 <= rows,
        0 <= width,
        forall|y: int| 0 <= y < rows ==> run_len(c, y) == width,
    ensures
        pixel_total(c, rows) == width * rows,
    decreases rows,
{
    if rows > 0 {
        lemma_rectangular_buffer(c, width, rows - 1);
        assert(width * rows == width * (rows - 1) + width) by (nonlinear_arith);
    } else {
        assert(width * rows == 0) by (nonlinear_arith)
            requires
                rows == 0,
        ;
    }
}

/// A classifier that answers `Some` exactly inside a `tx`-by-`ty` box obeys
/// the scan protocol, and the scan discovers exactly that box: `ty` rows,
/// each of run `tx`, and `tx * ty` pixels in all.
pub proof fn lemma_box_scan<C: MultiClassifier>(c: &C, tx: int, ty: int)
    requires
        1 <= tx <= i32::MAX,
        0 <= ty <= i32::MAX,
        forall|x: int, y: int|
            0 <= x && 0 <= y ==> (#[trigger] c.pixel(x, y) is Some <==> x < tx && y < ty),
    ensures
        scan_bounded(c),
        is_row_count(c, ty),
        row_count(c) == ty,
        forall|y: int| 0 <= y < ty ==> is_run_len(c, y, run_len(c, y)) && run_len(c, y) == tx,
        max_run(c, ty) == (if ty == 0 {
            0
        } else {
            tx
        }),
        pixel_total(c, ty) == tx * ty,
{
    assert forall|y: int| 0 <= y implies row_bounded(c, y) by {
        assert(c.pixel(tx, y) is None);
    }
    assert(c.pixel(0, ty) is None);
    assert(scan_bounded(c));

    assert(is_row_count(c, ty));
    assert(is_row_count(c, row_count(c)));
    lemma_row_count_unique(c, row_count(c), ty);

    assert forall|y: int| 0 <= y < ty implies is_run_len(c, y, run_len(c, y)) && run_len(c, y)
        == tx by {
        assert(c.pixel(tx, y) is None);
        assert(is_run_len(c, y, tx));
        assert(is_run_len(c, y, run_len(c, y)));
        lemma_run_len_unique(c, y, run_len(c, y), tx);
    }

    if ty > 0 {
        lemma_max_run_uniform(c, tx, ty);
    }
    lemma_rectangular_buffer(c, tx, ty);
}

/// Drive one raster pass over `classifier`.
///
/// Rows are probed from `y = 0`; within each row pixels are probed from
/// `x = 0` until the first `None`, which ends the row, and a row that is
/// empty at `x = 0` ends the scan. Each emitted pixel's palette indices are
/// folded through `blender` (seeded with transparent white) and written as
/// four bytes in `order`. The discovered size is the maximum extent reached.
///
/// Returns the buffer and size, or `PaletteIndexOutOfRange` exactly when
/// some emitted pixel names an index outside the palette.
pub fn run_scan<C: MultiClassifier, B: Blender>(
    palette: &Vec<Color>,
    classifier: &C,
    blender: &B,
    order: ChannelOrder,
) -> (r: Result<(Point, Vec<u8>), Error>)
    requires
        classifier.wf(),
        scan_bounded(classifier),
    ensures
        r is Ok ==> ({
            let out = r.unwrap();
            let rows = row_count(classifier);
            &&& is_row_count(classifier, rows)
            &&& forall|y2: int|
                0 <= y2 < rows ==> is_run_len(classifier, y2, run_len(classifier, y2)) && 1
                    <= run_len(classifier, y2) <= i32::MAX
            &&& out.1@ == scan_bytes(classifier, blender, palette@, order, rows)
            &&& out.1@.len() == 4 * pixel_total(classifier, rows)
            &&& out.0.x == max_run(classifier, rows)
            &&& out.0.y == rows
        }),
        r is Err ==> r.unwrap_err() == Error::PaletteIndexOutOfRange,
        r is Err <==> !scan_indices_ok(classifier, palette@.len() as int),
{
    let ghost plen = palette@.len() as int;
    let mut data: Vec<u8> = Vec::new();
    let mut size_x: u32 = 0;
    let mut size_y: u32 = 0;
    let mut y: u32 = 0;

    let ghost y_end = choose|y0: int| 0 <= y0 <= i32::MAX && classifier.pixel(0, y0) is None;
    proof {
        assert(0 <= y_end <= i32::MAX && classifier.pixel(0, y_end) is None);
    }

    loop
        invariant
            classifier.wf(),
            scan_bounded(classifier),
            plen == palette@.len() as int,
            0 <= y as int <= y_end,
            y_end <= i32::MAX,
            classifier.pixel(0, y_end) is None,
            forall|y2: int| 0 <= y2 < y as int ==> classifier.pixel(0, y2) is Some,
            forall|y2: int|
                0 <= y2 < y as int ==> is_run_len(classifier, y2, run_len(classifier, y2)) && 1
                    <= run_len(classifier, y2) <= i32::MAX,
            forall|x2: int, y2: int|
                0 <= y2 < y as int && 0 <= x2 < run_len(classifier, y2)
                    ==> classifier.pixel(x2, y2) is Some && indices_ok(
                    classifier.pixel(x2, y2).unwrap(),
                    plen,
                ),
            data@ == scan_bytes(classifier, blender, palette@, order, y as int),
            size_x as int == max_run(classifier, y as int),
            size_x <= 0x7fff_ffff,
            size_y as int == y as int,
        ensures
            is_row_count(classifier, y as int),
            row_count(classifier) == y as int,
        decreases y_end - y as int,
    {
        let mut x: u32 = 0;
        proof {
            assert(row_bounded(classifier, y as int));
        }
        let ghost x_end = choose|x0: int|
            0 <= x0 <= i32::MAX && classifier.pixel(x0, y as int) is None;
        proof {
            assert(0 <= x_end <= i32::MAX && classifier.pixel(x_end, y as int) is None);
            lemma_max_run_nonneg(classifier, y as int);
        }

        loop
            invariant
                classifier.wf(),
                scan_bounded(classifier),
                plen == palette@.len() as int,
                0 <= y as int <= y_end,
                y_end <= i32::MAX,
                classifier.pixel(0, y_end) is None,
                forall|y2: int| 0 <= y2 < y as int ==> classifier.pixel(0, y2) is Some,
                forall|y2: int|
                    0 <= y2 < y as int ==> is_run_len(classifier, y2, run_len(classifier, y2))
                        && 1 <= run_len(classifier, y2) <= i32::MAX,
                forall|x2: int, y2: int|
                    0 <= y2 < y as int && 0 <= x2 < run_len(classifier, y2)
                        ==> classifier.pixel(x2, y2) is Some && indices_ok(
                        classifier.pixel(x2, y2).unwrap(),
                        plen,
                    ),
                0 <= x as int <= x_end,
                x_end <= i32::MAX,
                classifier.pixel(x_end, y as int) is None,
                forall|m: int|
                    0 <= m < x as int ==> classifier.pixel(m, y as int) is Some && indices_ok(
                        classifier.pixel(m, y as int).unwrap(),
                        plen,
                    ),
                data@ == scan_bytes(classifier, blender, palette@, order, y as int) + row_bytes(
                    classifier,
                    blender,
                    palette@,
                    order,
                    y as int,
                    x as int,
                ),
                size_x as int == vstd::math::max(max_run(classifier, y as int), x as int),
                size_x <= 0x7fff_ffff,
                size_y as int == (if x as int == 0 {
                    y as int
                } else {
                    y as int + 1
                }),
            ensures
                classifier.pixel(x as int, y as int) is None,
            decreases x_end - x as int,
        {
            match classifier.classify(x, y) {
                None => {
                    break ;
                },
                Some(rv) => {
                    proof {
                        assert(classifier.pixel(x as int, y as int) is Some);
                        assert(x as int != x_end);
                    }
                    let mut blended = Color { r: 255, g: 255, b: 255, a: 0 };
                    let mut j: usize = 0;
                    proof {
                        assert(rv@.subrange(0, 0) =~= Seq::<usize>::empty());
                    }
                    while j < rv.len()
                        invariant
                            classifier.wf(),
                            scan_bounded(classifier),
                            plen == palette@.len() as int,
                            0 <= y as int,
                            0 <= x as int,
                            forall|y2: int| 0 <= y2 < y as int ==> classifier.pixel(0, y2) is Some,
                            forall|m: int|
                                0 <= m < x as int ==> classifier.pixel(m, y as int) is Some,
                            classifier.pixel(x as int, y as int) is Some,
                            rv@ == classifier.pixel(x as int, y as int).unwrap(),
                            j <= rv.len(),
                            blended == blend_fold(blender, palette@, rv@.subrange(0, j as int)),
                            forall|k: int| 0 <= k < j as int ==> (rv@[k] as int) < plen,
                        decreases rv.len() - j,
                    {
                        let idx = rv[j];
                        if idx >= palette.len() {
                            proof {
                                assert(!indices_ok(rv@, plen));
                                assert(classifier.pixel(0, y as int) is Some);
                                assert(row_bounded(classifier, y as int));
                                lemma_some_below_run_len(classifier, y as int, x as int);
                                lemma_row_below_count(classifier, y as int);
                                assert(in_scan(classifier, x as int, y as int));
                                assert(!scan_indices_ok(classifier, plen));
                            }
                            return Err(Error::PaletteIndexOutOfRange);
                        }
                        let next = palette[idx];
                        blended = blender.blend(blended, next);
                        proof {
                            assert(rv@.subrange(0, j as int + 1).drop_last() =~= rv@.subrange(
                                0,
                                j as int,
                            ));
                            assert(rv@.subrange(0, j as int + 1).last() == rv@[j as int]);
                        }
                        j += 1;
                    }
                    proof {
                        assert(rv@.subrange(0, rv@.len() as int) =~= rv@);
                        assert(blended == pixel_color(
                            classifier,
                            blender,
                            palette@,
                            x as int,
                            y as int,
                        ));
                        assert(indices_ok(rv@, plen));
                    }
                    match order {
                        ChannelOrder::Rgba => {
                            data.push(blended.r);
                            data.push(blended.g);
                            data.push(blended.b);
                            data.push(blended.a);
                        },
                        ChannelOrder::Abgr => {
                            data.push(blended.a);
                            data.push(blended.b);
                            data.push(blended.g);
                            data.push(blended.r);
                        },
                    }
                    proof {
                        assert(data@ =~= scan_bytes(classifier, blender, palette@, order, y as int)
                            + row_bytes(
                            classifier,
                            blender,
                            palette@,
                            order,
                            y as int,
                            x as int + 1,
                        ));
                    }
                    if x >= size_x {
                        size_x = x + 1;
                    }
                    if y >= size_y {
                        size_y = y + 1;
                    }
                    x += 1;
                },
            }
        }

        proof {
            assert(is_run_len(classifier, y as int, x as int));
            assert(is_run_len(classifier, y as int, run_len(classifier, y as int)));
            lemma_run_len_unique(
                classifier,
                y as int,
                run_len(classifier, y as int),
                x as int,
            );
        }

        if x == 0 {
            proof {
                assert(is_row_count(classifier, y as int));
                assert(is_row_count(classifier, row_count(classifier)));
                lemma_row_count_unique(classifier, row_count(classifier), y as int);
                assert(data@ =~= scan_bytes(classifier, blender, palette@, order, y as int));
            }
            break ;
        }

        proof {
            assert(classifier.pixel(0, y as int) is Some);
            assert(y as int != y_end);
            assert(data@ =~= scan_bytes(classifier, blender, palette@, order, y as int + 1));
            assert(max_run(classifier, y as int + 1) == vstd::math::max(
                max_run(classifier, y as int),
                run_len(classifier, y as int),
            ));
        }
        y += 1;
    }

    proof {
        let rows = row_count(classifier);
        assert(rows == y as int);
        assert(forall|y2: int| 0 <= y2 < rows ==> run_len(classifier, y2) >= 0);
        lemma_buffer_length(classifier, blender, palette@, order, rows);
        assert forall|x2: int, y2: int| #[trigger]
            in_scan(classifier, x2, y2) implies classifier.pixel(x2, y2) is Some && indices_ok(
            classifier.pixel(x2, y2).unwrap(),
            plen,
        ) by {
            assert(0 <= y2 < rows && 0 <= x2 < run_len(classifier, y2));
        }
        assert(scan_indices_ok(classifier, plen));
    }

    Ok((Point { x: size_x as i32, y: size_y as i32 }, data))
}

} // verus!
