//! Concrete cuboid classifiers and complete raster passes built from them.
//!
//! A scene classifier captures a built [`Cuboid`] and answers, for every
//! pixel address, a palette index (or a list of indices for the blending
//! pass): `None` outside the silhouette's bounding box, and inside it an
//! index chosen by the visible-surface tests in their priority order.

use vstd::prelude::*;

use crate::color::{ChannelOrder, Color};
use crate::error::Error;
use crate::image_function::{lifted, ImageFunction, ImageResult, LastWins};
use crate::iso::{
    edges_visible, faces_visible, spec_build, spec_edges_visible, spec_faces_visible,
    spec_texture_x, spec_texture_y, spec_valid, wf_cuboid, Cuboid, CuboidSpec, Point,
};
use crate::scan::{
    in_scan, indices_ok, lemma_box_scan, run_len, scan_bytes, scan_indices_ok, Classifier,
    MultiClassifier,
};

verus! {

/// A cuboid a scene can scan: well-formed, with a bounding box whose height
/// is not negative (a negative height would wrap when used as a pixel
/// bound).
pub open spec fn scene_wf(c: Cuboid) -> bool {
    &&& wf_cuboid(c)
    &&& c.texture_size.y >= 0
}

/// Index `1` inside any visible face, index `0` elsewhere inside the
/// bounding box.
pub struct FacesClassifier {
    pub cuboid: Cuboid,
}

impl Classifier for FacesClassifier {
    open spec fn wf(&self) -> bool {
        scene_wf(self.cuboid)
    }

    open spec fn pixel(&self, x: int, y: int) -> Option<usize> {
        let c = self.cuboid;
        if 0 <= x < c.texture_size.x as int && 0 <= y < c.texture_size.y as int {
            if spec_faces_visible(c, (Point { x: x as i32, y: y as i32 })) {
                Some(1usize)
            } else {
                Some(0usize)
            }
        } else {
            None
        }
    }

    fn classify(&self, x: u32, y: u32) -> (r: Option<usize>) {
        let c = &self.cuboid;
        if x >= c.texture_size.x as u32 {
            None
        } else if y >= c.texture_size.y as u32 {
            None
        } else {
            let p = Point::new(x as i32, y as i32);
            if faces_visible(c, &p) {
                Some(1)
            } else {
                Some(0)
            }
        }
    }
}

/// Index `1` inside any visible face, index `2` on any visible edge not
/// inside a face, index `0` elsewhere inside the bounding box.
pub struct FacesEdgesClassifier {
    pub cuboid: Cuboid,
}

impl Classifier for FacesEdgesClassifier {
    open spec fn wf(&self) -> bool {
        scene_wf(self.cuboid)
    }

    open spec fn pixel(&self, x: int, y: int) -> Option<usize> {
        let c = self.cuboid;
        if 0 <= x < c.texture_size.x as int && 0 <= y < c.texture_size.y as int {
            if spec_faces_visible(c, (Point { x: x as i32, y: y as i32 })) {
                Some(1usize)
            } else if spec_edges_visible(c, (Point { x: x as i32, y: y as i32 })) {
                Some(2usize)
            } else {
                Some(0usize)
            }
        } else {
            None
        }
    }

    fn classify(&self, x: u32, y: u32) -> (r: Option<usize>) {
        let c = &self.cuboid;
        if x >= c.texture_size.x as u32 {
            None
        } else if y >= c.texture_size.y as u32 {
            None
        } else {
            let p = Point::new(x as i32, y as i32);
            if faces_visible(c, &p) {
                Some(1)
            } else if edges_visible(c, &p) {
                Some(2)
            } else {
                Some(0)
            }
        }
    }
}

/// The blending pass's scene: every pixel inside the bounding box carries a
/// base layer `0`, plus `1` where a visible face lies and `2` where a
/// visible edge lies, in that order.
pub struct LayeredClassifier {
    pub cuboid: Cuboid,
}

impl MultiClassifier for LayeredClassifier {
    open spec fn wf(&self) -> bool {
        scene_wf(self.cuboid)
    }

    open spec fn pixel(&self, x: int, y: int) -> Option<Seq<usize>> {
        let c = self.cuboid;
        if 0 <= x < c.texture_size.x as int && 0 <= y < c.texture_size.y as int {
            let p = (Point { x: x as i32, y: y as i32 });
            let base = seq![0usize];
            let with_face = if spec_faces_visible(c, p) {
                base.push(1usize)
            } else {
                base
            };
            let with_edge = if spec_edges_visible(c, p) {
                with_face.push(2usize)
            } else {
                with_face
            };
            Some(with_edge)
        } else {
            None
        }
    }

    fn classify(&self, x: u32, y: u32) -> (r: Option<Vec<usize>>) {
        let c = &self.cuboid;
        if x >= c.texture_size.x as u32 {
            None
        } else if y >= c.texture_size.y as u32 {
            None
        } else {
            let p = Point::new(x as i32, y as i32);
            let mut v: Vec<usize> = vec![0];
            proof {
                assert(v@ =~= seq![0usize]);
            }
            if faces_visible(c, &p) {
                v.push(1);
            }
            if edges_visible(c, &p) {
                v.push(2);
            }
            Some(v)
        }
    }
}

/// Build the cuboid of `s` and rasterize its visible faces: palette index
/// `1` inside a face, `0` elsewhere in the bounding box.
///
/// Fails with `InvalidSpec` when the specification is invalid or its
/// silhouette has a negative bounding height; fails with
/// `PaletteIndexOutOfRange` exactly when an emitted index falls outside the
/// palette, which a palette of two or more entries rules out. On success the
/// scan discovers the full bounding box (`texture_size`, or `(0, 0)` for a
/// box of no rows) and emits four bytes per box pixel.
pub fn render_faces(s: CuboidSpec, palette: Vec<Color>, order: ChannelOrder) -> (r: Result<
    ImageResult,
    Error,
>)
    requires
        spec_valid(s) ==> spec_texture_x(s) <= i32::MAX && (s.height - 1) + s.length as int
            / s.ratio as int + s.width as int / s.ratio as int <= i32::MAX,
    ensures
        !spec_valid(s) ==> r == Result::<ImageResult, Error>::Err(Error::InvalidSpec),
        spec_valid(s) && spec_texture_y(s) < 0 ==> r == Result::<ImageResult, Error>::Err(
            Error::InvalidSpec,
        ),
        spec_valid(s) && spec_texture_y(s) >= 0 ==> ({
            let scene = (FacesClassifier { cuboid: spec_build(s) });
            let tx = spec_texture_x(s);
            let ty = spec_texture_y(s);
            &&& (r is Ok <==> scan_indices_ok(&lifted(&scene), palette@.len() as int))
            &&& (palette@.len() >= 2 ==> r is Ok)
            &&& (r is Err ==> r == Result::<ImageResult, Error>::Err(
                Error::PaletteIndexOutOfRange,
            ))
            &&& (r is Ok ==> ({
                let out = r.unwrap();
                &&& out.size.y == ty
                &&& out.size.x == (if ty == 0 {
                    0int
                } else {
                    tx
                })
                &&& out.data@ == scan_bytes(&lifted(&scene), &LastWins, palette@, order, ty)
                &&& out.data@.len() == 4 * (tx * ty)
            }))
        }),
{
    let c = match Cuboid::new(s) {
        Ok(c) => c,
        Err(e) => {
            return Err(e);
        },
    };
    if c.texture_size.y < 0 {
        return Err(Error::InvalidSpec);
    }
    let img = ImageFunction::new(palette, FacesClassifier { cuboid: c }, order);
    let ghost tx = spec_texture_x(s);
    let ghost ty = spec_texture_y(s);
    let ghost view = lifted(&img.function);
    proof {
        assert(c.texture_size.x as int == tx);
        assert(c.texture_size.y as int == ty);
        assert forall|x: int, y: int| 0 <= x && 0 <= y implies (#[trigger] view.pixel(x, y)
            is Some <==> x < tx && y < ty) by {}
        lemma_box_scan(&view, tx, ty);
    }
    let res = img.execute();
    proof {
        let plen = palette@.len() as int;
        if plen >= 2 {
            assert forall|x: int, y: int| #[trigger]
                in_scan(&view, x, y) implies view.pixel(x, y) is Some && indices_ok(
                view.pixel(x, y).unwrap(),
                plen,
            ) by {
                assert(0 <= y < ty);
                assert(run_len(&view, y) == tx);
                assert(view.pixel(x, y) is Some);
                let idxs = view.pixel(x, y).unwrap();
                assert(idxs.len() == 1);
                assert((idxs[0] as int) < 2);
            }
            assert(scan_indices_ok(&view, plen));
        }
        assert(img.function == (FacesClassifier { cuboid: spec_build(s) }));
        assert(view == lifted(&(FacesClassifier { cuboid: spec_build(s) })));
    }
    res
}

/// Build the cuboid of `s` and rasterize its visible faces and edges:
/// palette index `1` inside a face, `2` on an edge outside every face, `0`
/// elsewhere in the bounding box.
///
/// Fails exactly as [`render_faces`] does; a palette of three or more
/// entries rules out `PaletteIndexOutOfRange`.
pub fn render_faces_edges(s: CuboidSpec, palette: Vec<Color>, order: ChannelOrder) -> (r: Result<
    ImageResult,
    Error,
>)
    requires
        spec_valid(s) ==> spec_texture_x(s) <= i32::MAX && (s.height - 1) + s.length as int
            / s.ratio as int + s.width as int / s.ratio as int <= i32::MAX,
    ensures
        !spec_valid(s) ==> r == Result::<ImageResult, Error>::Err(Error::InvalidSpec),
        spec_valid(s) && spec_texture_y(s) < 0 ==> r == Result::<ImageResult, Error>::Err(
            Error::InvalidSpec,
        ),
        spec_valid(s) && spec_texture_y(s) >= 0 ==> ({
            let scene = (FacesEdgesClassifier { cuboid: spec_build(s) });
            let tx = spec_texture_x(s);
            let ty = spec_texture_y(s);
            &&& (r is Ok <==> scan_indices_ok(&lifted(&scene), palette@.len() as int))
            &&& (palette@.len() >= 3 ==> r is Ok)
            &&& (r is Err ==> r == Result::<ImageResult, Error>::Err(
                Error::PaletteIndexOutOfRange,
            ))
            &&& (r is Ok ==> ({
                let out = r.unwrap();
                &&& out.size.y == ty
                &&& out.size.x == (if ty == 0 {
                    0int
                } else {
                    tx
                })
                &&& out.data@ == scan_bytes(&lifted(&scene), &LastWins, palette@, order, ty)
                &&& out.data@.len() == 4 * (tx * ty)
            }))
        }),
{
    let c = match Cuboid::new(s) {
        Ok(c) => c,
        Err(e) => {
            return Err(e);
        },
    };
    if c.texture_size.y < 0 {
        return Err(Error::InvalidSpec);
    }
    let img = ImageFunction::new(palette, FacesEdgesClassifier { cuboid: c }, order);
    let ghost tx = spec_texture_x(s);
    let ghost ty = spec_texture_y(s);
    let ghost view = lifted(&img.function);
    proof {
        assert(c.texture_size.x as int == tx);
        assert(c.texture_size.y as int == ty);
        assert forall|x: int, y: int| 0 <= x && 0 <= y implies (#[trigger] view.pixel(x, y)
            is Some <==> x < tx && y < ty) by {}
        lemma_box_scan(&view, tx, ty);
    }
    let res = img.execute();
    proof {
        let plen = palette@.len() as int;
        if plen >= 3 {
            assert forall|x: int, y: int| #[trigger]
                in_scan(&view, x, y) implies view.pixel(x, y) is Some && indices_ok(
                view.pixel(x, y).unwrap(),
                plen,
            ) by {
                assert(0 <= y < ty);
                assert(run_len(&view, y) == tx);
                assert(view.pixel(x, y) is Some);
                let idxs = view.pixel(x, y).unwrap();
                assert(idxs.len() == 1);
                assert((idxs[0] as int) < 3);
            }
            assert(scan_indices_ok(&view, plen));
        }
        assert(img.function == (FacesEdgesClassifier { cuboid: spec_build(s) }));
        assert(view == lifted(&(FacesEdgesClassifier { cuboid: spec_build(s) })));
    }
    res
}

/// Build the cuboid of `s` and rasterize it through the blending pass: each
/// box pixel's layer list (base `0`, then `1` inside a face, then `2` on an
/// edge) is folded with the last-wins blend.
///
/// Fails exactly as [`render_faces`] does; a palette of three or more
/// entries rules out `PaletteIndexOutOfRange`.
pub fn render_layered(s: CuboidSpec, palette: Vec<Color>, order: ChannelOrder) -> (r: Result<
    ImageResult,
    Error,
>)
    requires
        spec_valid(s) ==> spec_texture_x(s) <= i32::MAX && (s.height - 1) + s.length as int
            / s.ratio as int + s.width as int / s.ratio as int <= i32::MAX,
    ensures
        !spec_valid(s) ==> r == Result::<ImageResult, Error>::Err(Error::InvalidSpec),
        spec_valid(s) && spec_texture_y(s) < 0 ==> r == Result::<ImageResult, Error>::Err(
            Error::InvalidSpec,
        ),
        spec_valid(s) && spec_texture_y(s) >= 0 ==> ({
            let scene = (LayeredClassifier { cuboid: spec_build(s) });
            let tx = spec_texture_x(s);
            let ty = spec_texture_y(s);
            &&& (r is Ok <==> scan_indices_ok(&scene, palette@.len() as int))
            &&& (palette@.len() >= 3 ==> r is Ok)
            &&& (r is Err ==> r == Result::<ImageResult, Error>::Err(
                Error::PaletteIndexOutOfRange,
            ))
            &&& (r is Ok ==> ({
                let out = r.unwrap();
                &&& out.size.y == ty
                &&& out.size.x == (if ty == 0 {
                    0int
                } else {
                    tx
                })
                &&& out.data@ == scan_bytes(&scene, &LastWins, palette@, order, ty)
                &&& out.data@.len() == 4 * (tx * ty)
            }))
        }),
{
    let c = match Cuboid::new(s) {
        Ok(c) => c,
        Err(e) => {
            return Err(e);
        },
    };
    if c.texture_size.y < 0 {
        return Err(Error::InvalidSpec);
    }
    let img = crate::blend::ImageFunction::new(
        palette,
        LayeredClassifier { cuboid: c },
        LastWins,
        order,
    );
    let ghost tx = spec_texture_x(s);
    let ghost ty = spec_texture_y(s);
    proof {
        assert(c.texture_size.x as int == tx);
        assert(c.texture_size.y as int == ty);
        assert forall|x: int, y: int| 0 <= x && 0 <= y implies (#[trigger] img.function.pixel(
            x,
            y,
        ) is Some <==> x < tx && y < ty) by {}
        lemma_box_scan(&img.function, tx, ty);
    }
    let res = img.execute();
    proof {
        let plen = palette@.len() as int;
        if plen >= 3 {
            assert forall|x: int, y: int| #[trigger]
                in_scan(&img.function, x, y) implies img.function.pixel(x, y) is Some
                && indices_ok(img.function.pixel(x, y).unwrap(), plen) by {
                assert(0 <= y < ty);
                assert(run_len(&img.function, y) == tx);
                assert(img.function.pixel(x, y) is Some);
                let idxs = img.function.pixel(x, y).unwrap();
                let p = (Point { x: x as i32, y: y as i32 });
                let base = seq![0usize];
                let with_face = if spec_faces_visible(c, p) {
                    base.push(1usize)
                } else {
                    base
                };
                let with_edge = if spec_edges_visible(c, p) {
                    with_face.push(2usize)
                } else {
                    with_face
                };
                assert(idxs == with_edge);
                assert(base[0] == 0usize);
                assert(forall|k: int| 0 <= k < with_face.len() ==> (with_face[k] as int) < 3);
                assert(forall|k: int| 0 <= k < with_edge.len() ==> (with_edge[k] as int) < 3);
            }
            assert(scan_indices_ok(&img.function, plen));
        }
        assert(img.function == (LayeredClassifier { cuboid: spec_build(s) }));
    }
    res
}

/// The tall demo cuboid: a 100 by 100 by 250 block at the pixel-art ratio 2.
pub open spec fn tubby_spec() -> CuboidSpec {
    CuboidSpec { length: 100, width: 100, height: 250, ratio: 2 }
}

/// The short demo cuboid: a 10 by 10 by 50 block at the pixel-art ratio 2.
pub open spec fn shorty_spec() -> CuboidSpec {
    CuboidSpec { length: 10, width: 10, height: 50, ratio: 2 }
}

/// Classify one pixel of the tall demo cuboid: `1` inside a visible face,
/// `2` on a visible edge, `0` elsewhere in its bounding box.
pub fn tubby(x: u32, y: u32) -> (r: Option<usize>)
    ensures
        r == (FacesEdgesClassifier { cuboid: spec_build(tubby_spec()) }).pixel(
            x as int,
            y as int,
        ),
{
    let c = match Cuboid::new(CuboidSpec { length: 100, width: 100, height: 250, ratio: 2 }) {
        Ok(c) => c,
        Err(_) => {
            proof {
                assert(false);
            }
            return None;
        },
    };
    let f = FacesEdgesClassifier { cuboid: c };
    f.classify(x, y)
}

/// Classify one pixel of the short demo cuboid: `1` inside a visible face,
/// `0` elsewhere in its bounding box.
pub fn shorty(x: u32, y: u32) -> (r: Option<usize>)
    ensures
        r == (FacesClassifier { cuboid: spec_build(shorty_spec()) }).pixel(x as int, y as int),
{
    let c = match Cuboid::new(CuboidSpec { length: 10, width: 10, height: 50, ratio: 2 }) {
        Ok(c) => c,
        Err(_) => {
            proof {
                assert(false);
            }
            return None;
        },
    };
    let f = FacesClassifier { cuboid: c };
    f.classify(x, y)
}

} // verus!
