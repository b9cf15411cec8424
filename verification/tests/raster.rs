use corten::color::{ChannelOrder, Color};
use corten::error::Error;
use corten::image_function::ImageFunction;
use corten::iso::{Cuboid, CuboidSpec, Point};
use corten::scenes::{render_faces, render_faces_edges, render_layered, FacesClassifier};

fn rgba(r: u8, g: u8, b: u8, a: u8) -> Color {
    Color { r, g, b, a }
}

fn shorty_spec() -> CuboidSpec {
    CuboidSpec { length: 10, width: 10, height: 50, ratio: 2 }
}

fn tubby_spec() -> CuboidSpec {
    CuboidSpec { length: 100, width: 100, height: 250, ratio: 2 }
}

fn shorty_palette() -> Vec<Color> {
    vec![rgba(0, 0, 0, 0), rgba(17, 17, 17, 255)]
}

fn tubby_palette() -> Vec<Color> {
    vec![rgba(255, 255, 255, 0), rgba(64, 192, 64, 255), rgba(255, 0, 0, 255)]
}

fn pixel(data: &[u8], width: i32, x: i32, y: i32) -> [u8; 4] {
    let off = (4 * (y * width + x)) as usize;
    [data[off], data[off + 1], data[off + 2], data[off + 3]]
}

#[test]
fn shorty_raster_fills_bounding_box() {
    let out = render_faces(shorty_spec(), shorty_palette(), ChannelOrder::Abgr).unwrap();
    assert_eq!(out.size, Point { x: 19, y: 58 });
    // Buffer length law for a rectangular silhouette.
    assert_eq!(out.data.len(), 4 * 19 * 58);
}

#[test]
fn shorty_raster_pixel_values() {
    let out = render_faces(shorty_spec(), shorty_palette(), ChannelOrder::Abgr).unwrap();
    // Background at the top-left corner, in a, b, g, r order.
    assert_eq!(pixel(&out.data, 19, 0, 0), [0, 0, 0, 0]);
    // A front-face pixel.
    assert_eq!(pixel(&out.data, 19, 10, 30), [255, 17, 17, 17]);
}

#[test]
fn channel_order_changes_byte_layout() {
    let palette = vec![rgba(1, 2, 3, 4), rgba(17, 17, 17, 255)];
    let abgr = render_faces(shorty_spec(), palette.clone(), ChannelOrder::Abgr).unwrap();
    let rgba_out = render_faces(shorty_spec(), palette, ChannelOrder::Rgba).unwrap();
    assert_eq!(pixel(&abgr.data, 19, 0, 0), [4, 3, 2, 1]);
    assert_eq!(pixel(&rgba_out.data, 19, 0, 0), [1, 2, 3, 4]);
    assert_eq!(abgr.size, rgba_out.size);
    assert_eq!(abgr.data.len(), rgba_out.data.len());
}

#[test]
fn tubby_raster_fills_bounding_box() {
    let out = render_faces_edges(tubby_spec(), tubby_palette(), ChannelOrder::Abgr).unwrap();
    assert_eq!(out.size, Point { x: 199, y: 348 });
    assert_eq!(out.data.len(), 4 * 199 * 348);
    // Background, face and edge pixels, in a, b, g, r order.
    assert_eq!(pixel(&out.data, 199, 0, 0), [0, 255, 255, 255]);
    assert_eq!(pixel(&out.data, 199, 100, 200), [255, 64, 192, 64]);
    assert_eq!(pixel(&out.data, 199, 99, 200), [255, 0, 0, 255]);
}

#[test]
fn execute_matches_render_entry_point() {
    let cuboid = Cuboid::new(shorty_spec()).unwrap();
    let img = ImageFunction::new(
        shorty_palette(),
        FacesClassifier { cuboid },
        ChannelOrder::Abgr,
    );
    let direct = img.execute().unwrap();
    let through_entry = render_faces(shorty_spec(), shorty_palette(), ChannelOrder::Abgr)
        .unwrap();
    assert_eq!(direct.size, through_entry.size);
    assert_eq!(direct.data, through_entry.data);
}

#[test]
fn short_palette_is_an_index_error() {
    // The face index 1 is emitted, but the palette only holds index 0.
    let out = render_faces(shorty_spec(), vec![rgba(0, 0, 0, 0)], ChannelOrder::Abgr);
    assert_eq!(out.unwrap_err(), Error::PaletteIndexOutOfRange);
}

#[test]
fn invalid_spec_is_rejected_by_render() {
    let bad_ratio = CuboidSpec { length: 10, width: 10, height: 50, ratio: 0 };
    assert_eq!(
        render_faces(bad_ratio, shorty_palette(), ChannelOrder::Abgr).unwrap_err(),
        Error::InvalidSpec
    );
    // A silhouette with a negative bounding height is rejected rather than
    // scanned without end.
    let degenerate = CuboidSpec { length: 1, width: 1, height: 1, ratio: 2 };
    assert_eq!(
        render_faces(degenerate, shorty_palette(), ChannelOrder::Abgr).unwrap_err(),
        Error::InvalidSpec
    );
}

#[test]
fn zero_height_box_renders_empty() {
    // length 1, width 1, height 2 at ratio 2 gives a bounding box of no
    // rows: the very first probe ends the scan.
    let s = CuboidSpec { length: 1, width: 1, height: 2, ratio: 2 };
    let out = render_faces(s, shorty_palette(), ChannelOrder::Abgr).unwrap();
    assert_eq!(out.size, Point { x: 0, y: 0 });
    assert!(out.data.is_empty());
}

#[test]
fn layered_raster_blends_last_wins() {
    let out = render_layered(shorty_spec(), tubby_palette(), ChannelOrder::Rgba).unwrap();
    assert_eq!(out.size, Point { x: 19, y: 58 });
    assert_eq!(out.data.len(), 4 * 19 * 58);
    // Background keeps the base layer.
    assert_eq!(pixel(&out.data, 19, 0, 0), [255, 255, 255, 0]);
    // A face pixel layers base then face; the face color wins.
    assert_eq!(pixel(&out.data, 19, 10, 30), [64, 192, 64, 255]);
    // The upper-south corner lies on an edge; the edge layer wins.
    assert_eq!(pixel(&out.data, 19, 9, 8), [255, 0, 0, 255]);
}

#[test]
fn layered_short_palette_is_an_index_error() {
    let out = render_layered(shorty_spec(), vec![rgba(0, 0, 0, 0)], ChannelOrder::Rgba);
    assert_eq!(out.unwrap_err(), Error::PaletteIndexOutOfRange);
}
