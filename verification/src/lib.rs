//! Verified core of an isometric pixel-art rasterizer.
//!
//! The library turns an analytic description of a cuboid (its length, width,
//! height and an integer isometric slope ratio) into a palette-indexed raster
//! buffer. Geometry, pixel classification and the raster scan are all pure
//! integer computations with proved contracts; window and texture handling
//! live outside the library.

pub mod blend;
pub mod color;
pub mod error;
pub mod image_function;
pub mod iso;
pub mod scan;
pub mod scenes;
