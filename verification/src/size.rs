//! Nominal face sizes, resolutions and the size request derived from them.

use vstd::prelude::*;

verus! {

/// Nominal width and height of a face, in 26.6 fixed-point units.
#[derive(Debug, Clone, Copy, PartialEq, Eq, Hash, Structural)]
pub struct FaceSize {
    pub width: u32,
    pub height: u32,
}

/// Horizontal and vertical resolution, in dots per inch.
#[derive(Debug, Clone, Copy, PartialEq, Eq, Hash, Structural)]
pub struct DPI {
    pub hori: u32,
    pub vert: u32,
}

impl FaceSize {
    #[inline]
    pub fn new(width: u32, height: u32) -> (size: FaceSize)
        ensures
            size == (FaceSize { width, height }),
    {
        FaceSize { width, height }
    }
}

impl DPI {
    #[inline]
    pub fn new(hori: u32, vert: u32) -> (dpi: DPI)
        ensures
            dpi == (DPI { hori, vert }),
    {
        DPI { hori, vert }
    }
}

} // verus!

verus! {

/// A request for a nominal size, as the rasterization engine takes it: width
/// and height in 26.6 units, and the resolution in dots per inch.
#[derive(Debug, Clone, Copy, PartialEq, Eq, Hash, Structural)]
pub struct FontSizeRequest {
    pub width: i64,
    pub height: i64,
    pub hori_resolution: u32,
    pub vert_resolution: u32,
}

impl FontSizeRequest {
    /// The request that no size and resolution make: a face that holds it
    /// has not been sized yet.
    pub open spec fn spec_unset() -> FontSizeRequest {
        FontSizeRequest { width: -1i64, height: -1i64, hori_resolution: 0, vert_resolution: 0 }
    }

    /// The request that no size and resolution make.
    pub fn unset() -> (request: FontSizeRequest)
        ensures
            request == FontSizeRequest::spec_unset(),
    {
        FontSizeRequest { width: -1, height: -1, hori_resolution: 0, vert_resolution: 0 }
    }

    /// The request for a size at a resolution.
    pub open spec fn spec_of(size: FaceSize, dpi: DPI) -> FontSizeRequest {
        FontSizeRequest {
            width: size.width as i64,
            height: size.height as i64,
            hori_resolution: dpi.hori,
            vert_resolution: dpi.vert,
        }
    }

    /// The request for a size at a resolution.
    pub fn of(size: FaceSize, dpi: DPI) -> (request: FontSizeRequest)
        ensures
            request == FontSizeRequest::spec_of(size, dpi),
            request != FontSizeRequest::spec_unset(),
    {
        FontSizeRequest {
            width: size.width as i64,
            height: size.height as i64,
            hori_resolution: dpi.hori,
            vert_resolution: dpi.vert,
        }
    }
}

} // verus!
