//! The per-cell map buffer: walls in channel 0, emitters in channel 1 and a
//! wave-speed change in channel 2 around the neutral value 128, either
//! taken from an image centered on the grid or all neutral.

use image::GenericImage;
use vstd::prelude::*;

use crate::grid::{cell_count, plane_size, valid_size, ConfigError, Grid};

verus! {

/// The channel value that leaves the local wave speed unchanged.
pub const NEUTRAL_SPEED: u8 = 128;

/// A decoded map: rows of RGBA pixels, four bytes each, top row first.
pub struct MapImage {
    width: u32,
    height: u32,
    pixels: Vec<u8>,
}

impl View for MapImage {
    type V = (int, int, Seq<u8>);

    closed spec fn view(&self) -> (int, int, Seq<u8>) {
        (self.width as int, self.height as int, self.pixels@)
    }
}

/// `pixels` holds four bytes for each pixel of a `width` by `height` image.
pub open spec fn well_formed_map(width: int, height: int, pixels: Seq<u8>) -> bool {
    pixels.len() == width * height * 4
}

impl MapImage {
    /// The pixel data matches the dimensions.
    pub open spec fn wf(&self) -> bool {
        well_formed_map(self@.0, self@.1, self@.2)
    }

    /// A map of `width` by `height` pixels.
    pub fn new(width: u32, height: u32, pixels: Vec<u8>) -> (r: Result<MapImage, ConfigError>)
        ensures
            r is Ok <==> well_formed_map(width as int, height as int, pixels@),
            r matches Ok(m) ==> m.wf() && m@ == (width as int, height as int, pixels@),
            r matches Err(e) ==> e == ConfigError::MalformedMap,
    {
        assert(width * height <= u32::MAX * u32::MAX) by (nonlinear_arith)
            requires
                width <= u32::MAX,
                height <= u32::MAX,
        ;
        let cells: u64 = width as u64 * height as u64;
        let len = pixels.len();
        if cells > (usize::MAX / 4) as u64 {
            assert(len == pixels@.len());
            assert(cells * 4 > usize::MAX);
            return Err(ConfigError::MalformedMap);
        }
        if len != (cells as usize) * 4 {
            return Err(ConfigError::MalformedMap);
        }
        Ok(MapImage { width, height, pixels })
    }

    pub fn width(&self) -> (r: u32)
        ensures
            r == self@.0,
    {
        self.width
    }

    pub fn height(&self) -> (r: u32)
        ensures
            r == self@.1,
    {
        self.height
    }
}

/// The map buffer of a grid with no map: every cell has no wall, no
/// emitter and a neutral wave speed.
pub open spec fn neutral_map(width: int, height: int) -> Seq<u8> {
    Seq::new(
        plane_size(width, height) as nat,
        |k: int|
            if k % 4 == 2 {
                NEUTRAL_SPEED
            } else {
                0u8
            },
    )
}

/// A `width` by `height` zeroed RGBA canvas with the `mw` by `mh` image
/// `pixels` copied in with its top-left corner at `(x, y)`.
pub open spec fn pasted(
    width: int,
    height: int,
    mw: int,
    mh: int,
    pixels: Seq<u8>,
    x: int,
    y: int,
) -> Seq<u8> {
    Seq::new(
        (width * height * 4) as nat,
        |k: int|
            {
                let p = k / 4;
                let px = p % width;
                let py = p / width;
                if x <= px < x + mw && y <= py < y + mh {
                    pixels[((py - y) * mw + (px - x)) * 4 + k % 4]
                } else {
                    0u8
                }
            },
    )
}

/// The map buffer of a grid with a map: the map centered on the grid,
/// rounding its offset down, and zero bytes around it.
pub open spec fn centered_map(grid: Grid, mw: int, mh: int, pixels: Seq<u8>) -> Seq<u8> {
    pasted(
        grid.width as int,
        grid.height as int,
        mw,
        mh,
        pixels,
        (grid.width - mw) / 2,
        (grid.height - mh) / 2,
    )
}

/// image's `ImageError`, the error of `GenericImage::copy_from`, carried
/// opaquely.
#[verifier::external_type_specification]
#[verifier::external_body]
pub struct ExImageError(image::ImageError);

/// Relies on image's `GenericImage::copy_from` for an `RgbaImage`: onto a
/// zeroed `width` by `height` canvas (`ImageBuffer::new`), the map is
/// copied with its top-left corner at `(x, y)`; it fails when the map does
/// not fit there, and copies nothing then. `from_raw` and `into_raw` only
/// move the pixel bytes in and out.
#[verifier::external_body]
fn copy_onto_canvas(width: u32, height: u32, map: &MapImage, x: u32, y: u32) -> (r: Result<
    Vec<u8>,
    image::ImageError,
>)
    requires
        map.wf(),
        width * height * 4 <= usize::MAX,
    ensures
        r is Ok <==> (x + map@.0 <= width && y + map@.1 <= height),
        r matches Ok(b) ==> b@ == pasted(
            width as int,
            height as int,
            map@.0,
            map@.1,
            map@.2,
            x as int,
            y as int,
        ),
{
    let mut canvas = image::RgbaImage::new(width, height);
    let source = image::RgbaImage::from_raw(map.width, map.height, map.pixels.clone()).expect(
        "four bytes for each pixel",
    );
    canvas.copy_from(&source, x, y)?;
    Ok(canvas.into_raw())
}

/// The bytes of the map buffer: all neutral without a map; with one, the
/// map centered on the grid. Fails when the map is wider or taller than the
/// grid.
pub fn map_data(grid: Grid, map: Option<&MapImage>) -> (r: Result<Vec<u8>, ConfigError>)
    requires
        grid.valid(),
        map matches Some(m) ==> m.wf(),
    ensures
        match map {
            None => r matches Ok(b) && b@ == neutral_map(grid.width as int, grid.height as int),
            Some(m) => if m@.0 <= grid.width && m@.1 <= grid.height {
                r matches Ok(b) && b@ == centered_map(grid, m@.0, m@.1, m@.2)
            } else {
                r == Err::<Vec<u8>, ConfigError>(ConfigError::MapTooLarge)
            },
        },
{
    match map {
        None => {
            let n = grid.cells();
            let mut out: Vec<u8> = Vec::new();
            let mut i: u32 = 0;
            while i < n
                invariant
                    i <= n,
                    n == cell_count(grid.width as int, grid.height as int),
                    valid_size(grid.width as int, grid.height as int),
                    out@ == neutral_map(grid.width as int, grid.height as int).take(4 * i),
                decreases n - i,
            {
                assert(n * 4 <= u32::MAX);
                out.push(0);
                out.push(0);
                out.push(NEUTRAL_SPEED);
                out.push(0);
                i = i + 1;
                assert(out@ =~= neutral_map(grid.width as int, grid.height as int).take(4 * i));
            }
            assert(neutral_map(grid.width as int, grid.height as int).take(4 * n) =~= neutral_map(
                grid.width as int,
                grid.height as int,
            ));
            Ok(out)
        },
        Some(m) => {
            if m.width() > grid.width || m.height() > grid.height {
                return Err(ConfigError::MapTooLarge);
            }
            let x = (grid.width - m.width()) / 2;
            let y = (grid.height - m.height()) / 2;
            match copy_onto_canvas(grid.width, grid.height, m, x, y) {
                Ok(b) => Ok(b),
                Err(_) => Err(ConfigError::MapTooLarge),
            }
        },
    }
}

} // verus!
