//! The simulation grid and every host-side quantity sized from it: buffer
//! byte counts, workgroup counts, plane offsets, zero fills and the map
//! buffer.

use vstd::prelude::*;

verus! {

/// Why a simulation could not be configured.
#[derive(Clone, Copy, Debug, PartialEq, Eq, Structural)]
pub enum ConfigError {
    /// The grid is empty, or its state buffer would not fit in `u32` bytes.
    InvalidSize,
    /// A size text is not `WIDTHxHEIGHT` with two decimal `u32` values.
    MalformedSize,
    /// A map's pixel data does not hold four bytes for each of its pixels.
    MalformedMap,
    /// The map is wider or taller than the grid.
    MapTooLarge,
}

/// The simulation domain: a fixed number of columns and rows.
#[derive(Clone, Copy, Debug, PartialEq, Eq, Structural)]
pub struct Grid {
    pub width: u32,
    pub height: u32,
}

/// Workgroups are this many cells wide and tall.
pub const WORKGROUP_SIZE: u32 = 8;

/// Planes in the state buffer: current, previous and the one before.
pub const STATE_PLANES: u32 = 3;

/// Bytes in one cell of a plane.
pub const CELL_BYTES: u32 = 4;

/// Whether a `width` by `height` grid is usable: not empty, and its
/// largest buffer, the three-plane state buffer, has a byte count that fits
/// in a `u32`.
pub open spec fn valid_size(width: int, height: int) -> bool {
    &&& width >= 1
    &&& height >= 1
    &&& width * height * 3 * 4 <= u32::MAX
}

/// Cells of a `width` by `height` grid.
pub open spec fn cell_count(width: int, height: int) -> int {
    width * height
}

/// Bytes of the state buffer: three planes of four-byte cells.
pub open spec fn state_size(width: int, height: int) -> int {
    width * height * 3 * 4
}

/// Bytes of one plane, which is the size of the energy and staging buffers.
pub open spec fn plane_size(width: int, height: int) -> int {
    width * height * 4
}

/// Workgroups needed to cover `n` cells along one axis.
pub open spec fn groups(n: int) -> int {
    (n + 7) / 8
}

proof fn lemma_size_bounds(width: int, height: int)
    requires
        valid_size(width, height),
    ensures
        width * height <= u32::MAX,
        width * height * 4 <= u32::MAX,
        width * height >= 1,
        width <= width * height,
        height <= width * height,
{
    assert(width * height >= 1) by (nonlinear_arith)
        requires
            width >= 1,
            height >= 1,
    ;
    assert(width <= width * height) by (nonlinear_arith)
        requires
            width >= 1,
            height >= 1,
    ;
    assert(height <= width * height) by (nonlinear_arith)
        requires
            width >= 1,
            height >= 1,
    ;
}

impl Grid {
    /// The grid has a usable size.
    pub open spec fn valid(self) -> bool {
        valid_size(self.width as int, self.height as int)
    }

    /// A grid of `width` columns and `height` rows.
    pub fn new(width: u32, height: u32) -> (r: Result<Grid, ConfigError>)
        ensures
            r is Ok <==> valid_size(width as int, height as int),
            r matches Ok(g) ==> g.width == width && g.height == height,
            r matches Err(e) ==> e == ConfigError::InvalidSize,
    {
        if width == 0 || height == 0 {
            return Err(ConfigError::InvalidSize);
        }
        assert(width * height <= u32::MAX * u32::MAX) by (nonlinear_arith)
            requires
                width <= u32::MAX,
                height <= u32::MAX,
        ;
        let cells: u64 = width as u64 * height as u64;
        if cells > 357_913_941 {
            return Err(ConfigError::InvalidSize);
        }
        Ok(Grid { width, height })
    }

    /// Cells in one plane.
    pub fn cells(&self) -> (r: u32)
        requires
            self.valid(),
        ensures
            r == cell_count(self.width as int, self.height as int),
    {
        proof {
            lemma_size_bounds(self.width as int, self.height as int);
        }
        self.width * self.height
    }

    /// Bytes of the state buffer.
    pub fn state_bytes(&self) -> (r: u64)
        requires
            self.valid(),
        ensures
            r == self.width * self.height * 3 * 4,
            r == state_size(self.width as int, self.height as int),
    {
        proof {
            lemma_size_bounds(self.width as int, self.height as int);
        }
        (self.cells() * STATE_PLANES * CELL_BYTES) as u64
    }

    /// Bytes of one plane.
    pub fn plane_bytes(&self) -> (r: u64)
        requires
            self.valid(),
        ensures
            r == plane_size(self.width as int, self.height as int),
    {
        proof {
            lemma_size_bounds(self.width as int, self.height as int);
        }
        (self.cells() * CELL_BYTES) as u64
    }

    /// Bytes of the average-energy buffer: one plane.
    pub fn energy_bytes(&self) -> (r: u64)
        requires
            self.valid(),
        ensures
            r == self.width * self.height * 4,
            r == plane_size(self.width as int, self.height as int),
    {
        self.plane_bytes()
    }

    /// Bytes of the staging buffer: one plane, the largest single read-back.
    pub fn staging_bytes(&self) -> (r: u64)
        requires
            self.valid(),
        ensures
            r == self.width * self.height * 4,
            r == plane_size(self.width as int, self.height as int),
    {
        self.plane_bytes()
    }

    /// Workgroups along each axis, rounded up so that partial groups at the
    /// right and bottom edges are dispatched too.
    pub fn workgroups(&self) -> (r: (u32, u32))
        ensures
            r.0 == groups(self.width as int),
            r.1 == groups(self.height as int),
            r.0 * 8 >= self.width,
            r.1 * 8 >= self.height,
    {
        (self.width / WORKGROUP_SIZE + if self.width % WORKGROUP_SIZE == 0 {
            0
        } else {
            1
        }, self.height / WORKGROUP_SIZE + if self.height % WORKGROUP_SIZE == 0 {
            0
        } else {
            1
        })
    }

    /// Byte offset of the plane that the kernel last wrote, which it picks
    /// by `tick mod 3`.
    pub fn state_plane_offset(&self, tick: u64) -> (r: u64)
        requires
            self.valid(),
        ensures
            r == (tick % 3) * plane_size(self.width as int, self.height as int),
            r + plane_size(self.width as int, self.height as int) <= state_size(
                self.width as int,
                self.height as int,
            ),
    {
        proof {
            lemma_size_bounds(self.width as int, self.height as int);
        }
        let plane = self.plane_bytes();
        let m = tick % 3;
        assert(m * plane + plane <= 3 * plane) by (nonlinear_arith)
            requires
                m < 3,
                plane >= 0,
        ;
        m * plane
    }
}

/// `n` zero bytes.
pub fn zeroed(n: usize) -> (r: Vec<u8>)
    ensures
        r@ == Seq::new(n as nat, |i: int| 0u8),
{
    let mut out: Vec<u8> = Vec::new();
    let mut i: usize = 0;
    while i < n
        invariant
            i <= n,
            out@ == Seq::new(i as nat, |k: int| 0u8),
        decreases n - i,
    {
        out.push(0);
        i = i + 1;
    }
    out
}

} // verus!
