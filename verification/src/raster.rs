use vstd::prelude::*;

verus! {

/// The byte at row `y`, column `x` of a row-major pixel buffer whose rows
/// are `width` bytes long.
pub open spec fn cell(pixels: Seq<u8>, width: int, y: int, x: int) -> u8 {
    pixels[y * width + x]
}

/// A single-channel (grayscale) pixel grid, one byte per pixel, rows stored
/// top to bottom in one flat buffer.
pub struct Raster {
    pub pixels: Vec<u8>,
    pub width: u32,
    pub height: u32,
}

impl Raster {
    /// The buffer holds exactly one byte per cell of the grid.
    pub open spec fn wf(self) -> bool {
        self.pixels@.len() == self.width * self.height
    }

    /// The byte stored for the pixel in row `y`, column `x`.
    pub open spec fn at(self, y: int, x: int) -> u8 {
        cell(self.pixels@, self.width as int, y, x)
    }
}

} // verus!
