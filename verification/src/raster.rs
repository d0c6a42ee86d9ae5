use vstd::prelude::*;

verus! {

/// Mathematical view of an RGB raster: `height` rows of `width` pixels,
/// three interleaved 8-bit samples (red, green, blue) per pixel, row major.
pub ghost struct RgbView {
    pub width: nat,
    pub height: nat,
    pub data: Seq<u8>,
}

impl RgbView {
    pub open spec fn wf(self) -> bool {
        self.data.len() == 3 * self.width * self.height
    }

    pub open spec fn sample(self, row: int, col: int, channel: int) -> u8 {
        self.data[3 * (row * self.width + col) + channel]
    }

    pub open spec fn red(self, row: int, col: int) -> u8 {
        self.sample(row, col, 0)
    }

    pub open spec fn green(self, row: int, col: int) -> u8 {
        self.sample(row, col, 1)
    }

    pub open spec fn blue(self, row: int, col: int) -> u8 {
        self.sample(row, col, 2)
    }
}

/// A decoded RGB raster. Immutable after decoding; consumed once by the
/// pixel converter.
pub struct Raster {
    pub width: u32,
    pub height: u32,
    pub data: Vec<u8>,
}

impl View for Raster {
    type V = RgbView;

    open spec fn view(&self) -> RgbView {
        RgbView { width: self.width as nat, height: self.height as nat, data: self.data@ }
    }
}

/// In row-major order a cell (row, col) lies strictly before the end of the
/// grid.
pub proof fn lemma_row_major_bound(row: int, col: int, rows: int, cols: int)
    requires
        0 <= row < rows,
        0 <= col < cols,
    ensures
        0 <= row * cols + col < rows * cols,
{
    assert(0 <= row * cols + col < rows * cols) by (nonlinear_arith)
        requires
            0 <= row < rows,
            0 <= col < cols,
    ;
}

impl Raster {
    pub open spec fn wf(self) -> bool {
        self@.wf()
    }

    /// The three channel samples of the pixel at (row, col).
    pub fn pixel(&self, row: usize, col: usize) -> (p: (u8, u8, u8))
        requires
            self.wf(),
            row < self@.height,
            col < self@.width,
        ensures
            p.0 == self@.red(row as int, col as int),
            p.1 == self@.green(row as int, col as int),
            p.2 == self@.blue(row as int, col as int),
    {
        let len = self.data.len();
        proof {
            lemma_row_major_bound(row as int, col as int, self@.height as int, self@.width as int);
            assert(3 * (row * self@.width + col) + 2 < 3 * (self@.width * self@.height)) by (nonlinear_arith)
                requires
                    row * self@.width + col < self@.height * self@.width,
            ;
            assert(3 * self@.width * self@.height == 3 * (self@.width * self@.height)) by (nonlinear_arith);
        }
        let base: usize = 3 * (row * (self.width as usize) + col);
        (self.data[base], self.data[base + 1], self.data[base + 2])
    }
}

} // verus!
