//! Surfaces: dense row-major matrices of samples.

use vstd::prelude::*;

verus! {

/// The mathematical content of an [`Image`].
pub struct Surface {
    /// The samples, row after row.
    pub samples: Seq<u32>,
    /// Samples per row.
    pub width: nat,
    /// Number of rows.
    pub height: nat,
}

impl Surface {
    /// A surface holds exactly `width * height` samples.
    pub open spec fn wf(self) -> bool {
        self.samples.len() == self.width * self.height
    }

    /// Index of the sample in column `x` of row `y`.
    pub open spec fn index_of(self, x: int, y: int) -> int {
        y * self.width + x
    }

    /// The sample in column `x` of row `y`.
    pub open spec fn at(self, x: int, y: int) -> u32 {
        self.samples[self.index_of(x, y)]
    }

    /// The surface of the given size whose samples are all positive zero.
    pub open spec fn zeroed(width: nat, height: nat) -> Surface {
        Surface { samples: Seq::new(width * height, |i: int| 0u32), width, height }
    }
}

/// A dense row-major matrix of samples with its width and height.
///
/// Each sample is the bit pattern of a 32-bit floating-point number (see
/// [`crate::sample`]). An image is well formed when `data` holds exactly
/// `width * height` samples.
#[derive(Debug)]
pub struct Image {
    pub data: Vec<u32>,
    pub width: u32,
    pub height: u32,
}

impl View for Image {
    type V = Surface;

    open spec fn view(&self) -> Surface {
        Surface {
            samples: self.data@,
            width: self.width as nat,
            height: self.height as nat,
        }
    }
}

impl Image {
    /// `data` holds exactly `width * height` samples.
    pub open spec fn wf(&self) -> bool {
        self@.wf()
    }

    /// Puts the samples and the dimensions together. Nothing is checked:
    /// see [`Image::is_well_formed`].
    pub fn new(data: Vec<u32>, width: u32, height: u32) -> (image: Self)
        ensures
            image.data == data,
            image.width == width,
            image.height == height,
    {
        Self { data, width, height }
    }

    /// Whether `data` holds exactly `width * height` samples.
    pub fn is_well_formed(&self) -> (ok: bool)
        ensures
            ok == self.wf(),
    {
        assert(self.width * self.height <= u64::MAX) by (nonlinear_arith)
            requires
                self.width <= u32::MAX,
                self.height <= u32::MAX,
        ;
        let expected: u64 = (self.width as u64) * (self.height as u64);
        self.data.len() as u64 == expected
    }

    /// The image of the given size whose samples are all positive zero.
    pub fn zeroed(width: u32, height: u32) -> (image: Self)
        requires
            width * height <= usize::MAX,
        ensures
            image@ == Surface::zeroed(width as nat, height as nat),
            image.wf(),
    {
        let count: usize = (width as usize) * (height as usize);
        let data: Vec<u32> = vec![0u32; count];
        assert(data@ =~= Seq::new((width * height) as nat, |i: int| 0u32));
        Self { data, width, height }
    }

    /// The sample in column `x` of row `y`.
    pub fn sample(&self, x: u32, y: u32) -> (s: u32)
        requires
            self.wf(),
            x < self.width,
            y < self.height,
        ensures
            s == self@.at(x as int, y as int),
    {
        let column: usize = x as usize;
        let row: usize = y as usize;
        let width: usize = self.width as usize;
        proof {
            lemma_index_in_bounds(column as int, row as int, width as int, self.height as int);
            assert(self.data@.len() == self.data.len());
        }
        self.data[row * width + column]
    }
}

/// A position inside a `width` by `height` matrix has a row-major index
/// below `width * height`.
pub proof fn lemma_index_in_bounds(x: int, y: int, width: int, height: int)
    by (nonlinear_arith)
    requires
        0 <= x < width,
        0 <= y < height,
    ensures
        0 <= y * width <= y * width + x < width * height,
        (y + 1) * width <= width * height,
{
}

} // verus!
