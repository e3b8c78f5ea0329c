use vstd::prelude::*;

verus! {

/// Width of the display in pixels.
pub const SCREEN_WIDTH: usize = 64;

/// Height of the display in pixels.
pub const SCREEN_HEIGHT: usize = 32;

/// Number of pixels on the display.
pub const SCREEN_PIXELS: usize = 2048;

/// Number of bytes of an RGBA frame that shows the whole display.
pub const FRAME_BYTES: usize = 8192;

/// The 64x32 monochrome display, one byte per pixel, row by row.
pub struct Screen {
    pub grid: [u8; 2048],
}

impl View for Screen {
    type V = Seq<u8>;

    open spec fn view(&self) -> Seq<u8> {
        self.grid@
    }
}

/// Index in the grid of the pixel at column `x`, row `y`.
pub open spec fn pixel_index(x: int, y: int) -> int {
    y * SCREEN_WIDTH + x
}

/// A grid with every pixel off.
pub open spec fn blank_grid() -> Seq<u8> {
    Seq::new(SCREEN_PIXELS as nat, |i: int| 0u8)
}

/// The grid after `set_pixel(x, y, value)`: the pixel is XORed with `value`
/// when it lies on the display, and nothing changes otherwise.
pub open spec fn grid_set_pixel(grid: Seq<u8>, x: int, y: int, value: u8) -> Seq<u8> {
    if 0 <= x < SCREEN_WIDTH && 0 <= y < SCREEN_HEIGHT {
        grid.update(pixel_index(x, y), grid[pixel_index(x, y)] ^ value)
    } else {
        grid
    }
}

/// Colour channel value used for a pixel: white when it is exactly 1, black otherwise.
pub open spec fn channel(pixel: u8) -> u8 {
    if pixel == 1 {
        255
    } else {
        0
    }
}

/// `frame` shows the grid: four RGBA bytes per pixel, grey level from the pixel, opaque,
/// and the bytes past the image are those of `before`.
pub open spec fn frame_shows(frame: Seq<u8>, before: Seq<u8>, grid: Seq<u8>) -> bool {
    &&& frame.len() == before.len()
    &&& forall|i: int|
        #![trigger grid[i]]
        0 <= i < SCREEN_PIXELS ==> {
            &&& frame[4 * i] == channel(grid[i])
            &&& frame[4 * i + 1] == channel(grid[i])
            &&& frame[4 * i + 2] == channel(grid[i])
            &&& frame[4 * i + 3] == 255
        }
    &&& forall|j: int| FRAME_BYTES <= j < frame.len() ==> frame[j] == before[j]
}

impl Screen {
    /// A screen with every pixel off.
    pub fn new() -> (s: Self)
        ensures
            s@ == blank_grid(),
    {
        let s = Screen { grid: [0u8; 2048] };
        assert(s@ =~= blank_grid());
        s
    }

    /// Turns every pixel off.
    pub fn clear(&mut self)
        ensures
            final(self)@ == blank_grid(),
    {
        self.grid = [0u8; 2048];
        assert(self@ =~= blank_grid());
    }

    /// XORs the pixel at (`x`, `y`) with `value`; coordinates off the display are ignored.
    pub fn set_pixel(&mut self, x: usize, y: usize, value: u8)
        ensures
            final(self)@ == grid_set_pixel(old(self)@, x as int, y as int, value),
    {
        if x < SCREEN_WIDTH && y < SCREEN_HEIGHT {
            let i = y * SCREEN_WIDTH + x;
            self.grid[i] = self.grid[i] ^ value;
        }
    }

    /// Paints the screen into an RGBA frame buffer of at least `FRAME_BYTES` bytes.
    pub fn render(&self, frame: &mut [u8])
        requires
            old(frame)@.len() >= FRAME_BYTES,
        ensures
            frame_shows(final(frame)@, old(frame)@, self@),
    {
        let ghost before = frame@;
        let mut i: usize = 0;
        while i < SCREEN_PIXELS
            invariant
                0 <= i <= SCREEN_PIXELS,
                frame@.len() == before.len(),
                before.len() >= FRAME_BYTES,
                forall|k: int|
                    #![trigger self@[k]]
                    0 <= k < i ==> {
                        &&& frame@[4 * k] == channel(self@[k])
                        &&& frame@[4 * k + 1] == channel(self@[k])
                        &&& frame@[4 * k + 2] == channel(self@[k])
                        &&& frame@[4 * k + 3] == 255
                    },
                forall|j: int| 4 * i <= j < frame@.len() ==> frame@[j] == before[j],
            decreases SCREEN_PIXELS - i,
        {
            let pixel = self.grid[i];
            let pixel_index = i * 4;
            let color: u8 = if pixel == 1 {
                255
            } else {
                0
            };
            frame[pixel_index] = color;
            frame[pixel_index + 1] = color;
            frame[pixel_index + 2] = color;
            frame[pixel_index + 3] = 255;
            i = i + 1;
        }
    }
}

} // verus!
