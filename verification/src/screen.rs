//! The screen sampler: the window of the data store that is mapped to
//! the monochrome display, read out as pixels.

use vstd::prelude::*;
use crate::emulator::HackEmulator;
use crate::error::EmulatorError;
use crate::memory::Memory32K;
use crate::word::{bit_pattern, to_bits};

verus! {

/// The first data-store cell of the screen window.
pub const SCREEN_BASE: usize = 0x4000;

/// The first data-store cell after the screen window.
pub const SCREEN_END: usize = 0x6000;

/// Pixels in a row of the display.
pub const SCREEN_WIDTH: usize = 512;

/// Rows of the display.
pub const SCREEN_HEIGHT: usize = 256;

/// Words that hold one row of the display, 16 pixels to the word.
pub const WORDS_PER_ROW: usize = 32;

/// Bit `k` of the word `w`, bit 0 being the least significant.
pub open spec fn bit(w: i16, k: nat) -> bool {
    bit_pattern(w) / (vstd::arithmetic::power2::pow2(k) as int) % 2 == 1
}

/// Whether the pixel in row `row`, column `col` is black: the pixels of a
/// word run from its least significant bit upwards.
pub open spec fn pixel(ram: Seq<i16>, row: int, col: int) -> bool {
    bit(ram[SCREEN_BASE + row * WORDS_PER_ROW + col / 16], (col % 16) as nat)
}

/// The display as rows of pixels, `true` for black.
pub open spec fn bitmap(ram: Seq<i16>) -> Seq<Seq<bool>> {
    Seq::new(SCREEN_HEIGHT as nat, |row: int| Seq::new(SCREEN_WIDTH as nat, |col: int| pixel(ram, row, col)))
}

/// The display as an RGB image, three bytes to the pixel, rows first:
/// black pixels are 0 in every channel, the others 255.
pub open spec fn frame(ram: Seq<i16>) -> Seq<u8> {
    Seq::new(
        (3 * SCREEN_WIDTH * SCREEN_HEIGHT) as nat,
        |j: int|
            if pixel(ram, j / 3 / (SCREEN_WIDTH as int), j / 3 % (SCREEN_WIDTH as int)) {
                0u8
            } else {
                255u8
            },
    )
}

/// Bit `k` of `w`. A word has no bit beyond the sixteenth.
pub fn test_bit(w: i16, k: u16) -> (set: bool)
    ensures
        set == bit(w, k as nat),
        k >= 16 ==> !set,
{
    let bits: u16 = to_bits(w);
    if k >= 16 {
        proof {
            vstd::arithmetic::power2::lemma2_to64();
            if k > 16 {
                vstd::arithmetic::power2::lemma_pow2_strictly_increases(16, k as nat);
            }
            vstd::arithmetic::div_mod::lemma_basic_div(
                bits as int,
                vstd::arithmetic::power2::pow2(k as nat) as int,
            );
        }
        return false;
    }
    let shifted: u16 = bits >> k;
    proof {
        vstd::bits::lemma_u16_shr_is_div(bits, k);
        assert((shifted & 1 == 1) <==> (shifted % 2 == 1)) by (bit_vector);
    }
    shifted & 1 == 1
}

impl HackEmulator {
    /// Samples the display: 256 rows of 512 pixels, `true` for black.
    /// Reports `OutOfRange` where the data store ends before the screen
    /// window does.
    pub fn sample(&self) -> (r: Result<Vec<Vec<bool>>, EmulatorError>)
        ensures
            self@.ram.len() >= SCREEN_END ==> r.is_ok() && r.unwrap().deep_view() == bitmap(
                self@.ram,
            ),
            self@.ram.len() < SCREEN_END ==> r == Err::<Vec<Vec<bool>>, EmulatorError>(
                EmulatorError::OutOfRange,
            ),
    {
        let ram: &Memory32K = self.data_store();
        if ram.capacity() < SCREEN_END {
            return Err(EmulatorError::OutOfRange);
        }
        let mut grid: Vec<Vec<bool>> = Vec::new();
        let mut row: usize = 0;
        while row < SCREEN_HEIGHT
            invariant
                row <= SCREEN_HEIGHT,
                ram@.len() >= SCREEN_END,
                grid@.len() == row,
                forall|i: int| 0 <= i < row ==> #[trigger] grid@[i]@ == bitmap(ram@)[i],
            decreases SCREEN_HEIGHT - row,
        {
            let mut line: Vec<bool> = Vec::new();
            let mut col: usize = 0;
            while col < SCREEN_WIDTH
                invariant
                    row < SCREEN_HEIGHT,
                    col <= SCREEN_WIDTH,
                    ram@.len() >= SCREEN_END,
                    line@.len() == col,
                    forall|j: int| 0 <= j < col ==> #[trigger] line@[j] == pixel(ram@, row as int, j),
                decreases SCREEN_WIDTH - col,
            {
                let index: usize = SCREEN_BASE + row * WORDS_PER_ROW + col / 16;
                let word: i16 = match ram.read(index) {
                    Ok(word) => word,
                    Err(e) => {
                        return Err(e);
                    },
                };
                line.push(test_bit(word, (col % 16) as u16));
                col = col + 1;
            }
            assert(line@ =~= bitmap(ram@)[row as int]);
            grid.push(line);
            row = row + 1;
        }
        assert(grid.deep_view() =~~= bitmap(ram@));
        Ok(grid)
    }

    /// Renders the display as an RGB image of 512 by 256 pixels, three
    /// bytes to the pixel: black where the bit is set, white elsewhere.
    /// Reports `OutOfRange` where the data store ends before the screen
    /// window does.
    pub fn frame_rgb(&self) -> (r: Result<Vec<u8>, EmulatorError>)
        ensures
            self@.ram.len() >= SCREEN_END ==> r.is_ok() && r.unwrap()@ == frame(self@.ram),
            self@.ram.len() < SCREEN_END ==> r == Err::<Vec<u8>, EmulatorError>(
                EmulatorError::OutOfRange,
            ),
    {
        let ram: &Memory32K = self.data_store();
        if ram.capacity() < SCREEN_END {
            return Err(EmulatorError::OutOfRange);
        }
        let mut arr: Vec<u8> = Vec::new();
        let mut i: usize = SCREEN_BASE;
        while i < SCREEN_END
            invariant
                SCREEN_BASE <= i <= SCREEN_END,
                ram@.len() >= SCREEN_END,
                arr@.len() == 48 * (i - SCREEN_BASE),
                forall|j: int| 0 <= j < arr@.len() ==> #[trigger] arr@[j] == frame(ram@)[j],
            decreases SCREEN_END - i,
        {
            let p: i16 = match ram.read(i) {
                Ok(word) => word,
                Err(e) => {
                    return Err(e);
                },
            };
            let mut b: u16 = 0;
            while b < 16
                invariant
                    SCREEN_BASE <= i < SCREEN_END,
                    ram@.len() >= SCREEN_END,
                    b <= 16,
                    p == ram@[i as int],
                    arr@.len() == 48 * (i - SCREEN_BASE) + 3 * b,
                    forall|j: int| 0 <= j < arr@.len() ==> #[trigger] arr@[j] == frame(ram@)[j],
                decreases 16 - b,
            {
                let c: u8 = if test_bit(p, b) {
                    0
                } else {
                    255
                };
                proof {
                    let pix: int = 16 * (i - SCREEN_BASE) + b;
                    let row: int = pix / (SCREEN_WIDTH as int);
                    let col: int = pix % (SCREEN_WIDTH as int);
                    assert(SCREEN_BASE + row * WORDS_PER_ROW + col / 16 == i);
                    assert(col % 16 == b);
                    assert(pixel(ram@, row, col) == bit(p, b as nat));
                    assert((3 * pix) / 3 == pix && (3 * pix + 1) / 3 == pix && (3 * pix + 2) / 3
                        == pix);
                }
                arr.push(c);
                arr.push(c);
                arr.push(c);
                b = b + 1;
            }
            i = i + 1;
        }
        assert(arr@ =~= frame(ram@));
        Ok(arr)
    }
}

} // verus!
