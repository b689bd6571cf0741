use vstd::prelude::*;
use crate::cpu::CPU;
use crate::machine::Machine;

verus! {

/// The glyphs for the hexadecimal digits `0` to `F`, five rows each.
pub const FONTSET: [u8; 80] = [
    0xF0, 0x90, 0x90, 0x90, 0xF0,
    0x20, 0x60, 0x20, 0x20, 0x70,
    0xF0, 0x10, 0xF0, 0x80, 0xF0,
    0xF0, 0x10, 0xF0, 0x10, 0xF0,
    0x90, 0x90, 0xF0, 0x10, 0x10,
    0xF0, 0x80, 0xF0, 0x10, 0xF0,
    0xF0, 0x80, 0xF0, 0x90, 0xF0,
    0xF0, 0x10, 0x20, 0x40, 0x40,
    0xF0, 0x90, 0xF0, 0x90, 0xF0,
    0xF0, 0x90, 0xF0, 0x10, 0xF0,
    0xF0, 0x90, 0xF0, 0x90, 0x90,
    0xE0, 0x90, 0xE0, 0x90, 0xE0,
    0xF0, 0x80, 0x80, 0x80, 0xF0,
    0xE0, 0x90, 0x90, 0x90, 0xE0,
    0xF0, 0x80, 0xF0, 0x80, 0xF0,
    0xF0, 0x80, 0xF0, 0x80, 0x80,
];

/// Number of memory cells from `0x200` to the end: the largest program
/// image that fits.
pub const PROGRAM_CAPACITY: usize = 3584;

/// Why a program image was not loaded.
#[derive(Clone, Copy, Debug, PartialEq, Eq, Structural)]
pub enum LoadError {
    /// The image has `len` bytes, more than fit from `0x200` on.
    TooLarge { len: usize },
}

impl CPU {
    /// Copies the font table into memory from address 0 on.
    pub fn load_font(&mut self)
        ensures
            final(self)@ == old(self)@.with_font(FONTSET@),
    {
        let mut a: usize = 0;
        while a < 80
            invariant
                a <= 80,
                self@ == (Machine {
                    memory: Seq::new(
                        4096,
                        |b: int|
                            if b < a {
                                FONTSET@[b]
                            } else {
                                old(self).memory@[b]
                            },
                    ),
                    ..old(self)@
                }),
            decreases 80 - a,
        {
            self.memory[a] = FONTSET[a];
            a += 1;
        }
    }

    /// Copies a program image into memory from address `0x200` on. An image
    /// that does not fit is refused, and memory stays as it was.
    pub fn load_program(&mut self, image: &[u8]) -> (loaded: Result<(), LoadError>)
        ensures
            image@.len() <= PROGRAM_CAPACITY ==> loaded is Ok && final(self)@ == old(self)@.with_program(
                image@,
            ),
            image@.len() > PROGRAM_CAPACITY ==> loaded == Err::<(), LoadError>(
                LoadError::TooLarge { len: image@.len() as usize },
            ) && final(self)@ == old(self)@,
    {
        let len: usize = image.len();
        if len > PROGRAM_CAPACITY {
            return Err(LoadError::TooLarge { len });
        }
        let mut a: usize = 0;
        while a < len
            invariant
                a <= len <= PROGRAM_CAPACITY,
                len == image@.len(),
                self@ == (Machine {
                    memory: Seq::new(
                        4096,
                        |b: int|
                            if 0x200 <= b < 0x200 + a {
                                image@[b - 0x200]
                            } else {
                                old(self).memory@[b]
                            },
                    ),
                    ..old(self)@
                }),
            decreases len - a,
        {
            self.memory[0x200 + a] = image[a];
            a += 1;
        }
        Ok(())
    }

    /// One tick of the clock: each timer that is not zero goes down by one.
    /// Returns whether the tone is to sound, which is on the tick that takes
    /// the sound timer from 1 to 0.
    pub fn tick_timers(&mut self) -> (beep: bool)
        ensures
            final(self)@ == old(self)@.tick(),
            beep == old(self)@.beeps(),
    {
        if self.delay_timer > 0 {
            self.delay_timer -= 1;
        }
        let mut beep = false;
        if self.sound_timer > 0 {
            if self.sound_timer == 1 {
                beep = true;
            }
            self.sound_timer -= 1;
        }
        beep
    }

    /// The display as 24-bit pixels, row by row, three equal bytes per cell.
    pub fn frame_rgb(&self) -> (pixels: Vec<u8>)
        ensures
            pixels@ == self@.frame(),
    {
        let mut pixels: Vec<u8> = Vec::new();
        let mut p: usize = 0;
        while p < 2048
            invariant
                p <= 2048,
                pixels@.len() == 3 * p,
                forall|k: int|
                    0 <= k < 3 * p ==> pixels@[k] == (if self.gfx@[k / 3] == 1 {
                        255u8
                    } else {
                        0u8
                    }),
            decreases 2048 - p,
        {
            let value: u8 = if self.gfx[p] == 1 {
                255
            } else {
                0
            };
            pixels.push(value);
            pixels.push(value);
            pixels.push(value);
            p += 1;
        }
        pixels
    }
}

} // verus!
