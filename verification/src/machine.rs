use vstd::prelude::*;
use crate::fault::Fault;
use crate::sprite::{sprite_bit, sprite_column, sprite_row};

verus! {

/// The machine as a mathematical value: what a `CPU` stands for.
///
/// Every instruction is a function from one `Machine` to the next. An
/// instruction that cannot be carried out yields the machine it was given
/// with the halt flag raised and the reason recorded, and nothing else
/// changed.
#[verifier::ext_equal]
pub struct Machine {
    pub opcode: int,
    pub pc: int,
    pub memory: Seq<u8>,
    pub v: Seq<u8>,
    pub i: int,
    pub gfx: Seq<u8>,
    pub delay_timer: int,
    pub sound_timer: int,
    pub stack: Seq<u16>,
    pub key: Seq<u8>,
    pub sp: int,
    pub draw: bool,
    pub breakexe: bool,
    pub fault: Option<Fault>,
}

/// Index of the highest key below `upto` that is held, or -1 if none is.
pub open spec fn last_pressed(key: Seq<u8>, upto: int) -> int
    decreases upto,
{
    if upto <= 0 {
        -1
    } else if key[upto - 1] == 1 {
        upto - 1
    } else {
        last_pressed(key, upto - 1)
    }
}

impl Machine {
    /// Whether this is the value of some `CPU`: every array has its length
    /// and every number fits its register.
    pub open spec fn wf(self) -> bool {
        &&& 0 <= self.opcode <= 0xFFFF
        &&& 0 <= self.pc <= 0xFFFF
        &&& self.memory.len() == 4096
        &&& self.v.len() == 16
        &&& 0 <= self.i <= 0xFFFF
        &&& self.gfx.len() == 2048
        &&& 0 <= self.delay_timer <= 0xFF
        &&& 0 <= self.sound_timer <= 0xFF
        &&& self.stack.len() == 16
        &&& self.key.len() == 16
        &&& 0 <= self.sp <= usize::MAX
    }

    /// Whether every display cell holds 0 or 1.
    pub open spec fn display_is_binary(self) -> bool {
        forall|p: int| 0 <= p < 2048 ==> self.gfx[p] == 0 || self.gfx[p] == 1
    }

    /// The machine before anything is loaded: all zero, program counter at
    /// `0x200`.
    pub open spec fn initial() -> Machine {
        Machine {
            opcode: 0,
            pc: 0x200,
            memory: Seq::new(4096, |a: int| 0u8),
            v: Seq::new(16, |r: int| 0u8),
            i: 0,
            gfx: Seq::new(2048, |p: int| 0u8),
            delay_timer: 0,
            sound_timer: 0,
            stack: Seq::new(16, |s: int| 0u16),
            key: Seq::new(16, |k: int| 0u8),
            sp: 0,
            draw: false,
            breakexe: false,
            fault: None,
        }
    }

    /// The low twelve bits of the current instruction word.
    pub open spec fn nnn(self) -> int {
        self.opcode % 0x1000
    }

    /// The low eight bits of the current instruction word.
    pub open spec fn nn(self) -> int {
        self.opcode % 0x100
    }

    /// The program counter moved on by `by`, within its sixteen bits.
    pub open spec fn advance(self, by: int) -> Machine {
        Machine { pc: (self.pc + by) % 0x1_0000, ..self }
    }

    /// The program counter moved past the next instruction too if `taken`,
    /// and to the next instruction if not.
    pub open spec fn skip_if(self, taken: bool) -> Machine {
        self.advance(if taken { 4 } else { 2 })
    }

    /// Register `r` set to `value`.
    pub open spec fn with_register(self, r: int, value: int) -> Machine {
        Machine { v: self.v.update(r, value as u8), ..self }
    }

    /// The machine halted with `fault`, otherwise untouched.
    pub open spec fn halt(self, fault: Fault) -> Machine {
        Machine { breakexe: true, fault: Some(fault), ..self }
    }

    /// The machine halted because `address` is not one it can reach.
    pub open spec fn halt_at(self, address: int) -> Machine {
        self.halt(Fault::AddressOutOfRange { address: address as u32 })
    }

    /// `00E0`: every display cell off, redraw requested.
    pub open spec fn clear_screen(self) -> Machine {
        Machine { gfx: Seq::new(2048, |p: int| 0u8), draw: true, ..self }.advance(2)
    }

    /// `00EE`: the address saved last becomes the program counter.
    ///
    /// With nothing saved this is a stack underflow. A stack pointer beyond
    /// the sixteen slots names no slot and is a stack overflow.
    pub open spec fn return_from_call(self) -> Machine {
        if self.sp <= 0 {
            self.halt(Fault::StackUnderflow)
        } else if self.sp > 16 {
            self.halt(Fault::StackOverflow)
        } else {
            Machine { sp: self.sp - 1, pc: self.stack[self.sp - 1] as int, ..self }
        }
    }

    /// `1nnn`: the program counter becomes `nnn`.
    pub open spec fn jump(self) -> Machine {
        Machine { pc: self.nnn(), ..self }
    }

    /// `2nnn`: the address after this instruction is saved and the program
    /// counter becomes `nnn`. With all sixteen slots in use this is a stack
    /// overflow.
    pub open spec fn call(self) -> Machine {
        if self.sp < 0 || self.sp >= 16 {
            self.halt(Fault::StackOverflow)
        } else {
            Machine {
                stack: self.stack.update(self.sp, ((self.pc + 2) % 0x1_0000) as u16),
                sp: self.sp + 1,
                pc: self.nnn(),
                ..self
            }
        }
    }

    /// `3xnn`: skip the next instruction if `V[x] == nn`.
    pub open spec fn skip_if_equal_immediate(self, x: int) -> Machine {
        self.skip_if(self.v[x] == self.nn())
    }

    /// `4xnn`: skip the next instruction if `V[x] != nn`.
    pub open spec fn skip_if_not_equal_immediate(self, x: int) -> Machine {
        self.skip_if(self.v[x] != self.nn())
    }

    /// `5xy0`: skip the next instruction if `V[x] == V[y]`.
    pub open spec fn skip_if_registers_equal(self, x: int, y: int) -> Machine {
        self.skip_if(self.v[x] == self.v[y])
    }

    /// `9xy0`: skip the next instruction if `V[x] != V[y]`.
    pub open spec fn skip_if_registers_differ(self, x: int, y: int) -> Machine {
        self.skip_if(self.v[x] != self.v[y])
    }

    /// `6xnn`: `V[x]` becomes `nn`.
    pub open spec fn load_immediate(self, x: int) -> Machine {
        self.with_register(x, self.nn()).advance(2)
    }

    /// `7xnn`: `V[x]` becomes `(V[x] + nn) mod 256`; no flag is written.
    pub open spec fn add_immediate(self, x: int) -> Machine {
        self.with_register(x, (self.v[x] + self.nn()) % 256).advance(2)
    }

    /// `8xy0`: `V[x]` becomes `V[y]`.
    pub open spec fn copy_register(self, x: int, y: int) -> Machine {
        self.with_register(x, self.v[y] as int).advance(2)
    }

    /// `8xy1`: `V[x]` becomes `V[x] | V[y]`.
    pub open spec fn or_registers(self, x: int, y: int) -> Machine {
        self.with_register(x, (self.v[x] | self.v[y]) as int).advance(2)
    }

    /// `8xy2`: `V[x]` becomes `V[x] & V[y]`.
    pub open spec fn and_registers(self, x: int, y: int) -> Machine {
        self.with_register(x, (self.v[x] & self.v[y]) as int).advance(2)
    }

    /// `8xy3`: `V[x]` becomes `V[x] ^ V[y]`.
    pub open spec fn xor_registers(self, x: int, y: int) -> Machine {
        self.with_register(x, (self.v[x] ^ self.v[y]) as int).advance(2)
    }

    /// `8xy4`: `V[x]` becomes `(V[x] + V[y]) mod 256`, then `VF` becomes 1
    /// if the sum exceeded 255 and 0 if not.
    pub open spec fn add_registers(self, x: int, y: int) -> Machine {
        let sum = self.v[x] + self.v[y];
        self.with_register(x, sum % 256).with_register(0xF, if sum > 255 { 1 } else { 0 }).advance(2)
    }

    /// `8xy5`: `VF` becomes 0 if `V[y] > V[x]` and 1 if not, then `V[x]`
    /// becomes `(V[x] - V[y]) mod 256`, of the registers as the flag left
    /// them.
    pub open spec fn subtract_registers(self, x: int, y: int) -> Machine {
        let flagged = self.with_register(0xF, if self.v[y] > self.v[x] { 0 } else { 1 });
        flagged.with_register(x, (flagged.v[x] - flagged.v[y]) % 256).advance(2)
    }

    /// `8xy6`: `VF` becomes the low bit of `V[x]`, then `V[x]` is halved, as
    /// the flag left it.
    pub open spec fn shift_right(self, x: int) -> Machine {
        let flagged = self.with_register(0xF, (self.v[x] % 2) as int);
        flagged.with_register(x, (flagged.v[x] / 2) as int).advance(2)
    }

    /// `8xy7`: `VF` becomes 1 if `V[y] > V[x]` and 0 if not, then `V[x]`
    /// becomes `(V[y] - V[x]) mod 256`, of the registers as the flag left
    /// them.
    pub open spec fn reverse_subtract_registers(self, x: int, y: int) -> Machine {
        let flagged = self.with_register(0xF, if self.v[y] > self.v[x] { 1 } else { 0 });
        flagged.with_register(x, (flagged.v[y] - flagged.v[x]) % 256).advance(2)
    }

    /// `8xyE`: `VF` becomes the high bit of `V[x]`, then `V[x]` is doubled
    /// modulo 256, as the flag left it.
    pub open spec fn shift_left(self, x: int) -> Machine {
        let flagged = self.with_register(0xF, (self.v[x] / 128) as int);
        flagged.with_register(x, (flagged.v[x] * 2) % 256).advance(2)
    }

    /// `Annn`: the index register becomes `nnn`.
    pub open spec fn load_index(self) -> Machine {
        Machine { i: self.nnn(), ..self }.advance(2)
    }

    /// `Cxnn`: `V[x]` becomes `random & nn`.
    pub open spec fn load_random(self, x: int, random: u8) -> Machine {
        self.with_register(x, (random & (self.nn() as u8)) as int).advance(2)
    }

    /// Whether a sprite of `n` rows, read from memory at the index register
    /// and drawn with its origin at `(V[x], V[y])`, has a set pixel on display
    /// cell `p`.
    pub open spec fn sprite_covers(self, x: int, y: int, n: int, p: int) -> bool {
        let c = sprite_column(self.v[x] as int, p);
        let r = sprite_row(self.v[y] as int, p);
        c < 8 && r < n && sprite_bit(self.memory[self.i + r], c as u8)
    }

    /// Whether that sprite has a set pixel on a cell that holds 1.
    pub open spec fn sprite_collides(self, x: int, y: int, n: int) -> bool {
        exists|p: int| 0 <= p < 2048 && self.sprite_covers(x, y, n, p) && self.gfx[p] == 1
    }

    /// `Dxyn`: every cell under a set pixel of the sprite is flipped, `VF`
    /// becomes 1 if any of them held 1 and 0 if none did, and a redraw is
    /// requested. A sprite that does not lie within memory halts the machine
    /// with the address of its last row.
    pub open spec fn draw_sprite(self, x: int, y: int, n: int) -> Machine {
        if n > 0 && self.i + n > 4096 {
            self.halt_at(self.i + n - 1)
        } else {
            Machine {
                gfx: Seq::new(
                    2048,
                    |p: int|
                        if self.sprite_covers(x, y, n, p) {
                            self.gfx[p] ^ 1
                        } else {
                            self.gfx[p]
                        },
                ),
                v: self.v.update(0xF, if self.sprite_collides(x, y, n) { 1u8 } else { 0u8 }),
                draw: true,
                ..self
            }.advance(2)
        }
    }

    /// `Ex9E`: skip the next instruction if key `V[x]` is held. A `V[x]`
    /// above `0xF` names no key and halts the machine.
    pub open spec fn skip_if_key_pressed(self, x: int) -> Machine {
        if self.v[x] > 0xF {
            self.halt(Fault::KeyOutOfRange { key: self.v[x] })
        } else {
            self.skip_if(self.key[self.v[x] as int] == 1)
        }
    }

    /// `ExA1`: skip the next instruction if key `V[x]` is not held. A `V[x]`
    /// above `0xF` names no key and halts the machine.
    pub open spec fn skip_if_key_not_pressed(self, x: int) -> Machine {
        if self.v[x] > 0xF {
            self.halt(Fault::KeyOutOfRange { key: self.v[x] })
        } else {
            self.skip_if(self.key[self.v[x] as int] != 1)
        }
    }

    /// `Fx07`: `V[x]` becomes the delay timer.
    pub open spec fn read_delay_timer(self, x: int) -> Machine {
        self.with_register(x, self.delay_timer).advance(2)
    }

    /// `Fx0A`: if a key is held, `V[x]` becomes the index of the highest one
    /// and the program counter moves on; if none is, nothing changes and the
    /// instruction runs again on the next cycle.
    pub open spec fn wait_for_key(self, x: int) -> Machine {
        let k = last_pressed(self.key, 16);
        if k < 0 {
            self
        } else {
            self.with_register(x, k).advance(2)
        }
    }

    /// `Fx15`: the delay timer becomes `V[x]`.
    pub open spec fn set_delay_timer(self, x: int) -> Machine {
        Machine { delay_timer: self.v[x] as int, ..self }.advance(2)
    }

    /// `Fx18`: the sound timer becomes `V[x]`.
    pub open spec fn set_sound_timer(self, x: int) -> Machine {
        Machine { sound_timer: self.v[x] as int, ..self }.advance(2)
    }

    /// `Fx1E`: `VF` becomes 1 if `I + V[x]` exceeds `0xFFF` and 0 if not,
    /// then `V[x]`, as the flag left it, is added to the index register
    /// without wrapping. A sum that the sixteen bits of the index register
    /// cannot hold halts the machine.
    pub open spec fn add_to_index(self, x: int) -> Machine {
        let flagged = self.with_register(0xF, if self.i + self.v[x] > 0xFFF { 1 } else { 0 });
        let sum = self.i + flagged.v[x];
        if sum > 0xFFFF {
            self.halt_at(sum)
        } else {
            Machine { i: sum, ..flagged }.advance(2)
        }
    }

    /// `Fx29`: the index register becomes the address of the glyph for
    /// `V[x]`, five bytes per glyph from address 0.
    pub open spec fn font_address(self, x: int) -> Machine {
        Machine { i: self.v[x] * 5, ..self }.advance(2)
    }

    /// `Fx33`: the hundreds, tens and ones of `V[x]` are written to memory
    /// at `I`, `I + 1` and `I + 2`. If `I + 2` is not a memory address the
    /// machine halts with it.
    pub open spec fn store_bcd(self, x: int) -> Machine {
        if self.i + 2 >= 4096 {
            self.halt_at(self.i + 2)
        } else {
            Machine {
                memory: self.memory.update(self.i, (self.v[x] / 100) as u8).update(
                    self.i + 1,
                    ((self.v[x] / 10) % 10) as u8,
                ).update(self.i + 2, (self.v[x] % 10) as u8),
                ..self
            }.advance(2)
        }
    }

    /// `Fx55`: `V[0]` to `V[x]` are written to memory from `I` on; the index
    /// register stays. If `I + x` is not a memory address the machine halts
    /// with it.
    pub open spec fn dump_registers(self, x: int) -> Machine {
        if self.i + x >= 4096 {
            self.halt_at(self.i + x)
        } else {
            Machine {
                memory: Seq::new(
                    4096,
                    |a: int|
                        if self.i <= a <= self.i + x {
                            self.v[a - self.i]
                        } else {
                            self.memory[a]
                        },
                ),
                ..self
            }.advance(2)
        }
    }

    /// `Fx65`: `V[0]` to `V[x]` are read from memory from `I` on; the index
    /// register stays. If `I + x` is not a memory address the machine halts
    /// with it.
    pub open spec fn load_registers(self, x: int) -> Machine {
        if self.i + x >= 4096 {
            self.halt_at(self.i + x)
        } else {
            Machine {
                v: Seq::new(
                    16,
                    |r: int|
                        if r <= x {
                            self.memory[self.i + r]
                        } else {
                            self.v[r]
                        },
                ),
                ..self
            }.advance(2)
        }
    }

    /// A word that is no instruction: the machine halts with it, and the
    /// program counter stays.
    pub open spec fn unknown(self) -> Machine {
        self.halt(Fault::UnknownOpcode { opcode: self.opcode as u16 })
    }

    /// The first nibble of the current instruction word.
    pub open spec fn family(self) -> int {
        self.opcode / 0x1000
    }

    /// The second nibble of the current instruction word: the register `x`.
    pub open spec fn x(self) -> int {
        (self.opcode / 0x100) % 16
    }

    /// The third nibble of the current instruction word: the register `y`.
    pub open spec fn y(self) -> int {
        (self.opcode / 0x10) % 16
    }

    /// The last nibble of the current instruction word: the sprite height
    /// `n`.
    pub open spec fn n(self) -> int {
        self.opcode % 16
    }

    /// The current instruction word carried out. `random` is the byte that
    /// `Cxnn` consumes; no other instruction looks at it.
    pub open spec fn execute(self, random: u8) -> Machine {
        let x = self.x();
        let y = self.y();
        let n = self.n();
        let family = self.family();
        if self.opcode == 0x00E0 {
            self.clear_screen()
        } else if self.opcode == 0x00EE {
            self.return_from_call()
        } else if family == 0x1 {
            self.jump()
        } else if family == 0x2 {
            self.call()
        } else if family == 0x3 {
            self.skip_if_equal_immediate(x)
        } else if family == 0x4 {
            self.skip_if_not_equal_immediate(x)
        } else if family == 0x5 && n == 0x0 {
            self.skip_if_registers_equal(x, y)
        } else if family == 0x6 {
            self.load_immediate(x)
        } else if family == 0x7 {
            self.add_immediate(x)
        } else if family == 0x8 && n == 0x0 {
            self.copy_register(x, y)
        } else if family == 0x8 && n == 0x1 {
            self.or_registers(x, y)
        } else if family == 0x8 && n == 0x2 {
            self.and_registers(x, y)
        } else if family == 0x8 && n == 0x3 {
            self.xor_registers(x, y)
        } else if family == 0x8 && n == 0x4 {
            self.add_registers(x, y)
        } else if family == 0x8 && n == 0x5 {
            self.subtract_registers(x, y)
        } else if family == 0x8 && n == 0x6 {
            self.shift_right(x)
        } else if family == 0x8 && n == 0x7 {
            self.reverse_subtract_registers(x, y)
        } else if family == 0x8 && n == 0xE {
            self.shift_left(x)
        } else if family == 0x9 && n == 0x0 {
            self.skip_if_registers_differ(x, y)
        } else if family == 0xA {
            self.load_index()
        } else if family == 0xC {
            self.load_random(x, random)
        } else if family == 0xD {
            self.draw_sprite(x, y, n)
        } else if family == 0xE && self.nn() == 0x9E {
            self.skip_if_key_pressed(x)
        } else if family == 0xE && self.nn() == 0xA1 {
            self.skip_if_key_not_pressed(x)
        } else if family == 0xF && self.nn() == 0x07 {
            self.read_delay_timer(x)
        } else if family == 0xF && self.nn() == 0x0A {
            self.wait_for_key(x)
        } else if family == 0xF && self.nn() == 0x15 {
            self.set_delay_timer(x)
        } else if family == 0xF && self.nn() == 0x18 {
            self.set_sound_timer(x)
        } else if family == 0xF && self.nn() == 0x1E {
            self.add_to_index(x)
        } else if family == 0xF && self.nn() == 0x29 {
            self.font_address(x)
        } else if family == 0xF && self.nn() == 0x33 {
            self.store_bcd(x)
        } else if family == 0xF && self.nn() == 0x55 {
            self.dump_registers(x)
        } else if family == 0xF && self.nn() == 0x65 {
            self.load_registers(x)
        } else {
            self.unknown()
        }
    }

    /// Whether the current instruction word is `Cxnn`, the one instruction
    /// whose outcome depends on the random byte.
    pub open spec fn is_random(self) -> bool {
        self.family() == 0xC
    }

    /// The word at the program counter, high byte first, made the current
    /// instruction word.
    pub open spec fn fetched(self) -> Machine {
        Machine { opcode: self.memory[self.pc] * 256 + self.memory[self.pc + 1], ..self }
    }

    /// One cycle: the word at the program counter is fetched and carried
    /// out. If the program counter does not address two bytes of memory the
    /// machine halts with the address of the second.
    pub open spec fn step(self, random: u8) -> Machine {
        if self.pc + 1 >= 4096 {
            self.halt_at(self.pc + 1)
        } else {
            self.fetched().execute(random)
        }
    }

    /// The machine with the font table in its first eighty memory cells.
    pub open spec fn with_font(self, font: Seq<u8>) -> Machine {
        Machine {
            memory: Seq::new(
                4096,
                |a: int|
                    if a < 80 {
                        font[a]
                    } else {
                        self.memory[a]
                    },
            ),
            ..self
        }
    }

    /// The machine with `image` copied into memory from address `0x200` on.
    pub open spec fn with_program(self, image: Seq<u8>) -> Machine {
        Machine {
            memory: Seq::new(
                4096,
                |a: int|
                    if 0x200 <= a < 0x200 + image.len() {
                        image[a - 0x200]
                    } else {
                        self.memory[a]
                    },
            ),
            ..self
        }
    }

    /// Whether the next tick is the one on which the tone sounds: the sound
    /// timer stands at 1.
    pub open spec fn beeps(self) -> bool {
        self.sound_timer == 1
    }

    /// One tick of the clock: each timer that is not zero goes down by one.
    pub open spec fn tick(self) -> Machine {
        Machine {
            delay_timer: if self.delay_timer > 0 {
                self.delay_timer - 1
            } else {
                0
            },
            sound_timer: if self.sound_timer > 0 {
                self.sound_timer - 1
            } else {
                0
            },
            ..self
        }
    }

    /// The display as 24-bit pixels, three equal bytes per cell: 255 for a
    /// cell that is on, 0 for any other.
    pub open spec fn frame(self) -> Seq<u8> {
        Seq::new(6144, |k: int| if self.gfx[k / 3] == 1 { 255u8 } else { 0u8 })
    }
}

} // verus!
