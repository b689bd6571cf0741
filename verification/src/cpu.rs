use vstd::prelude::*;
use crate::fault::Fault;
use crate::machine::{last_pressed, Machine};
use crate::rng::random_byte;
use crate::drawing::{drawn_before, lemma_draw_done, lemma_draw_row, lemma_draw_step};

verus! {

/// The interpreter: memory, registers, stack, timers, display and keys.
///
/// The fields are open to the loader, the renderer and the input source.
/// No instruction asks anything of the state it finds: where one cannot be
/// carried out, it raises `breakexe`, records the reason in `fault` and
/// leaves everything else as it was.
pub struct CPU {
    /// The instruction word fetched last.
    pub opcode: u16,
    /// Address of the next instruction.
    pub pc: u16,
    /// The 4096 memory cells: font from 0, program from `0x200`.
    pub memory: [u8; 4096],
    /// The registers `V0` to `VF`.
    pub v: [u8; 16],
    /// The index register.
    pub i: u16,
    /// The display, row by row, one cell per byte: 0 is off, 1 is on.
    pub gfx: [u8; 2048],
    /// Counts down to zero, one per tick.
    pub delay_timer: u8,
    /// Counts down to zero, one per tick; the tone sounds as it leaves 1.
    pub sound_timer: u8,
    /// Saved return addresses; the first `sp` slots are in use.
    pub stack: [u16; 16],
    /// One slot per key: 1 while the key is held.
    pub key: [u8; 16],
    /// Number of saved return addresses.
    pub sp: usize,
    /// Set whenever the display changes; the renderer clears it.
    pub draw: bool,
    /// The halt flag.
    pub breakexe: bool,
    /// Why the halt flag was raised last.
    pub fault: Option<Fault>,
}

impl View for CPU {
    type V = Machine;

    open spec fn view(&self) -> Machine {
        Machine {
            opcode: self.opcode as int,
            pc: self.pc as int,
            memory: self.memory@,
            v: self.v@,
            i: self.i as int,
            gfx: self.gfx@,
            delay_timer: self.delay_timer as int,
            sound_timer: self.sound_timer as int,
            stack: self.stack@,
            key: self.key@,
            sp: self.sp as int,
            draw: self.draw,
            breakexe: self.breakexe,
            fault: self.fault,
        }
    }
}

impl CPU {
    /// A machine in its initial state.
    pub fn initialize() -> (cpu: CPU)
        ensures
            cpu@ == Machine::initial(),
    {
        let cpu = CPU {
            opcode: 0,
            pc: 0x200,
            v: [0u8; 16],
            memory: [0u8; 4096],
            gfx: [0u8; 2048],
            i: 0,
            delay_timer: 0,
            sound_timer: 0,
            stack: [0u16; 16],
            key: [0u8; 16],
            sp: 0,
            draw: false,
            breakexe: false,
            fault: None,
        };
        assert(cpu@ =~= Machine::initial());
        cpu
    }

    /// The low twelve bits of the current instruction word.
    pub fn get_nnn(&self) -> (nnn: usize)
        ensures
            nnn == self@.nnn(),
    {
        let opcode: u16 = self.opcode;
        assert(opcode & 0x0FFF == opcode % 0x1000) by (bit_vector);
        (self.opcode & 0x0FFF) as usize
    }

    /// The low eight bits of the current instruction word.
    pub fn get_nn(&self) -> (nn: usize)
        ensures
            nn == self@.nn(),
    {
        let opcode: u16 = self.opcode;
        assert(opcode & 0x00FF == opcode % 0x100) by (bit_vector);
        (self.opcode & 0x00FF) as usize
    }

    /// Raises the halt flag and records `fault`.
    fn halt(&mut self, fault: Fault)
        ensures
            final(self)@ == old(self)@.halt(fault),
    {
        self.breakexe = true;
        self.fault = Some(fault);
    }

    /// Moves the program counter to the next instruction, or past it if
    /// `taken`.
    fn skip_if(&mut self, taken: bool)
        ensures
            final(self)@ == old(self)@.skip_if(taken),
    {
        if taken {
            self.pc = self.pc.wrapping_add(4);
        } else {
            self.pc = self.pc.wrapping_add(2);
        }
    }

    /// `00EE`, return from call.
    pub fn op_00ee(&mut self)
        ensures
            final(self)@ == old(self)@.return_from_call(),
    {
        if self.sp == 0 {
            self.halt(Fault::StackUnderflow);
        } else if self.sp > 16 {
            self.halt(Fault::StackOverflow);
        } else {
            self.sp -= 1;
            self.pc = self.stack[self.sp];
        }
    }

    /// `00E0`, clear the screen.
    pub fn op_00e0(&mut self)
        ensures
            final(self)@ == old(self)@.clear_screen(),
    {
        let mut p: usize = 0;
        while p < 2048
            invariant
                p <= 2048,
                self@ == (Machine {
                    gfx: Seq::new(2048, |q: int| if q < p { 0u8 } else { old(self).gfx@[q] }),
                    ..old(self)@
                }),
            decreases 2048 - p,
        {
            self.gfx[p] = 0;
            p += 1;
        }
        self.draw = true;
        self.pc = self.pc.wrapping_add(2);
    }

    /// `1nnn`, jump.
    pub fn op_1nnn(&mut self)
        ensures
            final(self)@ == old(self)@.jump(),
    {
        self.pc = self.get_nnn() as u16;
    }

    /// `2nnn`, call.
    pub fn op_2nnn(&mut self)
        ensures
            final(self)@ == old(self)@.call(),
    {
        if self.sp >= 16 {
            self.halt(Fault::StackOverflow);
        } else {
            self.stack[self.sp] = self.pc.wrapping_add(2);
            self.sp += 1;
            self.pc = self.get_nnn() as u16;
        }
    }

    /// `3xnn`, skip if `V[x]` equals `nn`.
    pub fn op_3xnn(&mut self, x: usize)
        requires
            x < 16,
        ensures
            final(self)@ == old(self)@.skip_if_equal_immediate(x as int),
    {
        let taken = self.v[x] as usize == self.get_nn();
        self.skip_if(taken);
    }

    /// `4xnn`, skip if `V[x]` differs from `nn`.
    pub fn op_4xnn(&mut self, x: usize)
        requires
            x < 16,
        ensures
            final(self)@ == old(self)@.skip_if_not_equal_immediate(x as int),
    {
        let taken = self.v[x] as usize != self.get_nn();
        self.skip_if(taken);
    }

    /// `5xy0`, skip if `V[x]` equals `V[y]`.
    pub fn op_5xy0(&mut self, x: usize, y: usize)
        requires
            x < 16,
            y < 16,
        ensures
            final(self)@ == old(self)@.skip_if_registers_equal(x as int, y as int),
    {
        let taken = self.v[x] == self.v[y];
        self.skip_if(taken);
    }

    /// `Annn`, load the index register.
    pub fn op_annn(&mut self)
        ensures
            final(self)@ == old(self)@.load_index(),
    {
        self.i = self.get_nnn() as u16;
        self.pc = self.pc.wrapping_add(2);
    }

    /// `6xnn`, load immediate.
    pub fn op_6xnn(&mut self, x: usize)
        requires
            x < 16,
        ensures
            final(self)@ == old(self)@.load_immediate(x as int),
    {
        self.v[x] = self.get_nn() as u8;
        self.pc = self.pc.wrapping_add(2);
    }

    /// `7xnn`, add immediate: `V[x]` wraps around at 256 and no flag is
    /// written.
    pub fn op_7xnn(&mut self, x: usize)
        requires
            x < 16,
        ensures
            final(self)@ == old(self)@.add_immediate(x as int),
            final(self).v[x as int] == (old(self).v[x as int] + old(self)@.nn()) % 256,
            forall|r: int| 0 <= r < 16 && r != x ==> final(self).v[r] == old(self).v[r],
    {
        let vx: u16 = self.v[x] as u16;
        let val: u16 = self.get_nn() as u16;
        let result: u8 = ((vx + val) % 256) as u8;
        self.v[x] = result;
        self.pc = self.pc.wrapping_add(2);
    }

    /// `8xy0`, copy `V[y]` to `V[x]`.
    pub fn op_8xy0(&mut self, x: usize, y: usize)
        requires
            x < 16,
            y < 16,
        ensures
            final(self)@ == old(self)@.copy_register(x as int, y as int),
    {
        self.v[x] = self.v[y];
        self.pc = self.pc.wrapping_add(2);
    }

    /// `8xy1`, bitwise or.
    pub fn op_8xy1(&mut self, x: usize, y: usize)
        requires
            x < 16,
            y < 16,
        ensures
            final(self)@ == old(self)@.or_registers(x as int, y as int),
    {
        self.v[x] = self.v[x] | self.v[y];
        self.pc = self.pc.wrapping_add(2);
    }

    /// `8xy2`, bitwise and.
    pub fn op_8xy2(&mut self, x: usize, y: usize)
        requires
            x < 16,
            y < 16,
        ensures
            final(self)@ == old(self)@.and_registers(x as int, y as int),
    {
        self.v[x] = self.v[x] & self.v[y];
        self.pc = self.pc.wrapping_add(2);
    }

    /// `8xy3`, bitwise exclusive or.
    pub fn op_8xy3(&mut self, x: usize, y: usize)
        requires
            x < 16,
            y < 16,
        ensures
            final(self)@ == old(self)@.xor_registers(x as int, y as int),
    {
        self.v[x] = self.v[x] ^ self.v[y];
        self.pc = self.pc.wrapping_add(2);
    }

    /// `8xy4`, add registers: `VF` is the carry.
    pub fn op_8xy4(&mut self, x: usize, y: usize)
        requires
            x < 16,
            y < 16,
        ensures
            final(self)@ == old(self)@.add_registers(x as int, y as int),
    {
        let vx: u16 = self.v[x] as u16;
        let vy: u16 = self.v[y] as u16;
        let sum: u16 = vx + vy;
        self.v[x] = (sum % 256) as u8;
        if sum > 255 {
            self.v[0xF] = 1;
        } else {
            self.v[0xF] = 0;
        }
        self.pc = self.pc.wrapping_add(2);
    }

    /// `8xy5`, subtract `V[y]` from `V[x]`: `VF` is 0 on a borrow.
    pub fn op_8xy5(&mut self, x: usize, y: usize)
        requires
            x < 16,
            y < 16,
        ensures
            final(self)@ == old(self)@.subtract_registers(x as int, y as int),
    {
        if self.v[y] > self.v[x] {
            self.v[0xF] = 0;
        } else {
            self.v[0xF] = 1;
        }
        self.v[x] = self.v[x].wrapping_sub(self.v[y]);
        self.pc = self.pc.wrapping_add(2);
    }

    /// `8xy6`, shift `V[x]` right by one: `VF` is the bit shifted out.
    pub fn op_8xy6(&mut self, x: usize)
        requires
            x < 16,
        ensures
            final(self)@ == old(self)@.shift_right(x as int),
    {
        let vx: u8 = self.v[x];
        assert(vx & 1 == vx % 2) by (bit_vector);
        self.v[0xF] = vx & 1;
        let flagged: u8 = self.v[x];
        assert(flagged >> 1 == flagged / 2) by (bit_vector);
        self.v[x] = flagged >> 1;
        self.pc = self.pc.wrapping_add(2);
    }

    /// `8xy7`, subtract `V[x]` from `V[y]` into `V[x]`: `VF` is 1 if
    /// `V[y]` was the larger.
    pub fn op_8xy7(&mut self, x: usize, y: usize)
        requires
            x < 16,
            y < 16,
        ensures
            final(self)@ == old(self)@.reverse_subtract_registers(x as int, y as int),
    {
        if self.v[y] > self.v[x] {
            self.v[0xF] = 1;
        } else {
            self.v[0xF] = 0;
        }
        self.v[x] = self.v[y].wrapping_sub(self.v[x]);
        self.pc = self.pc.wrapping_add(2);
    }

    /// `8xyE`, shift `V[x]` left by one: `VF` is the bit shifted out.
    pub fn op_8x0e(&mut self, x: usize)
        requires
            x < 16,
        ensures
            final(self)@ == old(self)@.shift_left(x as int),
    {
        let vx: u8 = self.v[x];
        assert((vx & 0b10000000) >> 7 == vx / 128) by (bit_vector);
        self.v[0xF] = (vx & 0b10000000) >> 7;
        let flagged: u8 = self.v[x];
        assert(flagged << 1 == (flagged * 2) % 256) by (bit_vector);
        self.v[x] = flagged << 1;
        self.pc = self.pc.wrapping_add(2);
    }

    /// `9xy0`, skip if `V[x]` differs from `V[y]`.
    pub fn op_9xy0(&mut self, x: usize, y: usize)
        requires
            x < 16,
            y < 16,
        ensures
            final(self)@ == old(self)@.skip_if_registers_differ(x as int, y as int),
    {
        let taken = self.v[x] != self.v[y];
        self.skip_if(taken);
    }

    /// `ExA1`, skip if key `V[x]` is not held.
    pub fn op_exa1(&mut self, x: usize)
        requires
            x < 16,
        ensures
            final(self)@ == old(self)@.skip_if_key_not_pressed(x as int),
    {
        let k: u8 = self.v[x];
        if k > 0xF {
            self.halt(Fault::KeyOutOfRange { key: k });
        } else {
            let taken = self.key[k as usize] != 1;
            self.skip_if(taken);
        }
    }

    /// `Cxnn` with the random byte given: `V[x]` becomes `random_number &
    /// nn`.
    pub fn op_cxnn_with(&mut self, x: usize, random_number: u8)
        requires
            x < 16,
        ensures
            final(self)@ == old(self)@.load_random(x as int, random_number),
    {
        self.v[x] = random_number & (self.get_nn() as u8);
        self.pc = self.pc.wrapping_add(2);
    }

    /// `Cxnn`, load a random byte masked by `nn`: the outcome is that of
    /// `op_cxnn_with` for some byte.
    pub fn op_cxnn(&mut self, x: usize)
        requires
            x < 16,
        ensures
            exists|random: u8| final(self)@ == old(self)@.load_random(x as int, random),
    {
        let random_number: u8 = random_byte();
        self.op_cxnn_with(x, random_number);
    }

    /// `Ex9E`, skip if key `V[x]` is held.
    pub fn op_ex9e(&mut self, x: usize)
        requires
            x < 16,
        ensures
            final(self)@ == old(self)@.skip_if_key_pressed(x as int),
    {
        let k: u8 = self.v[x];
        if k > 0xF {
            self.halt(Fault::KeyOutOfRange { key: k });
        } else {
            let taken = self.key[k as usize] == 1;
            self.skip_if(taken);
        }
    }

    /// `Fx07`, read the delay timer.
    pub fn op_fx07(&mut self, x: usize)
        requires
            x < 16,
        ensures
            final(self)@ == old(self)@.read_delay_timer(x as int),
    {
        self.v[x] = self.delay_timer;
        self.pc = self.pc.wrapping_add(2);
    }

    /// `Fx15`, set the delay timer.
    pub fn op_fx15(&mut self, x: usize)
        requires
            x < 16,
        ensures
            final(self)@ == old(self)@.set_delay_timer(x as int),
    {
        self.delay_timer = self.v[x];
        self.pc = self.pc.wrapping_add(2);
    }

    /// `Fx18`, set the sound timer.
    pub fn op_fx18(&mut self, x: usize)
        requires
            x < 16,
        ensures
            final(self)@ == old(self)@.set_sound_timer(x as int),
    {
        self.sound_timer = self.v[x];
        self.pc = self.pc.wrapping_add(2);
    }

    /// `Fx29`, point the index register at the glyph for `V[x]`.
    pub fn op_fx29(&mut self, x: usize)
        requires
            x < 16,
        ensures
            final(self)@ == old(self)@.font_address(x as int),
    {
        self.i = self.v[x] as u16 * 0x5;
        self.pc = self.pc.wrapping_add(2);
    }

    /// Raises the halt flag over an address that cannot be reached.
    fn halt_at(&mut self, address: u32)
        ensures
            final(self)@ == old(self)@.halt_at(address as int),
    {
        self.halt(Fault::AddressOutOfRange { address });
    }

    /// `Fx0A`, wait for a key: with no key held nothing changes, so that the
    /// instruction runs again on the next cycle.
    pub fn op_fx0a(&mut self, x: usize)
        requires
            x < 16,
        ensures
            final(self)@ == old(self)@.wait_for_key(x as int),
    {
        let mut keypress = false;
        let mut k: u8 = 0;
        while k < 16
            invariant
                k <= 16,
                x < 16,
                keypress == (last_pressed(old(self).key@, k as int) >= 0),
                !keypress ==> self@ == old(self)@,
                keypress ==> self@ == old(self)@.with_register(
                    x as int,
                    last_pressed(old(self).key@, k as int),
                ),
            decreases 16 - k,
        {
            if self.key[k as usize] == 1 {
                self.v[x] = k;
                keypress = true;
            }
            k += 1;
        }
        if keypress == true {
            self.pc = self.pc.wrapping_add(2);
        }
    }

    /// `Fx1E`, add `V[x]` to the index register: `VF` tells whether the sum
    /// left the twelve bits of an address.
    pub fn op_fx1e(&mut self, x: usize)
        requires
            x < 16,
        ensures
            final(self)@ == old(self)@.add_to_index(x as int),
    {
        let flag: u8 = if self.i as u32 + self.v[x] as u32 > 0xfff {
            1
        } else {
            0
        };
        let addend: u8 = if x == 0xF {
            flag
        } else {
            self.v[x]
        };
        let sum: u32 = self.i as u32 + addend as u32;
        if sum > 0xFFFF {
            self.halt_at(sum);
        } else {
            self.v[0xF] = flag;
            self.i = sum as u16;
            self.pc = self.pc.wrapping_add(2);
        }
    }

    /// `Fx55`, dump `V[0]` to `V[x]` into memory at the index register,
    /// which stays where it is.
    pub fn op_fx55(&mut self, x: usize)
        requires
            x < 16,
        ensures
            final(self)@ == old(self)@.dump_registers(x as int),
    {
        let base: usize = self.i as usize;
        if base + x >= 4096 {
            self.halt_at((base + x) as u32);
        } else {
            let mut m: usize = 0;
            while m <= x
                invariant
                    x < 16,
                    m <= x + 1,
                    base == old(self).i,
                    base + x < 4096,
                    self@ == (Machine {
                        memory: Seq::new(
                            4096,
                            |a: int|
                                if base <= a < base + m {
                                    old(self).v@[a - base]
                                } else {
                                    old(self).memory@[a]
                                },
                        ),
                        ..old(self)@
                    }),
                decreases x + 1 - m,
            {
                self.memory[base + m] = self.v[m];
                m += 1;
            }
            self.pc = self.pc.wrapping_add(2);
        }
    }

    /// `Fx65`, load `V[0]` to `V[x]` from memory at the index register,
    /// which stays where it is.
    pub fn op_fx65(&mut self, x: usize)
        requires
            x < 16,
        ensures
            final(self)@ == old(self)@.load_registers(x as int),
    {
        let base: usize = self.i as usize;
        if base + x >= 4096 {
            self.halt_at((base + x) as u32);
        } else {
            let mut m: usize = 0;
            while m <= x
                invariant
                    x < 16,
                    m <= x + 1,
                    base == old(self).i,
                    base + x < 4096,
                    self@ == (Machine {
                        v: Seq::new(
                            16,
                            |r: int|
                                if r < m {
                                    old(self).memory@[base + r]
                                } else {
                                    old(self).v@[r]
                                },
                        ),
                        ..old(self)@
                    }),
                decreases x + 1 - m,
            {
                self.v[m] = self.memory[base + m];
                m += 1;
            }
            self.pc = self.pc.wrapping_add(2);
        }
    }

    /// `Fx33`, write the decimal digits of `V[x]` to memory at the index
    /// register, hundreds first.
    pub fn op_fx33(&mut self, x: usize)
        requires
            x < 16,
        ensures
            final(self)@ == old(self)@.store_bcd(x as int),
    {
        let base: usize = self.i as usize;
        if base + 2 >= 4096 {
            self.halt_at((base + 2) as u32);
        } else {
            self.memory[base] = self.v[x] / 100;
            self.memory[base + 1] = (self.v[x] / 10) % 10;
            self.memory[base + 2] = self.v[x] % 10;
            self.pc = self.pc.wrapping_add(2);
        }
    }

    /// `Dxyn`, draw a sprite of `height` rows at `(V[x], V[y])`: cells
    /// under its set pixels are flipped, coordinates wrap around each axis,
    /// and `VF` tells whether any cell that was on went off.
    pub fn op_dxyn(&mut self, x: usize, y: usize, height: usize)
        requires
            x < 16,
            y < 16,
            height < 16,
        ensures
            final(self)@ == old(self)@.draw_sprite(x as int, y as int, height as int),
    {
        let vx: usize = self.v[x] as usize;
        let vy: usize = self.v[y] as usize;
        let base: usize = self.i as usize;
        if height > 0 && base + height > 4096 {
            self.halt_at((base + height - 1) as u32);
            return ;
        }
        let ghost m = old(self)@;
        self.v[0xF] = 0;
        let mut yline: usize = 0;
        while yline < height
            invariant
                x < 16,
                y < 16,
                yline <= height < 16,
                height > 0 ==> base + height <= 4096,
                m == old(self)@,
                vx == m.v[x as int],
                vy == m.v[y as int],
                base == m.i,
                self@ == drawn_before(m, x as int, y as int, yline as int, 0),
            decreases height - yline,
        {
            let pixel: u8 = self.memory[base + yline];
            let mut xline: u8 = 0;
            while xline < 8
                invariant
                    x < 16,
                    y < 16,
                    yline < height < 16,
                    xline <= 8,
                    base + height <= 4096,
                    m == old(self)@,
                    vx == m.v[x as int],
                    vy == m.v[y as int],
                    base == m.i,
                    pixel == m.memory[base + yline],
                    self@ == drawn_before(m, x as int, y as int, yline as int, xline as int),
                decreases 8 - xline,
            {
                proof {
                    lemma_draw_step(m, x as int, y as int, yline as int, xline as int);
                }
                if pixel & (0x80u8 >> xline) != 0 {
                    let pos: usize = ((vx + xline as usize) % 64) + (((vy + yline) % 32) * 64);
                    let flag: u8 = self.v[0xF];
                    let hit: u8 = if self.gfx[pos] == 1 {
                        1
                    } else {
                        0
                    };
                    assert(flag | hit == (if flag == 1 || hit == 1 { 1u8 } else { 0u8 }))
                        by (bit_vector)
                        requires
                            flag == 0 || flag == 1,
                            hit == 0 || hit == 1,
                    ;
                    self.v[0xF] = flag | hit;
                    self.gfx[pos] ^= 1;
                }
                xline += 1;
            }
            proof {
                lemma_draw_row(m, x as int, y as int, yline as int);
            }
            yline += 1;
        }
        proof {
            lemma_draw_done(m, x as int, y as int, height as int);
        }
        self.draw = true;
        self.pc = self.pc.wrapping_add(2);
    }

    /// A word that is no instruction: halt and keep the word as the
    /// diagnostic.
    pub fn unknown(&mut self)
        ensures
            final(self)@ == old(self)@.unknown(),
    {
        self.halt(Fault::UnknownOpcode { opcode: self.opcode });
    }

    /// Carries out the current instruction word with the random byte
    /// given: the four nibbles of the word select one instruction, and a
    /// word that selects none halts the machine. Only `Cxnn` looks at
    /// `random_number`.
    pub fn decode_opcode_with(&mut self, random_number: u8)
        ensures
            final(self)@ == old(self)@.execute(random_number),
    {
        let opcode: u16 = self.opcode;
        let nibbles: (u16, u16, u16, u16) = (
            (opcode & 0xF000) >> 12,
            (opcode & 0x0F00) >> 8,
            (opcode & 0x00F0) >> 4,
            opcode & 0x000F,
        );
        assert((opcode & 0xF000) >> 12 == opcode / 0x1000) by (bit_vector);
        assert((opcode & 0x0F00) >> 8 == (opcode / 0x100) % 16) by (bit_vector);
        assert((opcode & 0x00F0) >> 4 == (opcode / 0x10) % 16) by (bit_vector);
        assert(opcode & 0x000F == opcode % 16) by (bit_vector);
        assert(opcode == (opcode / 0x1000) * 0x1000 + ((opcode / 0x100) % 16) * 0x100 + ((opcode
            / 0x10) % 16) * 0x10 + opcode % 16) by (bit_vector);
        assert(opcode % 0x100 == ((opcode / 0x10) % 16) * 0x10 + opcode % 16) by (bit_vector);
        let x: usize = nibbles.1 as usize;
        let y: usize = nibbles.2 as usize;
        let n: usize = nibbles.3 as usize;

        match nibbles {
            (0x00, 0x00, 0x0e, 0x00) => self.op_00e0(),
            (0x00, 0x00, 0x0e, 0x0e) => self.op_00ee(),
            (0x01, _, _, _) => self.op_1nnn(),
            (0x02, _, _, _) => self.op_2nnn(),
            (0x03, _, _, _) => self.op_3xnn(x),
            (0x04, _, _, _) => self.op_4xnn(x),
            (0x05, _, _, 0x00) => self.op_5xy0(x, y),
            (0x06, _, _, _) => self.op_6xnn(x),
            (0x07, _, _, _) => self.op_7xnn(x),
            (0x08, _, _, 0x00) => self.op_8xy0(x, y),
            (0x08, _, _, 0x01) => self.op_8xy1(x, y),
            (0x08, _, _, 0x02) => self.op_8xy2(x, y),
            (0x08, _, _, 0x03) => self.op_8xy3(x, y),
            (0x08, _, _, 0x04) => self.op_8xy4(x, y),
            (0x08, _, _, 0x05) => self.op_8xy5(x, y),
            (0x08, _, _, 0x06) => self.op_8xy6(x),
            (0x08, _, _, 0x07) => self.op_8xy7(x, y),
            (0x08, _, _, 0x0e) => self.op_8x0e(x),
            (0x09, _, _, 0x00) => self.op_9xy0(x, y),
            (0x0a, _, _, _) => self.op_annn(),
            (0x0c, _, _, _) => self.op_cxnn_with(x, random_number),
            (0x0d, _, _, _) => self.op_dxyn(x, y, n),
            (0x0e, _, 0x09, 0x0e) => self.op_ex9e(x),
            (0x0e, _, 0x0a, 0x01) => self.op_exa1(x),
            (0x0f, _, 0x00, 0x07) => self.op_fx07(x),
            (0x0f, _, 0x00, 0x0a) => self.op_fx0a(x),
            (0x0f, _, 0x01, 0x05) => self.op_fx15(x),
            (0x0f, _, 0x01, 0x08) => self.op_fx18(x),
            (0x0f, _, 0x01, 0x0e) => self.op_fx1e(x),
            (0x0f, _, 0x02, 0x09) => self.op_fx29(x),
            (0x0f, _, 0x03, 0x03) => self.op_fx33(x),
            (0x0f, _, 0x05, 0x05) => self.op_fx55(x),
            (0x0f, _, 0x06, 0x05) => self.op_fx65(x),
            _ => self.unknown(),
        }
    }

    /// Carries out the current instruction word. The outcome is that of
    /// `decode_opcode_with` for some random byte, which is drawn only if
    /// the word is `Cxnn`.
    pub fn decode_opcode(&mut self)
        ensures
            exists|random: u8| final(self)@ == old(self)@.execute(random),
            !old(self)@.is_random() ==> final(self)@ == old(self)@.execute(0),
    {
        let opcode: u16 = self.opcode;
        assert((opcode & 0xF000) >> 12 == opcode / 0x1000) by (bit_vector);
        let random_number: u8 = if (opcode & 0xF000) >> 12 == 0x0c {
            random_byte()
        } else {
            0
        };
        self.decode_opcode_with(random_number);
    }

    /// Makes the word at the program counter, high byte first, the current
    /// instruction word and tells so; halts the machine instead if the
    /// program counter does not address two bytes of memory.
    fn fetch(&mut self) -> (fetched: bool)
        ensures
            fetched == (old(self).pc + 1 < 4096),
            fetched ==> final(self)@ == old(self)@.fetched(),
            !fetched ==> final(self)@ == old(self)@.halt_at(old(self).pc + 1),
    {
        let pc: usize = self.pc as usize;
        if pc + 1 >= 4096 {
            self.halt_at((pc + 1) as u32);
            false
        } else {
            let high: u16 = self.memory[pc] as u16;
            let low: u16 = self.memory[pc + 1] as u16;
            assert(high << 8 | low == high * 256 + low) by (bit_vector)
                requires
                    high < 256,
                    low < 256,
            ;
            self.opcode = high << 8 | low;
            true
        }
    }

    /// One cycle with the random byte given: fetches the word at the
    /// program counter and carries it out. A program counter that does not
    /// address two bytes of memory halts the machine.
    pub fn fetch_opcode_with(&mut self, random_number: u8)
        ensures
            final(self)@ == old(self)@.step(random_number),
    {
        if self.fetch() {
            self.decode_opcode_with(random_number);
        }
    }

    /// One cycle: fetches the word at the program counter and carries it
    /// out. The outcome is that of `fetch_opcode_with` for some random byte,
    /// which is drawn only if the word is `Cxnn`.
    pub fn fetch_opcode(&mut self)
        ensures
            exists|random: u8| final(self)@ == old(self)@.step(random),
            old(self).pc + 1 >= 4096 || !old(self)@.fetched().is_random() ==> final(self)@ == old(
                self,
            )@.step(0),
    {
        if self.fetch() {
            let ghost fetched = self@;
            self.decode_opcode();
            proof {
                let random = choose|random: u8| self@ == fetched.execute(random);
                assert(old(self)@.step(random) == fetched.execute(random));
            }
        } else {
            assert(self@ == old(self)@.step(0));
        }
    }
}

} // verus!
