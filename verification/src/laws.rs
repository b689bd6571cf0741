use vstd::prelude::*;
use crate::cpu::CPU;
use crate::fault::Fault;
use crate::machine::Machine;
use crate::sprite::{lemma_target_cell, sprite_bit, target_cell};

verus! {

/// Whether `opcode` is the word of an instruction.
pub open spec fn is_instruction(opcode: int) -> bool {
    let family = opcode / 0x1000;
    let n = opcode % 16;
    let nn = opcode % 0x100;
    ||| opcode == 0x00E0
    ||| opcode == 0x00EE
    ||| 0x1 <= family <= 0x4
    ||| family == 0x5 && n == 0
    ||| family == 0x6
    ||| family == 0x7
    ||| family == 0x8 && (n <= 0x7 || n == 0xE)
    ||| family == 0x9 && n == 0
    ||| family == 0xA
    ||| family == 0xC
    ||| family == 0xD
    ||| family == 0xE && (nn == 0x9E || nn == 0xA1)
    ||| family == 0xF && (nn == 0x07 || nn == 0x0A || nn == 0x15 || nn == 0x18 || nn == 0x1E
        || nn == 0x29 || nn == 0x33 || nn == 0x55 || nn == 0x65)
}

/// Every `CPU` stands for a well-formed machine.
pub proof fn lemma_view_wf(cpu: CPU)
    ensures
        cpu@.wf(),
{
}

/// Add immediate leaves `(V[x] + nn) mod 256` in `V[x]` and writes no other
/// register, so the flag register is untouched unless it is `V[x]` itself.
pub proof fn lemma_add_immediate(m: Machine, x: int)
    requires
        m.wf(),
        0 <= x < 16,
    ensures
        m.add_immediate(x).v[x] == (m.v[x] + m.nn()) % 256,
        forall|r: int| 0 <= r < 16 && r != x ==> m.add_immediate(x).v[r] == m.v[r],
        x != 0xF ==> m.add_immediate(x).v[0xF] == m.v[0xF],
{
}

/// Add registers leaves the carry of `V[x] + V[y]` in the flag register
/// and, unless `V[x]` is the flag register, the sum modulo 256 in `V[x]`.
pub proof fn lemma_add_registers(m: Machine, x: int, y: int)
    requires
        m.wf(),
        0 <= x < 16,
        0 <= y < 16,
    ensures
        m.add_registers(x, y).v[0xF] == (if m.v[x] + m.v[y] > 255 { 1u8 } else { 0u8 }),
        x != 0xF ==> m.add_registers(x, y).v[x] == (m.v[x] + m.v[y]) % 256,
{
}

/// Subtracting between registers that are not the flag register leaves the
/// difference modulo 256 in `V[x]` and tells in the flag register whether
/// there was a borrow: 0 for a borrow in `V[x] - V[y]`, 1 for none.
pub proof fn lemma_subtract_registers(m: Machine, x: int, y: int)
    requires
        m.wf(),
        0 <= x < 15,
        0 <= y < 15,
    ensures
        m.subtract_registers(x, y).v[x] == (m.v[x] - m.v[y]) % 256,
        m.subtract_registers(x, y).v[0xF] == (if m.v[y] > m.v[x] { 0u8 } else { 1u8 }),
        m.reverse_subtract_registers(x, y).v[x] == (m.v[y] - m.v[x]) % 256,
        m.reverse_subtract_registers(x, y).v[0xF] == (if m.v[y] > m.v[x] { 1u8 } else { 0u8 }),
{
}

/// A skip moves the program counter on by four if its condition holds and
/// by two if not. A program counter within four of the end of its sixteen
/// bits, which no fetch leaves behind, would wrap around.
pub proof fn lemma_skip_distance(m: Machine, taken: bool)
    requires
        m.wf(),
        m.pc + 4 <= 0xFFFF,
    ensures
        m.skip_if(taken).pc == m.pc + (if taken { 4int } else { 2int }),
        m.skip_if(taken) == (Machine { pc: m.skip_if(taken).pc, ..m }),
{
}

/// A tick of the clock takes a timer at 1 to 0 and leaves a timer at 0
/// where it is: no timer goes below zero.
pub proof fn lemma_tick(m: Machine)
    requires
        m.wf(),
    ensures
        m.tick().delay_timer == (if m.delay_timer == 0 { 0 } else { m.delay_timer - 1 }),
        m.tick().sound_timer == (if m.sound_timer == 0 { 0 } else { m.sound_timer - 1 }),
        m.tick().wf(),
{
}

/// The pixel in column `c` of row `r` of a sprite lands on the cell
/// `((V[x] + c) mod 64, (V[y] + r) mod 32)`, so that a sprite across an edge
/// of the display comes back in at the opposite edge: drawing flips that
/// cell if the pixel is set and leaves it if not.
pub proof fn lemma_sprite_pixel_target(m: Machine, x: int, y: int, n: int, c: int, r: int)
    requires
        m.wf(),
        0 <= x < 16,
        0 <= y < 16,
        0 <= n < 16,
        m.i + n <= 4096,
        0 <= c < 8,
        0 <= r < n,
    ensures
        ({
            let p = target_cell(m.v[x] as int, m.v[y] as int, c, r);
            let set = sprite_bit(m.memory[m.i + r], c as u8);
            &&& p == (m.v[x] + c) % 64 + ((m.v[y] + r) % 32) * 64
            &&& 0 <= p < 2048
            &&& m.sprite_covers(x, y, n, p) == set
            &&& m.draw_sprite(x, y, n).gfx[p] == (if set {
                m.gfx[p] ^ 1
            } else {
                m.gfx[p]
            })
        }),
{
    lemma_target_cell(m.v[x] as int, m.v[y] as int, c, r);
}

/// Drawing the same sprite at the same place twice puts every display cell
/// back, and the flag after the second draw tells whether the sprite met a
/// lit cell of the display that the first draw left. The origin registers
/// must not be the flag register, which the first draw overwrites.
pub proof fn lemma_draw_twice(m: Machine, x: int, y: int, n: int)
    requires
        m.wf(),
        0 <= x < 15,
        0 <= y < 15,
        0 <= n < 16,
    ensures
        m.draw_sprite(x, y, n).draw_sprite(x, y, n).gfx == m.gfx,
        !(n > 0 && m.i + n > 4096) ==> m.draw_sprite(x, y, n).draw_sprite(x, y, n).v[0xF] == (
        if exists|p: int|
            0 <= p < 2048 && m.sprite_covers(x, y, n, p) && m.draw_sprite(x, y, n).gfx[p] == 1 {
            1u8
        } else {
            0u8
        }),
{
    let once = m.draw_sprite(x, y, n);
    let twice = once.draw_sprite(x, y, n);
    if n > 0 && m.i + n > 4096 {
    } else {
        assert forall|p: int| once.sprite_covers(x, y, n, p) == m.sprite_covers(x, y, n, p) by {}
        assert forall|p: int| 0 <= p < 2048 implies twice.gfx[p] == m.gfx[p] by {
            let g: u8 = m.gfx[p];
            assert((g ^ 1) ^ 1 == g) by (bit_vector);
        }
        assert(twice.gfx =~= m.gfx);
        if once.sprite_collides(x, y, n) {
            let p: int = choose|p: int|
                0 <= p < 2048 && once.sprite_covers(x, y, n, p) && once.gfx[p] == 1;
            assert(m.sprite_covers(x, y, n, p));
        }
    }
}

/// A call followed at once by a return leaves the program counter at the
/// instruction after the call and the stack pointer where it was. The call
/// needs a free stack slot.
pub proof fn lemma_call_return(m: Machine)
    requires
        m.wf(),
        m.sp < 16,
    ensures
        m.call().return_from_call().pc == (m.pc + 2) % 0x1_0000,
        m.pc + 2 <= 0xFFFF ==> m.call().return_from_call().pc == m.pc + 2,
        m.call().return_from_call().sp == m.sp,
        m.call().return_from_call() == (Machine {
            pc: (m.pc + 2) % 0x1_0000,
            stack: m.call().stack,
            ..m
        }),
{
}

/// Dumping `V[0]` to `V[x]` and loading them back from the same address
/// leaves every register and the index register as they were.
pub proof fn lemma_dump_load(m: Machine, x: int)
    requires
        m.wf(),
        0 <= x < 16,
    ensures
        m.dump_registers(x).load_registers(x).v == m.v,
        m.dump_registers(x).i == m.i,
        m.dump_registers(x).load_registers(x).i == m.i,
{
    assert(m.dump_registers(x).load_registers(x).v =~= m.v);
}

/// A word that is no instruction halts the machine and changes nothing
/// else: no register, no memory cell, no display cell, and not the program
/// counter.
pub proof fn lemma_unknown_opcode(m: Machine, random: u8)
    requires
        m.wf(),
        !is_instruction(m.opcode),
    ensures
        m.execute(random) == m.unknown(),
        m.execute(random).breakexe,
        m.execute(random).fault == Some(
            Fault::UnknownOpcode { opcode: m.opcode as u16 },
        ),
        m.execute(random).v == m.v,
        m.execute(random).memory == m.memory,
        m.execute(random).gfx == m.gfx,
        m.execute(random).pc == m.pc,
        m.execute(random).i == m.i,
        m.execute(random).stack == m.stack,
        m.execute(random).sp == m.sp,
{
}

/// On a machine that has not halted, the words that halt it as unknown are
/// exactly those that are no instruction.
pub proof fn lemma_instruction_words(m: Machine, random: u8)
    requires
        m.wf(),
        !m.breakexe,
    ensures
        m.execute(random) == m.unknown() <==> !is_instruction(m.opcode),
{
}

/// An instruction either completes, and then leaves the halt flag and the
/// recorded fault alone, or halts the machine, and then changes nothing
/// else.
pub proof fn lemma_execute_halts_or_completes(m: Machine, random: u8)
    requires
        m.wf(),
    ensures
        ({
            let after = m.execute(random);
            ||| after.breakexe == m.breakexe && after.fault == m.fault
            ||| exists|fault: Fault| after == #[trigger] m.halt(fault)
        }),
{
}

/// A cycle either completes, and then leaves the halt flag and the recorded
/// fault alone, or halts the machine, and then changes nothing else but
/// the instruction word, which is the word it fetched.
pub proof fn lemma_step_halts_or_completes(m: Machine, random: u8)
    requires
        m.wf(),
    ensures
        ({
            let after = m.step(random);
            ||| after.breakexe == m.breakexe && after.fault == m.fault
            ||| exists|fault: Fault|
                after == (Machine { opcode: after.opcode, ..#[trigger] m.halt(fault) })
        }),
{
    let after = m.step(random);
    if m.pc + 1 >= 4096 {
        assert(after == (Machine {
            opcode: after.opcode,
            ..m.halt(Fault::AddressOutOfRange { address: (m.pc + 1) as u32 })
        }));
    } else {
        let fetched = m.fetched();
        lemma_execute_halts_or_completes(fetched, random);
        if !(after.breakexe == m.breakexe && after.fault == m.fault) {
            let fault = choose|fault: Fault| after == #[trigger] fetched.halt(fault);
            assert(after == (Machine { opcode: after.opcode, ..m.halt(fault) }));
        }
    }
}

/// No instruction writes the key slots, none but clear-screen and draw
/// writes the display, and none takes the stack beyond its sixteen slots.
pub proof fn lemma_keys_and_display_kept(m: Machine, random: u8)
    requires
        m.wf(),
    ensures
        m.execute(random).key == m.key,
        m.opcode != 0x00E0 && m.family() != 0xD ==> m.execute(random).gfx == m.gfx,
        m.sp <= 16 ==> m.execute(random).sp <= 16,
{
}

/// A display whose cells all hold 0 or 1 is still one after any
/// instruction.
pub proof fn lemma_display_stays_binary(m: Machine, random: u8)
    requires
        m.wf(),
        m.display_is_binary(),
    ensures
        m.execute(random).display_is_binary(),
{
    assert forall|g: u8| g == 0 || g == 1 implies #[trigger] (g ^ 1) == 0 || (g ^ 1) == 1 by {
        assert(g == 0 || g == 1 ==> (g ^ 1) == 0 || (g ^ 1) == 1) by (bit_vector);
    }
}

/// Each instruction takes a well-formed machine to a well-formed machine,
/// whatever registers and sprite height it is given.
proof fn lemma_instructions_wf(m: Machine, x: int, y: int, n: int, random: u8)
    requires
        m.wf(),
        0 <= x < 16,
        0 <= y < 16,
        0 <= n < 16,
    ensures
        m.clear_screen().wf(),
        m.return_from_call().wf(),
        m.jump().wf(),
        m.call().wf(),
        m.skip_if_equal_immediate(x).wf(),
        m.skip_if_not_equal_immediate(x).wf(),
        m.skip_if_registers_equal(x, y).wf(),
        m.skip_if_registers_differ(x, y).wf(),
        m.load_immediate(x).wf(),
        m.add_immediate(x).wf(),
        m.copy_register(x, y).wf(),
        m.or_registers(x, y).wf(),
        m.and_registers(x, y).wf(),
        m.xor_registers(x, y).wf(),
        m.add_registers(x, y).wf(),
        m.subtract_registers(x, y).wf(),
        m.shift_right(x).wf(),
        m.reverse_subtract_registers(x, y).wf(),
        m.shift_left(x).wf(),
        m.load_index().wf(),
        m.load_random(x, random).wf(),
        m.draw_sprite(x, y, n).wf(),
        m.skip_if_key_pressed(x).wf(),
        m.skip_if_key_not_pressed(x).wf(),
        m.read_delay_timer(x).wf(),
        m.wait_for_key(x).wf(),
        m.set_delay_timer(x).wf(),
        m.set_sound_timer(x).wf(),
        m.add_to_index(x).wf(),
        m.font_address(x).wf(),
        m.store_bcd(x).wf(),
        m.dump_registers(x).wf(),
        m.load_registers(x).wf(),
        m.unknown().wf(),
{
}

/// An instruction takes a well-formed machine to a well-formed machine.
pub proof fn lemma_execute_wf(m: Machine, random: u8)
    requires
        m.wf(),
    ensures
        m.execute(random).wf(),
{
    lemma_instructions_wf(m, m.x(), m.y(), m.n(), random);
}

/// A cycle takes a well-formed machine to a well-formed machine, keeps the
/// key slots, keeps the stack within its sixteen slots, and keeps a display
/// of cells that all hold 0 or 1 such a display.
pub proof fn lemma_step_invariants(m: Machine, random: u8)
    requires
        m.wf(),
    ensures
        m.step(random).wf(),
        m.step(random).key == m.key,
        m.sp <= 16 ==> m.step(random).sp <= 16,
        m.display_is_binary() ==> m.step(random).display_is_binary(),
{
    if m.pc + 1 < 4096 {
        let fetched = m.fetched();
        lemma_execute_wf(fetched, random);
        lemma_keys_and_display_kept(fetched, random);
        if m.display_is_binary() {
            assert(fetched.display_is_binary());
            lemma_display_stays_binary(fetched, random);
        }
    }
}

} // verus!
