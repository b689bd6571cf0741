use chip8::cpu::CPU;

fn machine_with(opcode: u16) -> CPU {
    let mut cpu = CPU::initialize();
    cpu.opcode = opcode;
    cpu
}

#[test]
fn load_immediate_sets_register() {
    let mut cpu = machine_with(0x63AB);
    cpu.op_6xnn(3);
    assert_eq!(cpu.v[3], 0xAB);
    assert_eq!(cpu.pc, 0x202);
}

#[test]
fn add_immediate_wraps_modulo_256() {
    let mut cpu = machine_with(0x730A);
    cpu.v[3] = 250;
    cpu.v[0xF] = 7;
    cpu.op_7xnn(3);
    assert_eq!(cpu.v[3], 4);
    assert_eq!(cpu.v[0xF], 7);
    assert_eq!(cpu.pc, 0x202);
}

#[test]
fn add_immediate_without_wrap() {
    let mut cpu = machine_with(0x7201);
    cpu.v[2] = 41;
    cpu.op_7xnn(2);
    assert_eq!(cpu.v[2], 42);
}

#[test]
fn add_immediate_never_writes_the_flag() {
    for x in 0..15usize {
        for nn in [0u16, 1, 0x7F, 0x80, 0xFF] {
            for start in [0u8, 1, 0x80, 0xFF] {
                let mut cpu = machine_with(0x7000 | ((x as u16) << 8) | nn);
                cpu.v[x] = start;
                cpu.v[0xF] = 0x5A;
                cpu.op_7xnn(x);
                assert_eq!(cpu.v[x] as u16, (start as u16 + nn) % 256);
                assert_eq!(cpu.v[0xF], 0x5A);
            }
        }
    }
}

#[test]
fn add_registers_with_carry() {
    let mut cpu = machine_with(0x8124);
    cpu.v[1] = 200;
    cpu.v[2] = 100;
    cpu.op_8xy4(1, 2);
    assert_eq!(cpu.v[1], 44);
    assert_eq!(cpu.v[2], 100);
    assert_eq!(cpu.v[0xF], 1);
    assert_eq!(cpu.pc, 0x202);
}

#[test]
fn add_registers_without_carry() {
    let mut cpu = machine_with(0x8124);
    cpu.v[1] = 10;
    cpu.v[2] = 20;
    cpu.v[0xF] = 1;
    cpu.op_8xy4(1, 2);
    assert_eq!(cpu.v[1], 30);
    assert_eq!(cpu.v[0xF], 0);
}

#[test]
fn add_registers_carry_for_every_pair() {
    for x in 0..15usize {
        for y in 0..15usize {
            if x == y {
                continue;
            }
            let mut cpu = machine_with(0x8004);
            cpu.v[x] = 200;
            cpu.v[y] = 100;
            cpu.op_8xy4(x, y);
            assert_eq!(cpu.v[x], 44);
            assert_eq!(cpu.v[0xF], 1);
        }
    }
}

#[test]
fn add_register_to_itself_carries() {
    let mut cpu = machine_with(0x8334);
    cpu.v[3] = 200;
    cpu.op_8xy4(3, 3);
    assert_eq!(cpu.v[3], 144);
    assert_eq!(cpu.v[0xF], 1);
}

#[test]
fn add_into_flag_register_keeps_the_carry() {
    let mut cpu = machine_with(0x8F14);
    cpu.v[0xF] = 200;
    cpu.v[1] = 100;
    cpu.op_8xy4(0xF, 1);
    assert_eq!(cpu.v[0xF], 1);
}

#[test]
fn subtract_with_borrow() {
    let mut cpu = machine_with(0x8125);
    cpu.v[1] = 5;
    cpu.v[2] = 10;
    cpu.op_8xy5(1, 2);
    assert_eq!(cpu.v[1], 251);
    assert_eq!(cpu.v[0xF], 0);
    assert_eq!(cpu.pc, 0x202);
}

#[test]
fn subtract_without_borrow() {
    let mut cpu = machine_with(0x8125);
    cpu.v[1] = 10;
    cpu.v[2] = 5;
    cpu.op_8xy5(1, 2);
    assert_eq!(cpu.v[1], 5);
    assert_eq!(cpu.v[0xF], 1);
}

#[test]
fn subtract_equal_registers_is_no_borrow() {
    let mut cpu = machine_with(0x8125);
    cpu.v[1] = 7;
    cpu.v[2] = 7;
    cpu.op_8xy5(1, 2);
    assert_eq!(cpu.v[1], 0);
    assert_eq!(cpu.v[0xF], 1);
}

#[test]
fn subtract_from_flag_register_reads_the_new_flag() {
    let mut cpu = machine_with(0x8F15);
    cpu.v[0xF] = 10;
    cpu.v[1] = 3;
    cpu.op_8xy5(0xF, 1);
    // no borrow, so the flag is 1, and the difference is taken from it
    assert_eq!(cpu.v[0xF], 254);
}

#[test]
fn subtract_flag_register_reads_the_new_flag() {
    let mut cpu = machine_with(0x81F5);
    cpu.v[1] = 10;
    cpu.v[0xF] = 200;
    cpu.op_8xy5(1, 0xF);
    // borrow, so the flag is 0, and 0 is what is subtracted
    assert_eq!(cpu.v[1], 10);
    assert_eq!(cpu.v[0xF], 0);
}

#[test]
fn reverse_subtract_without_borrow() {
    let mut cpu = machine_with(0x8127);
    cpu.v[1] = 5;
    cpu.v[2] = 10;
    cpu.op_8xy7(1, 2);
    assert_eq!(cpu.v[1], 5);
    assert_eq!(cpu.v[0xF], 1);
    assert_eq!(cpu.pc, 0x202);
}

#[test]
fn reverse_subtract_with_borrow() {
    let mut cpu = machine_with(0x8127);
    cpu.v[1] = 10;
    cpu.v[2] = 5;
    cpu.op_8xy7(1, 2);
    assert_eq!(cpu.v[1], 251);
    assert_eq!(cpu.v[0xF], 0);
}

#[test]
fn reverse_subtract_equal_registers() {
    let mut cpu = machine_with(0x8127);
    cpu.v[1] = 9;
    cpu.v[2] = 9;
    cpu.op_8xy7(1, 2);
    assert_eq!(cpu.v[1], 0);
    assert_eq!(cpu.v[0xF], 0);
}

#[test]
fn shift_right_moves_low_bit_to_flag() {
    let mut cpu = machine_with(0x8106);
    cpu.v[1] = 0b0000_0101;
    cpu.op_8xy6(1);
    assert_eq!(cpu.v[1], 0b0000_0010);
    assert_eq!(cpu.v[0xF], 1);
    assert_eq!(cpu.pc, 0x202);
    cpu.op_8xy6(1);
    assert_eq!(cpu.v[1], 0b0000_0001);
    assert_eq!(cpu.v[0xF], 0);
}

#[test]
fn shift_right_of_flag_register() {
    let mut cpu = machine_with(0x8F06);
    cpu.v[0xF] = 0xFF;
    cpu.op_8xy6(0xF);
    assert_eq!(cpu.v[0xF], 0);
}

#[test]
fn shift_left_moves_high_bit_to_flag() {
    let mut cpu = machine_with(0x810E);
    cpu.v[1] = 0x81;
    cpu.op_8x0e(1);
    assert_eq!(cpu.v[1], 0x02);
    assert_eq!(cpu.v[0xF], 1);
    assert_eq!(cpu.pc, 0x202);
    cpu.op_8x0e(1);
    assert_eq!(cpu.v[1], 0x04);
    assert_eq!(cpu.v[0xF], 0);
}

#[test]
fn shift_left_of_flag_register() {
    let mut cpu = machine_with(0x8F0E);
    cpu.v[0xF] = 0x80;
    cpu.op_8x0e(0xF);
    assert_eq!(cpu.v[0xF], 2);
}

#[test]
fn copy_or_and_xor() {
    let mut cpu = machine_with(0x8120);
    cpu.v[1] = 0b1100;
    cpu.v[2] = 0b1010;
    cpu.v[0xF] = 9;
    cpu.op_8xy1(1, 2);
    assert_eq!(cpu.v[1], 0b1110);
    cpu.v[1] = 0b1100;
    cpu.op_8xy2(1, 2);
    assert_eq!(cpu.v[1], 0b1000);
    cpu.v[1] = 0b1100;
    cpu.op_8xy3(1, 2);
    assert_eq!(cpu.v[1], 0b0110);
    cpu.op_8xy0(1, 2);
    assert_eq!(cpu.v[1], 0b1010);
    assert_eq!(cpu.v[2], 0b1010);
    assert_eq!(cpu.v[0xF], 9);
    assert_eq!(cpu.pc, 0x208);
}

#[test]
fn random_with_given_byte_is_masked() {
    let mut cpu = machine_with(0xC40F);
    cpu.op_cxnn_with(4, 0xAB);
    assert_eq!(cpu.v[4], 0x0B);
    assert_eq!(cpu.pc, 0x202);
    cpu.opcode = 0xC4F0;
    cpu.op_cxnn_with(4, 0xAB);
    assert_eq!(cpu.v[4], 0xA0);
}

#[test]
fn random_stays_under_the_mask() {
    for _ in 0..200 {
        let mut cpu = machine_with(0xC23C);
        cpu.v[2] = 0xFF;
        cpu.op_cxnn(2);
        assert_eq!(cpu.v[2] & !0x3C, 0);
        assert_eq!(cpu.pc, 0x202);
    }
    let mut cpu = machine_with(0xC200);
    cpu.v[2] = 0xFF;
    cpu.op_cxnn(2);
    assert_eq!(cpu.v[2], 0);
}

#[test]
fn random_bytes_differ() {
    let mut seen = [false; 256];
    for _ in 0..4096 {
        let mut cpu = machine_with(0xC1FF);
        cpu.op_cxnn(1);
        seen[cpu.v[1] as usize] = true;
    }
    let distinct = seen.iter().filter(|s| **s).count();
    assert!(distinct > 1);
}

#[test]
fn operand_fields_of_the_word() {
    let cpu = machine_with(0xD7A5);
    assert_eq!(cpu.get_nnn(), 0x7A5);
    assert_eq!(cpu.get_nn(), 0xA5);
    let cpu = machine_with(0xFFFF);
    assert_eq!(cpu.get_nnn(), 0xFFF);
    assert_eq!(cpu.get_nn(), 0xFF);
    let cpu = machine_with(0x1000);
    assert_eq!(cpu.get_nnn(), 0);
    assert_eq!(cpu.get_nn(), 0);
}
