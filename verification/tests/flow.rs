use chip8::cpu::CPU;
use chip8::fault::Fault;

fn machine_with(opcode: u16) -> CPU {
    let mut cpu = CPU::initialize();
    cpu.opcode = opcode;
    cpu
}

#[test]
fn jump_sets_program_counter() {
    let mut cpu = machine_with(0x1ABC);
    cpu.op_1nnn();
    assert_eq!(cpu.pc, 0xABC);
    assert_eq!(cpu.sp, 0);
}

#[test]
fn call_saves_the_next_address() {
    let mut cpu = machine_with(0x2456);
    cpu.pc = 0x300;
    cpu.op_2nnn();
    assert_eq!(cpu.pc, 0x456);
    assert_eq!(cpu.sp, 1);
    assert_eq!(cpu.stack[0], 0x302);
    assert!(!cpu.breakexe);
}

#[test]
fn call_then_return_comes_back_after_the_call() {
    let mut cpu = machine_with(0x2456);
    cpu.pc = 0x300;
    cpu.op_2nnn();
    cpu.op_00ee();
    assert_eq!(cpu.pc, 0x302);
    assert_eq!(cpu.sp, 0);
    assert!(!cpu.breakexe);
    assert_eq!(cpu.fault, None);
}

#[test]
fn nested_calls_return_in_reverse_order() {
    let mut cpu = machine_with(0x2400);
    cpu.pc = 0x200;
    cpu.op_2nnn();
    cpu.opcode = 0x2600;
    cpu.op_2nnn();
    assert_eq!(cpu.sp, 2);
    assert_eq!(cpu.pc, 0x600);
    cpu.op_00ee();
    assert_eq!(cpu.pc, 0x402);
    cpu.op_00ee();
    assert_eq!(cpu.pc, 0x202);
    assert_eq!(cpu.sp, 0);
}

#[test]
fn sixteen_calls_fit_and_the_next_overflows() {
    let mut cpu = machine_with(0x2300);
    for depth in 0..16 {
        cpu.op_2nnn();
        assert_eq!(cpu.sp, depth + 1);
        assert!(!cpu.breakexe);
    }
    let stack = cpu.stack;
    cpu.pc = 0x222;
    cpu.op_2nnn();
    assert!(cpu.breakexe);
    assert_eq!(cpu.fault, Some(Fault::StackOverflow));
    assert_eq!(cpu.sp, 16);
    assert_eq!(cpu.pc, 0x222);
    assert_eq!(cpu.stack, stack);
}

#[test]
fn return_on_empty_stack_underflows() {
    let mut cpu = machine_with(0x00EE);
    cpu.pc = 0x280;
    cpu.op_00ee();
    assert!(cpu.breakexe);
    assert_eq!(cpu.fault, Some(Fault::StackUnderflow));
    assert_eq!(cpu.pc, 0x280);
    assert_eq!(cpu.sp, 0);
}

#[test]
fn return_with_stack_pointer_past_the_stack() {
    let mut cpu = machine_with(0x00EE);
    cpu.sp = 17;
    cpu.op_00ee();
    assert!(cpu.breakexe);
    assert_eq!(cpu.fault, Some(Fault::StackOverflow));
    assert_eq!(cpu.sp, 17);
    assert_eq!(cpu.pc, 0x200);
}

#[test]
fn skip_if_equal_immediate() {
    let mut cpu = machine_with(0x3105);
    cpu.v[1] = 5;
    cpu.op_3xnn(1);
    assert_eq!(cpu.pc, 0x204);
    let mut cpu = machine_with(0x3106);
    cpu.v[1] = 5;
    cpu.op_3xnn(1);
    assert_eq!(cpu.pc, 0x202);
}

#[test]
fn skip_if_not_equal_immediate() {
    let mut cpu = machine_with(0x4105);
    cpu.v[1] = 5;
    cpu.op_4xnn(1);
    assert_eq!(cpu.pc, 0x202);
    let mut cpu = machine_with(0x4106);
    cpu.v[1] = 5;
    cpu.op_4xnn(1);
    assert_eq!(cpu.pc, 0x204);
}

#[test]
fn skip_if_registers_equal() {
    let mut cpu = machine_with(0x5120);
    cpu.v[1] = 9;
    cpu.v[2] = 9;
    cpu.op_5xy0(1, 2);
    assert_eq!(cpu.pc, 0x204);
    cpu.v[2] = 8;
    cpu.op_5xy0(1, 2);
    assert_eq!(cpu.pc, 0x206);
}

#[test]
fn skip_if_registers_differ() {
    let mut cpu = machine_with(0x9120);
    cpu.v[1] = 9;
    cpu.v[2] = 9;
    cpu.op_9xy0(1, 2);
    assert_eq!(cpu.pc, 0x202);
    cpu.v[2] = 8;
    cpu.op_9xy0(1, 2);
    assert_eq!(cpu.pc, 0x206);
}

#[test]
fn program_counter_wraps_in_sixteen_bits() {
    let mut cpu = machine_with(0x6000);
    cpu.pc = 0xFFFE;
    cpu.op_6xnn(0);
    assert_eq!(cpu.pc, 0);
    let mut cpu = machine_with(0x3000);
    cpu.pc = 0xFFFE;
    cpu.op_3xnn(0);
    assert_eq!(cpu.pc, 2);
    assert!(!cpu.breakexe);
}

#[test]
fn skip_if_key_pressed() {
    let mut cpu = machine_with(0xE19E);
    cpu.v[1] = 0xA;
    cpu.key[0xA] = 1;
    cpu.op_ex9e(1);
    assert_eq!(cpu.pc, 0x204);
    cpu.key[0xA] = 0;
    cpu.op_ex9e(1);
    assert_eq!(cpu.pc, 0x206);
}

#[test]
fn skip_if_key_not_pressed() {
    let mut cpu = machine_with(0xE1A1);
    cpu.v[1] = 0xA;
    cpu.key[0xA] = 1;
    cpu.op_exa1(1);
    assert_eq!(cpu.pc, 0x202);
    cpu.key[0xA] = 0;
    cpu.op_exa1(1);
    assert_eq!(cpu.pc, 0x206);
}

#[test]
fn key_slot_counts_as_held_only_at_one() {
    let mut cpu = machine_with(0xE19E);
    cpu.v[1] = 3;
    cpu.key[3] = 2;
    cpu.op_ex9e(1);
    assert_eq!(cpu.pc, 0x202);
    cpu.op_exa1(1);
    assert_eq!(cpu.pc, 0x206);
}

#[test]
fn key_test_beyond_the_keypad_halts() {
    let mut cpu = machine_with(0xE19E);
    cpu.v[1] = 16;
    cpu.op_ex9e(1);
    assert!(cpu.breakexe);
    assert_eq!(cpu.fault, Some(Fault::KeyOutOfRange { key: 16 }));
    assert_eq!(cpu.pc, 0x200);

    let mut cpu = machine_with(0xE1A1);
    cpu.v[1] = 0xFF;
    cpu.op_exa1(1);
    assert!(cpu.breakexe);
    assert_eq!(cpu.fault, Some(Fault::KeyOutOfRange { key: 0xFF }));
    assert_eq!(cpu.pc, 0x200);
}

#[test]
fn wait_for_key_without_key_changes_nothing() {
    let mut cpu = machine_with(0xF30A);
    cpu.v[3] = 0x77;
    cpu.op_fx0a(3);
    assert_eq!(cpu.pc, 0x200);
    assert_eq!(cpu.v[3], 0x77);
    assert!(!cpu.breakexe);
    cpu.op_fx0a(3);
    assert_eq!(cpu.pc, 0x200);
}

#[test]
fn wait_for_key_takes_the_held_key() {
    let mut cpu = machine_with(0xF30A);
    cpu.key[7] = 1;
    cpu.op_fx0a(3);
    assert_eq!(cpu.v[3], 7);
    assert_eq!(cpu.pc, 0x202);
}

#[test]
fn wait_for_key_takes_the_highest_of_several() {
    let mut cpu = machine_with(0xF30A);
    cpu.key[0] = 1;
    cpu.key[4] = 1;
    cpu.key[0xC] = 1;
    cpu.op_fx0a(3);
    assert_eq!(cpu.v[3], 0xC);
    assert_eq!(cpu.pc, 0x202);
    assert_eq!(cpu.key[4], 1);
}

#[test]
fn delay_timer_read_and_write() {
    let mut cpu = machine_with(0xF215);
    cpu.v[2] = 33;
    cpu.op_fx15(2);
    assert_eq!(cpu.delay_timer, 33);
    assert_eq!(cpu.pc, 0x202);
    cpu.op_fx07(5);
    assert_eq!(cpu.v[5], 33);
    assert_eq!(cpu.pc, 0x204);
}

#[test]
fn sound_timer_write() {
    let mut cpu = machine_with(0xF218);
    cpu.v[2] = 12;
    cpu.op_fx18(2);
    assert_eq!(cpu.sound_timer, 12);
    assert_eq!(cpu.delay_timer, 0);
    assert_eq!(cpu.pc, 0x202);
}

#[test]
fn tick_takes_delay_from_one_to_zero() {
    let mut cpu = CPU::initialize();
    cpu.delay_timer = 1;
    let beep = cpu.tick_timers();
    assert_eq!(cpu.delay_timer, 0);
    assert!(!beep);
}

#[test]
fn tick_leaves_delay_at_zero() {
    let mut cpu = CPU::initialize();
    cpu.delay_timer = 0;
    cpu.tick_timers();
    assert_eq!(cpu.delay_timer, 0);
    assert_eq!(cpu.sound_timer, 0);
}

#[test]
fn tick_counts_both_timers_down() {
    let mut cpu = CPU::initialize();
    cpu.delay_timer = 255;
    cpu.sound_timer = 3;
    assert!(!cpu.tick_timers());
    assert_eq!(cpu.delay_timer, 254);
    assert_eq!(cpu.sound_timer, 2);
    assert!(!cpu.tick_timers());
    assert_eq!(cpu.sound_timer, 1);
    assert!(cpu.tick_timers());
    assert_eq!(cpu.sound_timer, 0);
    assert!(!cpu.tick_timers());
    assert_eq!(cpu.sound_timer, 0);
    assert_eq!(cpu.delay_timer, 251);
}

#[test]
fn tick_does_not_touch_the_program() {
    let mut cpu = CPU::initialize();
    cpu.delay_timer = 9;
    cpu.v[4] = 4;
    cpu.tick_timers();
    assert_eq!(cpu.pc, 0x200);
    assert_eq!(cpu.v[4], 4);
    assert!(!cpu.draw);
}
