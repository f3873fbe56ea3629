use chip8_vm::machine::{Keys, VMState};
use chip8_vm::model::Fault;

fn idle_keys() -> Keys {
    [false; 16]
}

fn machine_with(rom: &[u8]) -> VMState {
    let mut vm = VMState::new(700);
    vm.load(&rom.to_vec());
    vm
}

fn run(vm: &mut VMState, steps: usize) {
    for _ in 0..steps {
        assert!(vm.step(&idle_keys()).is_ok());
    }
}

#[test]
fn add_byte_wraps_and_sets_no_flag() {
    let mut vm = machine_with(&[0x61, 0xFF, 0x71, 0x02]);
    run(&mut vm, 2);
    assert_eq!(vm.register(1), 0x01);
    assert_eq!(vm.register(0xF), 0);
    assert_eq!(vm.program_counter(), 0x204);
}

#[test]
fn add_byte_without_wrap() {
    let mut vm = machine_with(&[0x63, 0x10, 0x73, 0x22]);
    run(&mut vm, 2);
    assert_eq!(vm.register(3), 0x32);
}

#[test]
fn add_registers_sets_carry() {
    let mut vm = machine_with(&[0x60, 0xC8, 0x61, 0x64, 0x80, 0x14]);
    run(&mut vm, 3);
    assert_eq!(vm.register(0), 44);
    assert_eq!(vm.register(0xF), 1);
}

#[test]
fn add_registers_at_255_has_no_carry() {
    let mut vm = machine_with(&[0x60, 0xF0, 0x61, 0x0F, 0x80, 0x14]);
    run(&mut vm, 3);
    assert_eq!(vm.register(0), 255);
    assert_eq!(vm.register(0xF), 0);
}

#[test]
fn add_into_flag_register_keeps_the_flag() {
    let mut vm = machine_with(&[0x6F, 0xFF, 0x61, 0x02, 0x8F, 0x14]);
    run(&mut vm, 3);
    assert_eq!(vm.register(0xF), 1);
}

#[test]
fn sub_without_borrow_sets_flag() {
    let mut vm = machine_with(&[0x60, 0x0A, 0x61, 0x03, 0x80, 0x15]);
    run(&mut vm, 3);
    assert_eq!(vm.register(0), 7);
    assert_eq!(vm.register(0xF), 1);
}

#[test]
fn sub_with_borrow_clears_flag() {
    let mut vm = machine_with(&[0x60, 0x03, 0x61, 0x0A, 0x80, 0x15]);
    run(&mut vm, 3);
    assert_eq!(vm.register(0), 249);
    assert_eq!(vm.register(0xF), 0);
}

#[test]
fn sub_of_equal_values_sets_flag() {
    let mut vm = machine_with(&[0x60, 0x05, 0x61, 0x05, 0x80, 0x15]);
    run(&mut vm, 3);
    assert_eq!(vm.register(0), 0);
    assert_eq!(vm.register(0xF), 1);
}

#[test]
fn subn_subtracts_the_other_way() {
    let mut vm = machine_with(&[0x60, 0x03, 0x61, 0x0A, 0x80, 0x17]);
    run(&mut vm, 3);
    assert_eq!(vm.register(0), 7);
    assert_eq!(vm.register(0xF), 1);
    let mut vm = machine_with(&[0x60, 0x0A, 0x61, 0x03, 0x80, 0x17]);
    run(&mut vm, 3);
    assert_eq!(vm.register(0), 249);
    assert_eq!(vm.register(0xF), 0);
}

#[test]
fn copy_or_and_xor() {
    let mut vm = machine_with(&[
        0x60, 0xCC, 0x61, 0xAA, 0x82, 0x00, 0x82, 0x11, 0x83, 0x00, 0x83, 0x12, 0x84, 0x00, 0x84,
        0x13, 0x85, 0x10,
    ]);
    run(&mut vm, 9);
    assert_eq!(vm.register(2), 0xEE);
    assert_eq!(vm.register(3), 0x88);
    assert_eq!(vm.register(4), 0x66);
    assert_eq!(vm.register(5), 0xAA);
    assert_eq!(vm.register(0xF), 0);
}

#[test]
fn shift_right_moves_low_bit_to_flag() {
    let mut vm = machine_with(&[0x60, 0x05, 0x80, 0x06]);
    run(&mut vm, 2);
    assert_eq!(vm.register(0), 2);
    assert_eq!(vm.register(0xF), 1);
    let mut vm = machine_with(&[0x60, 0x04, 0x80, 0x06]);
    run(&mut vm, 2);
    assert_eq!(vm.register(0), 2);
    assert_eq!(vm.register(0xF), 0);
}

#[test]
fn shift_left_moves_high_bit_to_flag() {
    let mut vm = machine_with(&[0x60, 0x81, 0x80, 0x0E]);
    run(&mut vm, 2);
    assert_eq!(vm.register(0), 0x02);
    assert_eq!(vm.register(0xF), 1);
    let mut vm = machine_with(&[0x60, 0x41, 0x80, 0x0E]);
    run(&mut vm, 2);
    assert_eq!(vm.register(0), 0x82);
    assert_eq!(vm.register(0xF), 0);
}

#[test]
fn shift_right_of_flag_register_leaves_the_flag() {
    let mut vm = machine_with(&[0x6F, 0x07, 0x8F, 0x06]);
    run(&mut vm, 2);
    assert_eq!(vm.register(0xF), 1);
    let mut vm = machine_with(&[0x6F, 0x06, 0x8F, 0x06]);
    run(&mut vm, 2);
    assert_eq!(vm.register(0xF), 0);
}

#[test]
fn shift_left_of_flag_register_leaves_the_flag() {
    let mut vm = machine_with(&[0x6F, 0x81, 0x8F, 0x0E]);
    run(&mut vm, 2);
    assert_eq!(vm.register(0xF), 1);
    let mut vm = machine_with(&[0x6F, 0x41, 0x8F, 0x0E]);
    run(&mut vm, 2);
    assert_eq!(vm.register(0xF), 0);
}

#[test]
fn shifts_leave_other_registers_alone() {
    let mut vm = machine_with(&[0x61, 0x33, 0x62, 0xFF, 0x82, 0x16, 0x82, 0x1E]);
    run(&mut vm, 3);
    assert_eq!(vm.register(1), 0x33);
    assert_eq!(vm.register(2), 0x7F);
    assert_eq!(vm.register(0xF), 1);
    run(&mut vm, 1);
    assert_eq!(vm.register(1), 0x33);
    assert_eq!(vm.register(2), 0xFE);
    assert_eq!(vm.register(0xF), 0);
}

#[test]
fn sub_into_flag_register_keeps_the_flag() {
    let mut vm = machine_with(&[0x6F, 0x03, 0x61, 0x0A, 0x8F, 0x15]);
    run(&mut vm, 3);
    assert_eq!(vm.register(0xF), 0);
    let mut vm = machine_with(&[0x6F, 0x03, 0x61, 0x0A, 0x8F, 0x17]);
    run(&mut vm, 3);
    assert_eq!(vm.register(0xF), 1);
}

#[test]
fn jump_sets_program_counter() {
    let mut vm = machine_with(&[0x1A, 0xBC]);
    run(&mut vm, 1);
    assert_eq!(vm.program_counter(), 0xABC);
}

#[test]
fn jump_with_offset_adds_v0() {
    let mut vm = machine_with(&[0x60, 0x10, 0xB3, 0x00]);
    run(&mut vm, 2);
    assert_eq!(vm.program_counter(), 0x310);
}

#[test]
fn skips_on_byte() {
    let mut vm = machine_with(&[0x60, 0x42, 0x30, 0x42]);
    run(&mut vm, 2);
    assert_eq!(vm.program_counter(), 0x206);
    let mut vm = machine_with(&[0x60, 0x42, 0x30, 0x43]);
    run(&mut vm, 2);
    assert_eq!(vm.program_counter(), 0x204);
    let mut vm = machine_with(&[0x60, 0x42, 0x40, 0x43]);
    run(&mut vm, 2);
    assert_eq!(vm.program_counter(), 0x206);
    let mut vm = machine_with(&[0x60, 0x42, 0x40, 0x42]);
    run(&mut vm, 2);
    assert_eq!(vm.program_counter(), 0x204);
}

#[test]
fn skips_on_registers() {
    let mut vm = machine_with(&[0x60, 0x07, 0x61, 0x07, 0x50, 0x10]);
    run(&mut vm, 3);
    assert_eq!(vm.program_counter(), 0x208);
    let mut vm = machine_with(&[0x60, 0x07, 0x61, 0x08, 0x50, 0x10]);
    run(&mut vm, 3);
    assert_eq!(vm.program_counter(), 0x206);
    let mut vm = machine_with(&[0x60, 0x07, 0x61, 0x08, 0x90, 0x10]);
    run(&mut vm, 3);
    assert_eq!(vm.program_counter(), 0x208);
    let mut vm = machine_with(&[0x60, 0x07, 0x61, 0x07, 0x90, 0x10]);
    run(&mut vm, 3);
    assert_eq!(vm.program_counter(), 0x206);
}

#[test]
fn call_then_return_comes_back_after_the_call() {
    let mut vm = machine_with(&[0x22, 0x06, 0x00, 0x00, 0x00, 0x00, 0x00, 0xEE]);
    run(&mut vm, 1);
    assert_eq!(vm.program_counter(), 0x206);
    assert_eq!(vm.stack_pointer(), 1);
    run(&mut vm, 1);
    assert_eq!(vm.program_counter(), 0x202);
    assert_eq!(vm.stack_pointer(), 0);
}

#[test]
fn return_without_call_is_an_underflow() {
    let mut vm = machine_with(&[0x00, 0xEE]);
    assert_eq!(vm.step(&idle_keys()), Err(Fault::StackUnderflow));
    assert_eq!(vm.program_counter(), 0x200);
    assert_eq!(vm.stack_pointer(), 0);
}

#[test]
fn sixteen_calls_can_be_open_and_no_more() {
    let mut vm = machine_with(&[0x22, 0x00]);
    for depth in 1..=16u8 {
        assert_eq!(vm.step(&idle_keys()), Ok(None));
        assert_eq!(vm.stack_pointer(), depth);
        assert_eq!(vm.program_counter(), 0x200);
    }
    assert_eq!(vm.step(&idle_keys()), Err(Fault::StackOverflow));
    assert_eq!(vm.stack_pointer(), 16);
    assert_eq!(vm.program_counter(), 0x200);
    assert_eq!(vm.execute((0x23, 0x00), &idle_keys()), Err(Fault::StackOverflow));
    assert_eq!(vm.stack_pointer(), 16);
}

#[test]
fn call_with_fifteen_open_balances_with_its_return() {
    let mut vm = machine_with(&[0x22, 0x00]);
    for _ in 0..15 {
        assert_eq!(vm.step(&idle_keys()), Ok(None));
    }
    assert_eq!(vm.stack_pointer(), 15);
    assert_eq!(vm.execute((0x1A, 0xBC), &idle_keys()), Ok(None));
    assert_eq!(vm.execute((0x23, 0x45), &idle_keys()), Ok(None));
    assert_eq!(vm.program_counter(), 0x345);
    assert_eq!(vm.stack_pointer(), 16);
    assert_eq!(vm.execute((0x00, 0xEE), &idle_keys()), Ok(None));
    assert_eq!(vm.program_counter(), 0xABC);
    assert_eq!(vm.stack_pointer(), 15);
    for depth in (0..15u8).rev() {
        assert_eq!(vm.execute((0x00, 0xEE), &idle_keys()), Ok(None));
        assert_eq!(vm.program_counter(), 0x202);
        assert_eq!(vm.stack_pointer(), depth);
    }
    assert_eq!(vm.execute((0x00, 0xEE), &idle_keys()), Err(Fault::StackUnderflow));
}

#[test]
fn sixteen_nested_calls_return_in_reverse_order() {
    let mut rom: Vec<u8> = Vec::new();
    for i in 0..16u16 {
        let target = 0x200 + 4 * (i + 1);
        rom.push(0x20 | (target >> 8) as u8);
        rom.push((target & 0xFF) as u8);
        rom.push(0x00);
        rom.push(0xEE);
    }
    rom.push(0x00);
    rom.push(0xEE);
    let mut vm = machine_with(&rom);
    for i in 0..16u16 {
        assert_eq!(vm.program_counter(), 0x200 + 4 * i);
        assert_eq!(vm.step(&idle_keys()), Ok(None));
        assert_eq!(vm.stack_pointer(), (i + 1) as u8);
    }
    assert_eq!(vm.program_counter(), 0x240);
    for i in (0..16u16).rev() {
        assert_eq!(vm.step(&idle_keys()), Ok(None));
        assert_eq!(vm.program_counter(), 0x200 + 4 * i + 2);
        assert_eq!(vm.stack_pointer(), i as u8);
    }
    assert_eq!(vm.step(&idle_keys()), Err(Fault::StackUnderflow));
    assert_eq!(vm.program_counter(), 0x202);
}

#[test]
fn fetch_beyond_memory_is_a_fault() {
    let mut vm = machine_with(&[0x1F, 0xFF]);
    run(&mut vm, 1);
    assert_eq!(vm.program_counter(), 0xFFF);
    assert_eq!(vm.fetch(), Err(Fault::FetchOutOfRange));
    assert_eq!(vm.step(&idle_keys()), Err(Fault::FetchOutOfRange));
    assert_eq!(vm.program_counter(), 0xFFF);
}

#[test]
fn program_counter_wraps_at_end_of_memory() {
    let mut vm = machine_with(&[0x1F, 0xFE]);
    run(&mut vm, 2);
    assert_eq!(vm.program_counter(), 0x000);
}

#[test]
fn set_index_and_glyph_address() {
    let mut vm = machine_with(&[0xA1, 0x23, 0x60, 0x0A, 0xF0, 0x29]);
    run(&mut vm, 1);
    assert_eq!(vm.index(), 0x123);
    run(&mut vm, 2);
    assert_eq!(vm.index(), 0x50 + 50);
}

#[test]
fn add_index_flags_results_beyond_twelve_bits() {
    let mut vm = machine_with(&[0xAF, 0xFE, 0x60, 0x01, 0xF0, 0x1E, 0xF0, 0x1E]);
    run(&mut vm, 3);
    assert_eq!(vm.index(), 0xFFF);
    assert_eq!(vm.register(0xF), 0);
    run(&mut vm, 1);
    assert_eq!(vm.index(), 0x1000);
    assert_eq!(vm.register(0xF), 1);
}

#[test]
fn decimal_digits_go_to_memory() {
    let mut vm = machine_with(&[0x60, 0xEA, 0xA3, 0x00, 0xF0, 0x33]);
    run(&mut vm, 3);
    assert_eq!(vm.memory_at(0x300), 2);
    assert_eq!(vm.memory_at(0x301), 3);
    assert_eq!(vm.memory_at(0x302), 4);
    assert_eq!(vm.index(), 0x300);
}

#[test]
fn decimal_digits_beyond_memory_are_a_fault() {
    let mut vm = machine_with(&[0xAF, 0xFE, 0xF0, 0x33]);
    run(&mut vm, 1);
    assert_eq!(vm.step(&idle_keys()), Err(Fault::MemoryOutOfRange));
    assert_eq!(vm.memory_at(0xFFE), 0);
    assert_eq!(vm.program_counter(), 0x202);
}

#[test]
fn store_and_fill_move_registers_through_memory() {
    let mut vm = machine_with(&[
        0x60, 0x11, 0x61, 0x22, 0x62, 0x33, 0xA3, 0x00, 0xF1, 0x55, 0x60, 0x00, 0x61, 0x00, 0x62,
        0x00, 0xF2, 0x65,
    ]);
    run(&mut vm, 5);
    assert_eq!(vm.memory_at(0x300), 0x11);
    assert_eq!(vm.memory_at(0x301), 0x22);
    assert_eq!(vm.memory_at(0x302), 0x00);
    assert_eq!(vm.index(), 0x300);
    run(&mut vm, 4);
    assert_eq!(vm.register(0), 0x11);
    assert_eq!(vm.register(1), 0x22);
    assert_eq!(vm.register(2), 0x00);
}

#[test]
fn store_beyond_memory_is_a_fault() {
    let mut vm = machine_with(&[0xAF, 0xFF, 0x60, 0x77, 0xF1, 0x55, 0xF1, 0x65, 0xF0, 0x55]);
    run(&mut vm, 2);
    assert_eq!(vm.step(&idle_keys()), Err(Fault::MemoryOutOfRange));
    assert_eq!(vm.memory_at(0xFFF), 0);
    assert_eq!(vm.execute((0xF1, 0x65), &idle_keys()), Err(Fault::MemoryOutOfRange));
    assert_eq!(vm.execute((0xF0, 0x55), &idle_keys()), Ok(None));
    assert_eq!(vm.memory_at(0xFFF), 0x77);
}

#[test]
fn random_byte_is_masked() {
    let mut vm = machine_with(&[]);
    assert_eq!(vm.execute_with((0xC3, 0x0F), &idle_keys(), 0xA7), Ok(None));
    assert_eq!(vm.register(3), 0x07);
    assert_eq!(vm.execute_with((0xC3, 0xF0), &idle_keys(), 0xA7), Ok(None));
    assert_eq!(vm.register(3), 0xA0);
    for _ in 0..64 {
        assert_eq!(vm.execute((0xC4, 0x3C), &idle_keys()), Ok(None));
        assert_eq!(vm.register(4) & !0x3C, 0);
    }
    assert_eq!(vm.execute((0xC5, 0x00), &idle_keys()), Ok(None));
    assert_eq!(vm.register(5), 0);
}

#[test]
fn random_step_takes_the_given_byte() {
    let mut vm = machine_with(&[0xC1, 0xFF]);
    assert_eq!(vm.step_with(&idle_keys(), 0x5A), Ok(None));
    assert_eq!(vm.register(1), 0x5A);
    assert_eq!(vm.program_counter(), 0x202);
}

#[test]
fn unknown_words_do_nothing() {
    let mut vm = machine_with(&[0x01, 0x23, 0x50, 0x01, 0x80, 0x08, 0xE0, 0x00, 0xF0, 0xFF]);
    for step in 1..=5u16 {
        assert_eq!(vm.step(&idle_keys()), Ok(None));
        assert_eq!(vm.program_counter(), 0x200 + 2 * step);
    }
    for x in 0..16u8 {
        assert_eq!(vm.register(x), 0);
    }
    assert_eq!(vm.index(), 0);
    assert_eq!(vm.stack_pointer(), 0);
}

#[test]
fn execute_runs_a_word_without_moving_on() {
    let mut vm = machine_with(&[]);
    assert_eq!(vm.execute((0x6A, 0x99), &idle_keys()), Ok(None));
    assert_eq!(vm.register(0xA), 0x99);
    assert_eq!(vm.program_counter(), 0x200);
    assert_eq!(vm.execute((0x00, 0xEE), &idle_keys()), Err(Fault::StackUnderflow));
}
