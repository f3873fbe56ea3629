use chip8_vm::machine::{Keys, VMState};
use chip8_vm::model::Fault;
use chip8_vm::screen::{blank_display, draw_sprite, Display};

fn no_keys() -> Keys {
    [false; 16]
}

fn one_key(k: usize) -> Keys {
    let mut keys = [false; 16];
    keys[k] = true;
    keys
}

fn booted(rom: &[u8]) -> VMState {
    let mut vm = VMState::new(700);
    vm.load(&rom.to_vec());
    vm
}

fn count_lit(d: &Display) -> usize {
    d.iter().map(|row| row.iter().filter(|p| **p).count()).sum()
}

#[test]
fn reference_rom_draws_nothing_and_stays_silent() {
    let mut vm = booted(&[0xA2, 0x2A, 0x60, 0x00, 0x61, 0x00, 0xD0, 0x15, 0xF0, 0x18]);
    assert_eq!(vm.step(&no_keys()), Ok(None));
    assert_eq!(vm.index(), 0x22A);
    assert_eq!(vm.step(&no_keys()), Ok(None));
    assert_eq!(vm.step(&no_keys()), Ok(None));
    assert_eq!(vm.step(&no_keys()), Ok(Some(blank_display())));
    assert_eq!(vm.register(0xF), 0);
    assert_eq!(vm.step(&no_keys()), Ok(None));
    assert_eq!(vm.sound_timer(), 0);
    assert!(!vm.buzzer_active());
    assert_eq!(vm.program_counter(), 0x20A);
    assert_eq!(vm.display(), blank_display());
}

#[test]
fn glyph_zero_is_drawn_from_the_font() {
    let mut vm = booted(&[0x60, 0x00, 0xF0, 0x29, 0xD0, 0x05]);
    assert_eq!(vm.step(&no_keys()), Ok(None));
    assert_eq!(vm.step(&no_keys()), Ok(None));
    let shown = vm.step(&no_keys()).unwrap().unwrap();
    let glyph: [u8; 5] = [0xF0, 0x90, 0x90, 0x90, 0xF0];
    for y in 0..32 {
        for x in 0..64 {
            let want = y < 5 && x < 8 && (glyph[y] >> (7 - x)) & 1 == 1;
            assert_eq!(shown[y][x], want);
        }
    }
    assert_eq!(vm.display(), shown);
    assert_eq!(vm.register(0xF), 0);
}

#[test]
fn every_glyph_is_in_memory() {
    let vm = VMState::new(700);
    let font: [u8; 80] = [
        0xF0, 0x90, 0x90, 0x90, 0xF0, 0x20, 0x60, 0x20, 0x20, 0x70, 0xF0, 0x10, 0xF0, 0x80, 0xF0,
        0xF0, 0x10, 0xF0, 0x10, 0xF0, 0x90, 0x90, 0xF0, 0x10, 0x10, 0xF0, 0x80, 0xF0, 0x10, 0xF0,
        0xF0, 0x80, 0xF0, 0x90, 0xF0, 0xF0, 0x10, 0x20, 0x40, 0x40, 0xF0, 0x90, 0xF0, 0x90, 0xF0,
        0xF0, 0x90, 0xF0, 0x10, 0xF0, 0xF0, 0x90, 0xF0, 0x90, 0x90, 0xE0, 0x90, 0xE0, 0x90, 0xE0,
        0xF0, 0x80, 0x80, 0x80, 0xF0, 0xE0, 0x90, 0x90, 0x90, 0xE0, 0xF0, 0x80, 0xF0, 0x80, 0xF0,
        0xF0, 0x80, 0xF0, 0x80, 0x80,
    ];
    for a in 0..4096u16 {
        let want = if (0x50..0xA0).contains(&a) { font[(a - 0x50) as usize] } else { 0 };
        assert_eq!(vm.memory_at(a), want);
    }
}

#[test]
fn new_machine_is_zeroed() {
    let vm = VMState::new(700);
    assert_eq!(vm.program_counter(), 0x200);
    assert_eq!(vm.stack_pointer(), 0);
    assert_eq!(vm.index(), 0);
    assert_eq!(vm.delay_timer(), 0);
    assert_eq!(vm.sound_timer(), 0);
    assert!(!vm.buzzer_active());
    assert_eq!(vm.display(), blank_display());
    for x in 0..16u8 {
        assert_eq!(vm.register(x), 0);
    }
}

#[test]
fn load_copies_the_program_and_nothing_else() {
    let mut vm = VMState::new(700);
    vm.load(&vec![0xDE, 0xAD, 0xBE]);
    assert_eq!(vm.memory_at(0x1FF), 0);
    assert_eq!(vm.memory_at(0x200), 0xDE);
    assert_eq!(vm.memory_at(0x201), 0xAD);
    assert_eq!(vm.memory_at(0x202), 0xBE);
    assert_eq!(vm.memory_at(0x203), 0);
    assert_eq!(vm.memory_at(0x50), 0xF0);
    assert_eq!(vm.program_counter(), 0x200);
    assert_eq!(vm.fetch(), Ok((0xDE, 0xAD)));
}

#[test]
fn load_takes_a_program_that_fills_memory() {
    let mut vm = VMState::new(700);
    vm.load(&vec![0x5A; 4096 - 0x200]);
    assert_eq!(vm.memory_at(0x200), 0x5A);
    assert_eq!(vm.memory_at(0xFFF), 0x5A);
    assert_eq!(vm.memory_at(0x1FF), 0);
}

#[test]
fn clear_draw_clear_leaves_a_blank_screen() {
    let mut vm = booted(&[0x00, 0xE0, 0x60, 0x03, 0xF0, 0x29, 0xD0, 0x05, 0x00, 0xE0]);
    assert_eq!(vm.step(&no_keys()), Ok(Some(blank_display())));
    assert_eq!(vm.step(&no_keys()), Ok(None));
    assert_eq!(vm.step(&no_keys()), Ok(None));
    let drawn = vm.step(&no_keys()).unwrap().unwrap();
    assert!(count_lit(&drawn) > 0);
    assert_eq!(vm.step(&no_keys()), Ok(Some(blank_display())));
    assert_eq!(vm.display(), blank_display());
}

#[test]
fn drawing_twice_restores_the_screen_and_collides() {
    let mut vm = booted(&[0x60, 0x0A, 0x61, 0x07, 0xF0, 0x29, 0xD0, 0x15, 0xD0, 0x15]);
    for _ in 0..3 {
        assert_eq!(vm.step(&no_keys()), Ok(None));
    }
    let before = vm.display();
    let once = vm.step(&no_keys()).unwrap().unwrap();
    assert_eq!(vm.register(0xF), 0);
    assert_eq!(count_lit(&once), 14);
    assert!(once[7][10]);
    let twice = vm.step(&no_keys()).unwrap().unwrap();
    assert_eq!(vm.register(0xF), 1);
    assert_eq!(twice, before);
    assert_eq!(twice, blank_display());
}

#[test]
fn drawing_an_empty_sprite_twice_does_not_collide() {
    let mut vm = booted(&[0xA3, 0x00, 0xD0, 0x13, 0xD0, 0x13]);
    assert_eq!(vm.step(&no_keys()), Ok(None));
    assert_eq!(vm.step(&no_keys()), Ok(Some(blank_display())));
    assert_eq!(vm.register(0xF), 0);
    assert_eq!(vm.step(&no_keys()), Ok(Some(blank_display())));
    assert_eq!(vm.register(0xF), 0);
}

#[test]
fn sprite_corner_is_taken_modulo_the_screen() {
    let mut vm = booted(&[0x60, 0x42, 0x61, 0x21, 0xA0, 0x50, 0xD0, 0x11]);
    for _ in 0..3 {
        assert_eq!(vm.step(&no_keys()), Ok(None));
    }
    let shown = vm.step(&no_keys()).unwrap().unwrap();
    assert_eq!(count_lit(&shown), 4);
    for x in 2..6 {
        assert!(shown[1][x]);
    }
}

#[test]
fn sprite_is_cut_at_the_right_edge() {
    let mut memory = [0u8; 4096];
    memory[0x300] = 0xFF;
    let mut d = blank_display();
    let hit = draw_sprite(&mut d, &memory, 0x300, 1, 60, 3);
    assert!(!hit);
    assert_eq!(count_lit(&d), 4);
    for x in 60..64 {
        assert!(d[3][x]);
    }
    for x in 0..4 {
        assert!(!d[3][x]);
        assert!(!d[4][x]);
    }
}

#[test]
fn sprite_is_cut_at_the_lower_edge() {
    let mut memory = [0u8; 4096];
    for a in 0x300..0x305 {
        memory[a] = 0x80;
    }
    let mut d = blank_display();
    let hit = draw_sprite(&mut d, &memory, 0x300, 5, 0, 30);
    assert!(!hit);
    assert_eq!(count_lit(&d), 2);
    assert!(d[30][0]);
    assert!(d[31][0]);
    assert!(!d[0][0]);
}

#[test]
fn sprite_collision_flips_only_set_bits() {
    let mut memory = [0u8; 4096];
    memory[0] = 0b1010_0000;
    memory[1] = 0b0110_0000;
    let mut d = blank_display();
    assert!(!draw_sprite(&mut d, &memory, 0, 1, 8, 8));
    assert!(d[8][8] && !d[8][9] && d[8][10]);
    assert!(draw_sprite(&mut d, &memory, 1, 1, 8, 8));
    assert!(d[8][8] && d[8][9] && !d[8][10] && !d[8][11]);
    assert_eq!(count_lit(&d), 2);
}

#[test]
fn sprite_of_no_rows_changes_nothing() {
    let memory = [0xFFu8; 4096];
    let mut d = blank_display();
    assert!(!draw_sprite(&mut d, &memory, 4096, 0, 0, 0));
    assert_eq!(d, blank_display());
}

#[test]
fn sprite_beyond_memory_is_a_fault() {
    let mut vm = booted(&[0xAF, 0xFD, 0xD0, 0x04, 0xD0, 0x03]);
    assert_eq!(vm.step(&no_keys()), Ok(None));
    assert_eq!(vm.step(&no_keys()), Err(Fault::MemoryOutOfRange));
    assert_eq!(vm.program_counter(), 0x202);
    assert_eq!(vm.execute((0xD0, 0x03), &no_keys()), Ok(Some(blank_display())));
}

#[test]
fn wait_key_idles_without_a_key() {
    let mut vm = booted(&[0xF3, 0x0A]);
    for _ in 0..5 {
        assert_eq!(vm.step(&no_keys()), Ok(None));
        assert_eq!(vm.program_counter(), 0x200);
        assert_eq!(vm.register(3), 0);
    }
}

#[test]
fn wait_key_takes_the_one_key_that_is_down() {
    for k in 0..16usize {
        let mut vm = booted(&[0xF3, 0x0A]);
        assert_eq!(vm.step(&no_keys()), Ok(None));
        assert_eq!(vm.step(&one_key(k)), Ok(None));
        assert_eq!(vm.program_counter(), 0x202);
        assert_eq!(vm.register(3), k as u8);
    }
}

#[test]
fn wait_key_takes_the_lowest_of_several() {
    let mut vm = booted(&[0xF3, 0x0A]);
    let mut keys = one_key(9);
    keys[4] = true;
    keys[12] = true;
    assert_eq!(vm.step(&keys), Ok(None));
    assert_eq!(vm.register(3), 4);
}

#[test]
fn wait_key_at_the_last_word_goes_back_around() {
    let mut vm = booted(&[0x1F, 0xFE]);
    let mut rom = vec![0u8; 4096 - 0x200];
    rom[0] = 0x1F;
    rom[1] = 0xFE;
    rom[0xFFE - 0x200] = 0xF0;
    rom[0xFFF - 0x200] = 0x0A;
    vm.load(&rom);
    assert_eq!(vm.step(&no_keys()), Ok(None));
    assert_eq!(vm.program_counter(), 0xFFE);
    assert_eq!(vm.step(&no_keys()), Ok(None));
    assert_eq!(vm.program_counter(), 0xFFE);
    assert_eq!(vm.step(&one_key(7)), Ok(None));
    assert_eq!(vm.program_counter(), 0x000);
    assert_eq!(vm.register(0), 7);
}

#[test]
fn skips_on_keys() {
    let mut vm = booted(&[0x60, 0x05, 0xE0, 0x9E]);
    assert_eq!(vm.step(&no_keys()), Ok(None));
    assert_eq!(vm.step(&one_key(5)), Ok(None));
    assert_eq!(vm.program_counter(), 0x206);
    let mut vm = booted(&[0x60, 0x05, 0xE0, 0x9E]);
    assert_eq!(vm.step(&no_keys()), Ok(None));
    assert_eq!(vm.step(&one_key(6)), Ok(None));
    assert_eq!(vm.program_counter(), 0x204);
    let mut vm = booted(&[0x60, 0x05, 0xE0, 0xA1]);
    assert_eq!(vm.step(&no_keys()), Ok(None));
    assert_eq!(vm.step(&one_key(5)), Ok(None));
    assert_eq!(vm.program_counter(), 0x204);
    let mut vm = booted(&[0x60, 0x05, 0xE0, 0xA1]);
    assert_eq!(vm.step(&no_keys()), Ok(None));
    assert_eq!(vm.step(&one_key(6)), Ok(None));
    assert_eq!(vm.program_counter(), 0x206);
}

#[test]
fn key_number_above_fifteen_is_a_fault() {
    let mut vm = booted(&[0x60, 0x10, 0xE0, 0x9E]);
    assert_eq!(vm.step(&no_keys()), Ok(None));
    assert_eq!(vm.step(&[true; 16]), Err(Fault::KeyOutOfRange));
    assert_eq!(vm.execute((0xE0, 0xA1), &no_keys()), Err(Fault::KeyOutOfRange));
    assert_eq!(vm.program_counter(), 0x202);
}
