use emulator::cpu::Cpu;
use emulator::display::Display;
use emulator::error::{CpuError, KeypadError, MemoryError};
use emulator::input::Keypad;
use emulator::memory::Memory;

struct Rig {
    cpu: Cpu,
    memory: Memory,
    display: Display,
    keypad: Keypad,
}

impl Rig {
    fn new() -> Rig {
        Rig { cpu: Cpu::new(), memory: Memory::new(), display: Display::new(), keypad: Keypad::new() }
    }

    fn run(&mut self, op: u16) -> Result<(), CpuError> {
        self.run_with(op, 0)
    }

    fn run_with(&mut self, op: u16, random: u8) -> Result<(), CpuError> {
        self.cpu.execute(op, random, &mut self.memory, &mut self.display, &mut self.keypad)
    }

    fn cycle(&mut self) -> Result<(), CpuError> {
        self.cpu.cycle(&mut self.memory, &mut self.display, &mut self.keypad)
    }

    fn set(&mut self, x: u16, value: u8) {
        self.run(0x6000 | (x << 8) | value as u16).unwrap();
    }

    fn v(&self, x: usize) -> u8 {
        self.cpu.get_registers()[x]
    }
}

#[test]
fn new_cpu_is_in_initial_state() {
    let cpu = Cpu::new();
    assert_eq!(cpu.get_pc(), 0x200);
    assert_eq!(cpu.get_sp(), 0);
    assert_eq!(cpu.get_i(), 0);
    assert_eq!(cpu.get_dt(), 0);
    assert_eq!(cpu.get_st(), 0);
    assert_eq!(*cpu.get_registers(), [0u8; 16]);
}

#[test]
fn cpu_reset_restores_initial_state() {
    let mut rig = Rig::new();
    rig.set(3, 9);
    rig.run(0xA123).unwrap();
    rig.run(0x2400).unwrap();
    rig.run(0xF315).unwrap();
    rig.run(0xF318).unwrap();
    rig.cpu.reset();
    assert_eq!(rig.cpu.get_pc(), 0x200);
    assert_eq!(rig.cpu.get_sp(), 0);
    assert_eq!(rig.cpu.get_i(), 0);
    assert_eq!(rig.cpu.get_dt(), 0);
    assert_eq!(rig.cpu.get_st(), 0);
    assert_eq!(*rig.cpu.get_registers(), [0u8; 16]);
}

#[test]
fn nop_changes_nothing() {
    let mut rig = Rig::new();
    rig.set(1, 5);
    assert_eq!(rig.run(0x0000), Ok(()));
    assert_eq!(rig.cpu.get_pc(), 0x200);
    assert_eq!(rig.v(1), 5);
}

#[test]
fn clear_screen_darkens_display() {
    let mut rig = Rig::new();
    rig.display.draw_sprite(0, 0, &[0xFF]);
    assert_eq!(rig.run(0x00E0), Ok(()));
    assert!(rig.display.get_buffer().iter().all(|row| row.iter().all(|pixel| !pixel)));
}

#[test]
fn jump_sets_program_counter() {
    let mut rig = Rig::new();
    assert_eq!(rig.run(0x1ABC), Ok(()));
    assert_eq!(rig.cpu.get_pc(), 0xABC);
}

#[test]
fn call_pushes_program_counter() {
    let mut rig = Rig::new();
    assert_eq!(rig.run(0x2345), Ok(()));
    assert_eq!(rig.cpu.get_pc(), 0x345);
    assert_eq!(rig.cpu.get_sp(), 1);
    assert_eq!(rig.memory.pop_stack(0), Ok(0x200));
}

#[test]
fn return_pops_program_counter() {
    let mut rig = Rig::new();
    rig.run(0x2345).unwrap();
    assert_eq!(rig.run(0x00EE), Ok(()));
    assert_eq!(rig.cpu.get_pc(), 0x200);
    assert_eq!(rig.cpu.get_sp(), 0);
}

#[test]
fn calls_return_last_in_first_out() {
    let mut rig = Rig::new();
    let mut sites = Vec::new();
    for k in 0..16u16 {
        rig.run(0x1000 | (0x210 + 6 * k)).unwrap();
        sites.push(rig.cpu.get_pc());
        assert_eq!(rig.run(0x2000 | (0x800 + k)), Ok(()));
        assert_eq!(rig.cpu.get_pc(), 0x800 + k);
        assert_eq!(rig.cpu.get_sp(), k + 1);
    }
    for k in (0..16usize).rev() {
        assert_eq!(rig.run(0x00EE), Ok(()));
        assert_eq!(rig.cpu.get_pc(), sites[k]);
        assert_eq!(rig.cpu.get_sp(), k as u16);
    }
}

#[test]
fn seventeenth_nested_call_overflows() {
    let mut rig = Rig::new();
    for _ in 0..16 {
        assert_eq!(rig.run(0x2300), Ok(()));
    }
    assert_eq!(rig.cpu.get_sp(), 16);
    rig.run(0x1456).unwrap();
    assert_eq!(
        rig.run(0x2300),
        Err(CpuError::Memory { source: MemoryError::StackOverflow { sp: 16 } })
    );
    assert_eq!(rig.cpu.get_sp(), 16);
    assert_eq!(rig.cpu.get_pc(), 0x456);
    assert_eq!(rig.run(0x00EE), Ok(()));
    assert_eq!(rig.cpu.get_sp(), 15);
    assert_eq!(rig.cpu.get_pc(), 0x300);
}

#[test]
fn return_on_empty_stack_underflows() {
    let mut rig = Rig::new();
    assert_eq!(
        rig.run(0x00EE),
        Err(CpuError::Memory { source: MemoryError::StackUnderflow { sp: 65535 } })
    );
    assert_eq!(rig.cpu.get_sp(), 0);
    assert_eq!(rig.cpu.get_pc(), 0x200);
    assert_eq!(rig.run(0x2300), Ok(()));
    assert_eq!(rig.cpu.get_sp(), 1);
}

#[test]
fn skip_if_equal_to_immediate() {
    let mut rig = Rig::new();
    rig.set(4, 0x42);
    rig.run(0x3442).unwrap();
    assert_eq!(rig.cpu.get_pc(), 0x202);
    rig.run(0x3443).unwrap();
    assert_eq!(rig.cpu.get_pc(), 0x202);
}

#[test]
fn skip_if_not_equal_to_immediate() {
    let mut rig = Rig::new();
    rig.set(4, 0x42);
    rig.run(0x4442).unwrap();
    assert_eq!(rig.cpu.get_pc(), 0x200);
    rig.run(0x4443).unwrap();
    assert_eq!(rig.cpu.get_pc(), 0x202);
}

#[test]
fn skip_if_registers_equal() {
    let mut rig = Rig::new();
    rig.set(1, 7);
    rig.set(2, 7);
    rig.set(3, 8);
    rig.run(0x5120).unwrap();
    assert_eq!(rig.cpu.get_pc(), 0x202);
    rig.run(0x5130).unwrap();
    assert_eq!(rig.cpu.get_pc(), 0x202);
}

#[test]
fn skip_if_registers_differ() {
    let mut rig = Rig::new();
    rig.set(1, 7);
    rig.set(2, 7);
    rig.set(3, 8);
    rig.run(0x9120).unwrap();
    assert_eq!(rig.cpu.get_pc(), 0x200);
    rig.run(0x9130).unwrap();
    assert_eq!(rig.cpu.get_pc(), 0x202);
}

#[test]
fn load_immediate_sets_register() {
    let mut rig = Rig::new();
    assert_eq!(rig.run(0x6A7F), Ok(()));
    assert_eq!(rig.v(0xA), 0x7F);
    assert_eq!(rig.v(0x9), 0);
    assert_eq!(rig.cpu.get_pc(), 0x200);
}

#[test]
fn add_immediate_wraps_modulo_256() {
    let mut rig = Rig::new();
    rig.set(2, 0xFF);
    assert_eq!(rig.run(0x7202), Ok(()));
    assert_eq!(rig.v(2), 1);
    assert_eq!(rig.v(0xF), 0);
    assert_eq!(rig.run(0x72FF), Ok(()));
    assert_eq!(rig.v(2), 0);
    assert_eq!(rig.run(0x7210), Ok(()));
    assert_eq!(rig.v(2), 0x10);
}

#[test]
fn add_immediate_holds_for_every_operand_pair() {
    for start in 0..=255u16 {
        for nn in [0u16, 1, 2, 127, 128, 254, 255] {
            let mut rig = Rig::new();
            rig.set(5, start as u8);
            assert_eq!(rig.run(0x7500 | nn), Ok(()));
            assert_eq!(rig.v(5) as u16, (start + nn) % 256);
        }
    }
}

#[test]
fn move_copies_register() {
    let mut rig = Rig::new();
    rig.set(1, 0x33);
    rig.run(0x8210).unwrap();
    assert_eq!(rig.v(2), 0x33);
    assert_eq!(rig.v(1), 0x33);
}

#[test]
fn bitwise_operations() {
    let mut rig = Rig::new();
    rig.set(1, 0b1100_1010);
    rig.set(2, 0b1010_0110);
    rig.run(0x8121).unwrap();
    assert_eq!(rig.v(1), 0b1110_1110);
    rig.set(1, 0b1100_1010);
    rig.run(0x8122).unwrap();
    assert_eq!(rig.v(1), 0b1000_0010);
    rig.set(1, 0b1100_1010);
    rig.run(0x8123).unwrap();
    assert_eq!(rig.v(1), 0b0110_1100);
    assert_eq!(rig.v(2), 0b1010_0110);
    assert_eq!(rig.v(0xF), 0);
}

#[test]
fn add_sets_carry_flag() {
    let mut rig = Rig::new();
    rig.set(1, 200);
    rig.set(2, 100);
    rig.run(0x8124).unwrap();
    assert_eq!(rig.v(1), 44);
    assert_eq!(rig.v(0xF), 1);
    rig.set(1, 200);
    rig.set(2, 55);
    rig.run(0x8124).unwrap();
    assert_eq!(rig.v(1), 255);
    assert_eq!(rig.v(0xF), 0);
    rig.set(2, 1);
    rig.run(0x8124).unwrap();
    assert_eq!(rig.v(1), 0);
    assert_eq!(rig.v(0xF), 1);
}

#[test]
fn add_into_flag_register_keeps_the_flag() {
    let mut rig = Rig::new();
    rig.set(0xF, 200);
    rig.set(2, 100);
    rig.run(0x8F24).unwrap();
    assert_eq!(rig.v(0xF), 1);
    rig.set(0xF, 3);
    rig.run(0x8F24).unwrap();
    assert_eq!(rig.v(0xF), 0);
}

#[test]
fn sub_sets_no_borrow_flag() {
    let mut rig = Rig::new();
    rig.set(1, 10);
    rig.set(2, 3);
    rig.run(0x8125).unwrap();
    assert_eq!(rig.v(1), 7);
    assert_eq!(rig.v(0xF), 1);
    rig.set(1, 3);
    rig.set(2, 10);
    rig.run(0x8125).unwrap();
    assert_eq!(rig.v(1), 249);
    assert_eq!(rig.v(0xF), 0);
    rig.set(1, 10);
    rig.set(2, 10);
    rig.run(0x8125).unwrap();
    assert_eq!(rig.v(1), 0);
    assert_eq!(rig.v(0xF), 1);
}

#[test]
fn sub_from_sets_no_borrow_flag() {
    let mut rig = Rig::new();
    rig.set(1, 3);
    rig.set(2, 10);
    rig.run(0x8127).unwrap();
    assert_eq!(rig.v(1), 7);
    assert_eq!(rig.v(0xF), 1);
    rig.set(1, 10);
    rig.set(2, 3);
    rig.run(0x8127).unwrap();
    assert_eq!(rig.v(1), 249);
    assert_eq!(rig.v(0xF), 0);
    rig.set(1, 10);
    rig.set(2, 10);
    rig.run(0x8127).unwrap();
    assert_eq!(rig.v(1), 0);
    assert_eq!(rig.v(0xF), 1);
}

#[test]
fn carry_and_borrow_flags_for_every_operand_pair() {
    for a in (0..=255u16).step_by(5) {
        for b in (0..=255u16).step_by(3) {
            let mut rig = Rig::new();
            rig.set(1, a as u8);
            rig.set(2, b as u8);
            rig.run(0x8124).unwrap();
            assert_eq!(rig.v(0xF) == 1, a + b > 255);
            assert_eq!(rig.v(1) as u16, (a + b) % 256);
            rig.set(1, a as u8);
            rig.run(0x8125).unwrap();
            assert_eq!(rig.v(0xF) == 1, a >= b);
            assert_eq!(rig.v(1) as u16, (256 + a - b) % 256);
            rig.set(1, a as u8);
            rig.run(0x8127).unwrap();
            assert_eq!(rig.v(0xF) == 1, b >= a);
            assert_eq!(rig.v(1) as u16, (256 + b - a) % 256);
        }
    }
}

#[test]
fn shift_right_takes_source_from_vy() {
    let mut rig = Rig::new();
    rig.set(1, 0xFF);
    rig.set(2, 0b0000_0101);
    rig.run(0x8126).unwrap();
    assert_eq!(rig.v(1), 0b0000_0010);
    assert_eq!(rig.v(2), 0b0000_0101);
    assert_eq!(rig.v(0xF), 1);
    rig.set(2, 0b1000_0010);
    rig.run(0x8126).unwrap();
    assert_eq!(rig.v(1), 0b0100_0001);
    assert_eq!(rig.v(0xF), 0);
}

#[test]
fn shift_left_takes_source_from_vy() {
    let mut rig = Rig::new();
    rig.set(1, 0xFF);
    rig.set(2, 0b1000_0101);
    rig.run(0x812E).unwrap();
    assert_eq!(rig.v(1), 0b0000_1010);
    assert_eq!(rig.v(2), 0b1000_0101);
    assert_eq!(rig.v(0xF), 1);
    rig.set(2, 0b0100_0001);
    rig.run(0x812E).unwrap();
    assert_eq!(rig.v(1), 0b1000_0010);
    assert_eq!(rig.v(0xF), 0);
}

#[test]
fn load_index_sets_i() {
    let mut rig = Rig::new();
    assert_eq!(rig.run(0xA22A), Ok(()));
    assert_eq!(rig.cpu.get_i(), 0x22A);
}

#[test]
fn jump_with_offset_adds_v0() {
    let mut rig = Rig::new();
    rig.set(0, 0x10);
    assert_eq!(rig.run(0xB300), Ok(()));
    assert_eq!(rig.cpu.get_pc(), 0x310);
    rig.set(0, 0xFF);
    assert_eq!(rig.run(0xBFFF), Ok(()));
    assert_eq!(rig.cpu.get_pc(), 0x10FE);
}

#[test]
fn random_is_masked_with_immediate() {
    let mut rig = Rig::new();
    assert_eq!(rig.run_with(0xC30F, 0xAB), Ok(()));
    assert_eq!(rig.v(3), 0x0B);
    assert_eq!(rig.run_with(0xC3F0, 0xAB), Ok(()));
    assert_eq!(rig.v(3), 0xA0);
    assert_eq!(rig.run_with(0xC3FF, 0xAB), Ok(()));
    assert_eq!(rig.v(3), 0xAB);
    assert_eq!(rig.run_with(0xC300, 0xAB), Ok(()));
    assert_eq!(rig.v(3), 0);
}

#[test]
fn random_byte_is_ignored_by_other_instructions() {
    let mut a = Rig::new();
    let mut b = Rig::new();
    assert_eq!(a.run_with(0x6155, 0x00), b.run_with(0x6155, 0xFF));
    assert_eq!(*a.cpu.get_registers(), *b.cpu.get_registers());
}

#[test]
fn cycle_draws_a_masked_random_byte() {
    for _ in 0..64 {
        let mut rig = Rig::new();
        rig.memory.write_bytes(0x200, &[0xC1, 0x0F, 0xC2, 0x00]).unwrap();
        rig.set(2, 0x77);
        assert_eq!(rig.cycle(), Ok(()));
        assert!(rig.v(1) <= 0x0F);
        assert_eq!(rig.cycle(), Ok(()));
        assert_eq!(rig.v(2), 0);
        assert_eq!(rig.cpu.get_pc(), 0x204);
    }
}

#[test]
fn draw_reads_sprite_at_i_and_sets_flag() {
    let mut rig = Rig::new();
    rig.memory.write_bytes(0x300, &[0xFF, 0x81]).unwrap();
    rig.run(0xA300).unwrap();
    rig.set(1, 4);
    rig.set(2, 6);
    rig.set(0xF, 9);
    assert_eq!(rig.run(0xD122), Ok(()));
    assert_eq!(rig.v(0xF), 0);
    let buffer = *rig.display.get_buffer();
    for x in 0..64 {
        assert_eq!(buffer[6][x], (4..12).contains(&x));
        assert_eq!(buffer[7][x], x == 4 || x == 11);
    }
    assert_eq!(rig.run(0xD121), Ok(()));
    assert_eq!(rig.v(0xF), 1);
    assert!(rig.display.get_buffer()[6].iter().all(|pixel| !pixel));
    assert_eq!(rig.cpu.get_i(), 0x300);
}

#[test]
fn draw_font_glyph() {
    let mut rig = Rig::new();
    rig.set(0, 0);
    rig.set(5, 0xA);
    rig.run(0xF529).unwrap();
    assert_eq!(rig.cpu.get_i(), 50);
    assert_eq!(rig.run(0xD005), Ok(()));
    let buffer = *rig.display.get_buffer();
    let rows = [0xF0u8, 0x90, 0xF0, 0x90, 0x90];
    for (y, row) in rows.iter().enumerate() {
        for x in 0..8 {
            assert_eq!(buffer[y][x], row & (0x80 >> x) != 0);
        }
    }
}

#[test]
fn draw_with_zero_rows_draws_nothing() {
    let mut rig = Rig::new();
    rig.set(0xF, 1);
    assert_eq!(rig.run(0xD000), Ok(()));
    assert_eq!(rig.v(0xF), 0);
    assert!(rig.display.get_buffer().iter().all(|row| row.iter().all(|pixel| !pixel)));
}

#[test]
fn draw_past_the_end_of_ram_fails() {
    let mut rig = Rig::new();
    rig.run(0xAFFE).unwrap();
    assert_eq!(rig.run(0xD002), Ok(()));
    assert_eq!(
        rig.run(0xD003),
        Err(CpuError::Memory {
            source: MemoryError::OutOfBoundsReadRange { start: 0xFFE, end: 0x1001 }
        })
    );
    assert_eq!(rig.v(0xF), 0);
}

#[test]
fn draw_with_index_near_wraparound_fails() {
    let mut rig = Rig::new();
    rig.run(0xAFFF).unwrap();
    rig.set(1, 0xFF);
    for _ in 0..240 {
        rig.run(0xF11E).unwrap();
    }
    rig.set(1, 0xEF);
    rig.run(0xF11E).unwrap();
    assert_eq!(rig.cpu.get_i(), 0xFFFE);
    assert_eq!(
        rig.run(0xD005),
        Err(CpuError::Memory {
            source: MemoryError::OutOfBoundsReadRange { start: 0xFFFE, end: 3 }
        })
    );
}

#[test]
fn skip_if_key_pressed() {
    let mut rig = Rig::new();
    rig.set(1, 0xB);
    assert_eq!(rig.run(0xE19E), Ok(()));
    assert_eq!(rig.cpu.get_pc(), 0x200);
    rig.keypad.press_key(0xB).unwrap();
    assert_eq!(rig.run(0xE19E), Ok(()));
    assert_eq!(rig.cpu.get_pc(), 0x202);
}

#[test]
fn skip_if_key_not_pressed() {
    let mut rig = Rig::new();
    rig.set(1, 0xB);
    assert_eq!(rig.run(0xE1A1), Ok(()));
    assert_eq!(rig.cpu.get_pc(), 0x202);
    rig.keypad.press_key(0xB).unwrap();
    assert_eq!(rig.run(0xE1A1), Ok(()));
    assert_eq!(rig.cpu.get_pc(), 0x202);
}

#[test]
fn key_query_with_bad_index_fails() {
    let mut rig = Rig::new();
    rig.set(1, 16);
    assert_eq!(
        rig.run(0xE19E),
        Err(CpuError::Keypad { source: KeypadError::OutOfBoundsKeyIndex { idx: 16 } })
    );
    rig.set(1, 0xFF);
    assert_eq!(
        rig.run(0xE1A1),
        Err(CpuError::Keypad { source: KeypadError::OutOfBoundsKeyIndex { idx: 255 } })
    );
    assert_eq!(rig.cpu.get_pc(), 0x200);
}

#[test]
fn timers_are_set_and_read() {
    let mut rig = Rig::new();
    rig.set(1, 3);
    rig.run(0xF115).unwrap();
    rig.run(0xF118).unwrap();
    assert_eq!(rig.cpu.get_dt(), 3);
    assert_eq!(rig.cpu.get_st(), 3);
    rig.run(0xF207).unwrap();
    assert_eq!(rig.v(2), 3);
}

#[test]
fn tick_timers_stops_at_zero() {
    let mut rig = Rig::new();
    rig.set(1, 2);
    rig.run(0xF115).unwrap();
    rig.set(1, 1);
    rig.run(0xF118).unwrap();
    rig.cpu.tick_timers();
    assert_eq!((rig.cpu.get_dt(), rig.cpu.get_st()), (1, 0));
    rig.cpu.tick_timers();
    assert_eq!((rig.cpu.get_dt(), rig.cpu.get_st()), (0, 0));
    rig.cpu.tick_timers();
    assert_eq!((rig.cpu.get_dt(), rig.cpu.get_st()), (0, 0));
    assert_eq!(rig.cpu.get_pc(), 0x200);
}

#[test]
fn wait_key_steps_back_while_no_key_is_down() {
    let mut rig = Rig::new();
    rig.run(0x1302).unwrap();
    assert_eq!(rig.run(0xF40A), Ok(()));
    assert_eq!(rig.cpu.get_pc(), 0x300);
    assert_eq!(rig.v(4), 0);
}

#[test]
fn wait_key_takes_lowest_key_that_is_down() {
    let mut rig = Rig::new();
    rig.keypad.press_key(0xC).unwrap();
    rig.keypad.press_key(0x5).unwrap();
    rig.keypad.press_key(0x9).unwrap();
    assert_eq!(rig.run(0xF40A), Ok(()));
    assert_eq!(rig.v(4), 5);
    assert_eq!(rig.cpu.get_pc(), 0x200);
    rig.keypad.press_key(0x0).unwrap();
    assert_eq!(rig.run(0xF40A), Ok(()));
    assert_eq!(rig.v(4), 0);
}

#[test]
fn wait_key_through_cycles() {
    let mut rig = Rig::new();
    rig.memory.write_bytes(0x200, &[0xF7, 0x0A, 0x60, 0x01]).unwrap();
    for _ in 0..5 {
        assert_eq!(rig.cycle(), Ok(()));
        assert_eq!(rig.cpu.get_pc(), 0x200);
    }
    rig.keypad.press_key(0xF).unwrap();
    rig.keypad.press_key(0xD).unwrap();
    assert_eq!(rig.cycle(), Ok(()));
    assert_eq!(rig.v(7), 0xD);
    assert_eq!(rig.cpu.get_pc(), 0x202);
    assert_eq!(rig.cycle(), Ok(()));
    assert_eq!(rig.v(0), 1);
}

#[test]
fn add_to_index_wraps() {
    let mut rig = Rig::new();
    rig.run(0xA100).unwrap();
    rig.set(1, 0x20);
    rig.run(0xF11E).unwrap();
    assert_eq!(rig.cpu.get_i(), 0x120);
    rig.set(1, 0xFF);
    for _ in 0..256 {
        rig.run(0xF11E).unwrap();
    }
    assert_eq!(rig.cpu.get_i(), ((0x120u32 + 255 * 256) % 65536) as u16);
    rig.run(0xF11E).unwrap();
    assert_eq!(rig.cpu.get_i(), ((0x120u32 + 255 * 257) % 65536) as u16);
    assert_eq!(rig.v(0xF), 0);
}

#[test]
fn font_address_is_five_times_digit() {
    let mut rig = Rig::new();
    rig.set(1, 0);
    rig.run(0xF129).unwrap();
    assert_eq!(rig.cpu.get_i(), 0);
    rig.set(1, 0xF);
    rig.run(0xF129).unwrap();
    assert_eq!(rig.cpu.get_i(), 75);
    rig.set(1, 0xFF);
    rig.run(0xF129).unwrap();
    assert_eq!(rig.cpu.get_i(), 1275);
}

#[test]
fn bcd_stores_decimal_digits() {
    let mut rig = Rig::new();
    rig.run(0xA300).unwrap();
    rig.set(1, 255);
    assert_eq!(rig.run(0xF133), Ok(()));
    assert_eq!(rig.memory.read_bytes(0x300, 0x303), Ok(vec![2, 5, 5]));
    rig.set(1, 7);
    assert_eq!(rig.run(0xF133), Ok(()));
    assert_eq!(rig.memory.read_bytes(0x300, 0x303), Ok(vec![0, 0, 7]));
    rig.set(1, 109);
    assert_eq!(rig.run(0xF133), Ok(()));
    assert_eq!(rig.memory.read_bytes(0x300, 0x303), Ok(vec![1, 0, 9]));
    assert_eq!(rig.cpu.get_i(), 0x300);
}

#[test]
fn bcd_for_every_byte() {
    let mut rig = Rig::new();
    rig.run(0xA400).unwrap();
    for value in 0..=255u16 {
        rig.set(3, value as u8);
        rig.run(0xF333).unwrap();
        let digits = rig.memory.read_bytes(0x400, 0x403).unwrap();
        assert!(digits.iter().all(|digit| *digit < 10));
        assert_eq!(digits[0] as u16 * 100 + digits[1] as u16 * 10 + digits[2] as u16, value);
    }
}

#[test]
fn bcd_at_the_end_of_ram_writes_what_fits() {
    let mut rig = Rig::new();
    rig.run(0xAFFE).unwrap();
    rig.set(1, 123);
    assert_eq!(
        rig.run(0xF133),
        Err(CpuError::Memory { source: MemoryError::OutOfBoundsWrite { addr: 4096 } })
    );
    assert_eq!(rig.memory.read_bytes(4094, 4096), Ok(vec![1, 2]));
    rig.run(0xAFFD).unwrap();
    assert_eq!(rig.run(0xF133), Ok(()));
    assert_eq!(rig.memory.read_bytes(4093, 4096), Ok(vec![1, 2, 3]));
}

#[test]
fn store_writes_registers_and_advances_i() {
    let mut rig = Rig::new();
    for x in 0..16u16 {
        rig.set(x, 0x10 + x as u8);
    }
    rig.run(0xA300).unwrap();
    assert_eq!(rig.run(0xF355), Ok(()));
    assert_eq!(rig.memory.read_bytes(0x300, 0x305), Ok(vec![0x10, 0x11, 0x12, 0x13, 0]));
    assert_eq!(rig.cpu.get_i(), 0x304);
    assert_eq!(rig.run(0xF055), Ok(()));
    assert_eq!(rig.memory.read_byte(0x304), Ok(0x10));
    assert_eq!(rig.cpu.get_i(), 0x305);
    rig.run(0xA400).unwrap();
    assert_eq!(rig.run(0xFF55), Ok(()));
    assert_eq!(
        rig.memory.read_bytes(0x400, 0x411),
        Ok((0x10..0x20).chain([0]).collect::<Vec<u8>>())
    );
    assert_eq!(rig.cpu.get_i(), 0x410);
}

#[test]
fn store_at_the_end_of_ram_writes_what_fits() {
    let mut rig = Rig::new();
    for x in 0..4u16 {
        rig.set(x, 0x21 + x as u8);
    }
    rig.run(0xAFFE).unwrap();
    assert_eq!(
        rig.run(0xF355),
        Err(CpuError::Memory { source: MemoryError::OutOfBoundsWrite { addr: 4096 } })
    );
    assert_eq!(rig.memory.read_bytes(4094, 4096), Ok(vec![0x21, 0x22]));
    assert_eq!(rig.cpu.get_i(), 4096);
    assert_eq!(
        rig.run(0xF055),
        Err(CpuError::Memory { source: MemoryError::OutOfBoundsWrite { addr: 4096 } })
    );
    assert_eq!(rig.cpu.get_i(), 4096);
}

#[test]
fn load_reads_registers_and_advances_i() {
    let mut rig = Rig::new();
    rig.memory.write_bytes(0x300, &[9, 8, 7, 6, 5]).unwrap();
    rig.set(4, 0x44);
    rig.run(0xA300).unwrap();
    assert_eq!(rig.run(0xF365), Ok(()));
    assert_eq!(rig.cpu.get_registers()[..5], [9, 8, 7, 6, 0x44]);
    assert_eq!(rig.cpu.get_i(), 0x304);
    assert_eq!(rig.run(0xF065), Ok(()));
    assert_eq!(rig.v(0), 5);
    assert_eq!(rig.cpu.get_i(), 0x305);
}

#[test]
fn load_at_the_end_of_ram_reads_what_is_there() {
    let mut rig = Rig::new();
    rig.memory.write_bytes(4094, &[0x31, 0x32]).unwrap();
    rig.set(2, 0x55);
    rig.run(0xAFFE).unwrap();
    assert_eq!(
        rig.run(0xF265),
        Err(CpuError::Memory { source: MemoryError::OutOfBoundsRead { addr: 4096 } })
    );
    assert_eq!(rig.cpu.get_registers()[..3], [0x31, 0x32, 0x55]);
    assert_eq!(rig.cpu.get_i(), 4096);
}

#[test]
fn store_then_load_round_trips() {
    let mut rig = Rig::new();
    for x in 0..16u16 {
        rig.set(x, 0xA0 + x as u8);
    }
    rig.run(0xA500).unwrap();
    rig.run(0xFF55).unwrap();
    let saved = *rig.cpu.get_registers();
    for x in 0..16u16 {
        rig.set(x, 0);
    }
    rig.run(0xA500).unwrap();
    rig.run(0xFF65).unwrap();
    assert_eq!(*rig.cpu.get_registers(), saved);
}

#[test]
fn words_outside_the_base_set_are_refused() {
    for op in [0x0001u16, 0x00E1, 0x00FF, 0x0123, 0x5001, 0x500F, 0x8008, 0x800F, 0x9001, 0xE000,
        0xE09F, 0xE1A0, 0xF000, 0xF00B, 0xF034, 0xF056, 0xF066, 0xFFFF]
    {
        let mut rig = Rig::new();
        assert_eq!(rig.run(op), Err(CpuError::UnimplementedOpcode { opcode: op }));
        assert_eq!(rig.cpu.get_pc(), 0x200);
        assert_eq!(*rig.cpu.get_registers(), [0u8; 16]);
    }
}

#[test]
fn cycle_fetches_big_endian_and_advances() {
    let mut rig = Rig::new();
    rig.memory.write_bytes(0x200, &[0x60, 0x05, 0xA2, 0x2A, 0x12, 0x00]).unwrap();
    assert_eq!(rig.cycle(), Ok(()));
    assert_eq!(rig.v(0), 5);
    assert_eq!(rig.cpu.get_pc(), 0x202);
    assert_eq!(rig.cycle(), Ok(()));
    assert_eq!(rig.cpu.get_i(), 0x22A);
    assert_eq!(rig.cpu.get_pc(), 0x204);
    assert_eq!(rig.cycle(), Ok(()));
    assert_eq!(rig.cpu.get_pc(), 0x200);
}

#[test]
fn cycle_on_refused_word_has_advanced_program_counter() {
    let mut rig = Rig::new();
    rig.memory.write_bytes(0x200, &[0xFF, 0xFF]).unwrap();
    assert_eq!(rig.cycle(), Err(CpuError::UnimplementedOpcode { opcode: 0xFFFF }));
    assert_eq!(rig.cpu.get_pc(), 0x202);
}

#[test]
fn fetch_outside_ram_fails_and_changes_nothing() {
    let mut rig = Rig::new();
    rig.run(0x1FFF).unwrap();
    assert_eq!(
        rig.cycle(),
        Err(CpuError::Memory { source: MemoryError::OutOfBoundsRead { addr: 4096 } })
    );
    assert_eq!(rig.cpu.get_pc(), 0xFFF);
    rig.set(0, 0xFF);
    rig.run(0xBFFF).unwrap();
    assert_eq!(
        rig.cycle(),
        Err(CpuError::Memory { source: MemoryError::OutOfBoundsRead { addr: 0x10FE } })
    );
    assert_eq!(rig.cpu.get_pc(), 0x10FE);
}

#[test]
fn cycle_runs_last_instruction_in_ram() {
    let mut rig = Rig::new();
    rig.memory.write_bytes(0xFFE, &[0x6B, 0x42]).unwrap();
    rig.run(0x1FFE).unwrap();
    assert_eq!(rig.cycle(), Ok(()));
    assert_eq!(rig.v(0xB), 0x42);
    assert_eq!(rig.cpu.get_pc(), 0x1000);
}

#[test]
fn errors_convert_into_cpu_errors() {
    let memory = MemoryError::OutOfBoundsRead { addr: 5000 };
    assert_eq!(CpuError::from(memory), CpuError::Memory { source: memory });
    let keypad = KeypadError::OutOfBoundsKeyIndex { idx: 20 };
    assert_eq!(CpuError::from(keypad), CpuError::Keypad { source: keypad });
}
