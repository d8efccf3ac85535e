use chip8_vm::instructions::{DecodeError, Instruction};
use chip8_vm::interpreter::{
    empty_display, speed_from_frequency, LoadError, VirtualMachine, MEM_SIZE, PROGRAM_START,
};

const NO_KEYS: [bool; 16] = [false; 16];

fn lit_count(d: &[[bool; 64]; 32]) -> usize {
    d.iter().map(|row| row.iter().filter(|p| **p).count()).sum()
}

fn machine_with(program: &[u8]) -> VirtualMachine {
    VirtualMachine::new(700).load(program).expect("program fits")
}

#[test]
fn new_machine_is_cleared() {
    let vm = VirtualMachine::new(700);
    assert!(vm.memory.iter().all(|b| *b == 0));
    assert!(vm.registers.iter().all(|r| *r == 0));
    assert_eq!(vm.pc, PROGRAM_START);
    assert_eq!(vm.mar, 0);
    assert_eq!(vm.stack_pointer, 0);
    assert_eq!(lit_count(&vm.display), 0);
    assert!(!vm.buzzer_active());
}

#[test]
fn clock_period_from_frequency() {
    assert_eq!(speed_from_frequency(700), 1_428_571);
    assert_eq!(speed_from_frequency(1), 1_000_000_000);
    assert_eq!(VirtualMachine::new(500).speed(), 2_000_000);
}

#[test]
fn empty_display_is_dark() {
    assert_eq!(lit_count(&empty_display()), 0);
}

#[test]
fn load_places_program_at_offset() {
    let vm = machine_with(&[0xA1, 0x23, 0x60]);
    assert_eq!(vm.memory[0x200], 0xA1);
    assert_eq!(vm.memory[0x201], 0x23);
    assert_eq!(vm.memory[0x202], 0x60);
    assert_eq!(vm.memory[0x203], 0);
    assert_eq!(vm.memory[0], 0);
    assert_eq!(vm.pc, 0x200);
}

#[test]
fn load_accepts_largest_program() {
    let program = vec![0x12u8; MEM_SIZE - 0x200];
    let vm = machine_with(&program);
    assert_eq!(vm.memory[MEM_SIZE - 1], 0x12);
    assert_eq!(vm.memory[0x1FF], 0);
}

#[test]
fn load_refuses_too_large_program() {
    let program = vec![0u8; MEM_SIZE - 0x200 + 1];
    let r = VirtualMachine::new(700).load(&program);
    assert_eq!(
        r.err(),
        Some(LoadError::TooLarge { len: MEM_SIZE - 0x200 + 1, capacity: MEM_SIZE - 0x200 })
    );
}

#[test]
fn nop_program_steps_to_next_word() {
    let mut vm = machine_with(&[0x00, 0x00]);
    let r = vm.step(&NO_KEYS);
    assert_eq!(r, Ok(None));
    assert_eq!(vm.pc, 0x202);
}

#[test]
fn nop_changes_only_program_counter() {
    let mut vm = machine_with(&[0x00, 0x00]);
    vm.registers[2] = 9;
    vm.display[4][5] = true;
    vm.mar = 0x321;
    let before = vm;
    assert_eq!(vm.step(&NO_KEYS), Ok(None));
    assert_eq!(vm.pc, before.pc + 2);
    assert_eq!(vm.registers, before.registers);
    assert_eq!(vm.display, before.display);
    assert_eq!(vm.memory, before.memory);
    assert_eq!(vm.mar, before.mar);
    assert_eq!(vm.stack, before.stack);
}

#[test]
fn program_counter_wraps_at_end_of_memory() {
    let mut vm = VirtualMachine::new(700);
    vm.pc = (MEM_SIZE - 2) as u16;
    assert_eq!(vm.step(&NO_KEYS), Ok(None));
    assert_eq!(vm.pc, 0);
}

#[test]
fn cls_clears_every_pixel() {
    let mut vm = VirtualMachine::new(700);
    for row in vm.display.iter_mut() {
        for px in row.iter_mut() {
            *px = true;
        }
    }
    let out = vm.execute(Instruction::CLS);
    assert_eq!(out, Some(empty_display()));
    assert_eq!(lit_count(&vm.display), 0);
}

#[test]
fn jump_is_absolute() {
    let mut vm = machine_with(&[0x13, 0x00]);
    assert_eq!(vm.step(&NO_KEYS), Ok(None));
    assert_eq!(vm.pc, 0x300);
    let mut other = VirtualMachine::new(700);
    other.pc = 0x7AA;
    assert_eq!(other.execute(Instruction::JP(0x300)), None);
    assert_eq!(other.pc, 0x300);
}

#[test]
fn load_register_then_read() {
    let mut vm = VirtualMachine::new(700);
    assert_eq!(vm.execute(Instruction::LD(3, 0x42)), None);
    assert_eq!(vm.registers[3], 0x42);
}

#[test]
fn add_wraps_without_flag() {
    let mut vm = VirtualMachine::new(700);
    vm.execute(Instruction::LD(3, 0x02));
    assert_eq!(vm.execute(Instruction::ADD(3, 0xFF)), None);
    assert_eq!(vm.registers[3], 0x01);
    assert_eq!(vm.registers[0xF], 0);
}

#[test]
fn load_index_sets_index_register() {
    let mut vm = machine_with(&[0xA2, 0x2A]);
    assert_eq!(vm.step(&NO_KEYS), Ok(None));
    assert_eq!(vm.mar, 0x22A);
}

#[test]
fn unknown_opcode_leaves_state_unchanged() {
    let mut vm = machine_with(&[0x80, 0x14]);
    let before = vm;
    assert_eq!(vm.step(&NO_KEYS), Err(DecodeError::Unrecognised(0x8014)));
    assert_eq!(vm.pc, before.pc);
    assert_eq!(vm.registers, before.registers);
    assert_eq!(vm.memory, before.memory);
}

#[test]
fn draw_sets_pixels_and_clears_flag() {
    let mut vm = VirtualMachine::new(700);
    vm.memory[0x300] = 0b1010_0000;
    vm.mar = 0x300;
    vm.registers[0] = 2;
    vm.registers[1] = 3;
    vm.registers[0xF] = 7;
    let out = vm.execute(Instruction::DRW(0, 1, 1)).expect("draw reports the display");
    assert_eq!(out, vm.display);
    assert!(vm.display[3][2]);
    assert!(!vm.display[3][3]);
    assert!(vm.display[3][4]);
    assert_eq!(lit_count(&vm.display), 2);
    assert_eq!(vm.registers[0xF], 0);
}

#[test]
fn draw_collision_sets_flag() {
    let mut vm = VirtualMachine::new(700);
    vm.memory[0x300] = 0b1000_0000;
    vm.mar = 0x300;
    vm.display[0][0] = true;
    vm.execute(Instruction::DRW(0, 1, 1));
    assert!(!vm.display[0][0]);
    assert_eq!(vm.registers[0xF], 1);
}

#[test]
fn draw_zero_height_still_reports_and_clears_flag() {
    let mut vm = VirtualMachine::new(700);
    vm.registers[0xF] = 1;
    assert_eq!(vm.execute(Instruction::DRW(0, 1, 0)), Some(empty_display()));
    assert_eq!(vm.registers[0xF], 0);
}

#[test]
fn draw_twice_restores_display() {
    let mut vm = VirtualMachine::new(700);
    for (k, b) in [0xF0u8, 0x90, 0x90, 0x90, 0xF0].iter().enumerate() {
        vm.memory[0x300 + k] = *b;
    }
    vm.mar = 0x300;
    vm.registers[0] = 10;
    vm.registers[1] = 12;
    vm.execute(Instruction::DRW(0, 1, 5));
    assert_eq!(vm.registers[0xF], 0);
    assert_eq!(lit_count(&vm.display), 14);
    vm.execute(Instruction::DRW(0, 1, 5));
    assert_eq!(vm.registers[0xF], 1);
    assert_eq!(vm.display, empty_display());
}

#[test]
fn draw_twice_blank_sprite_has_no_collision() {
    let mut vm = VirtualMachine::new(700);
    vm.mar = 0x300;
    vm.execute(Instruction::DRW(0, 1, 3));
    vm.execute(Instruction::DRW(0, 1, 3));
    assert_eq!(vm.registers[0xF], 0);
    assert_eq!(vm.display, empty_display());
}

#[test]
fn draw_clips_at_right_edge() {
    let mut vm = VirtualMachine::new(700);
    for k in 0..5 {
        vm.memory[0x300 + k] = 0xFF;
    }
    vm.mar = 0x300;
    vm.registers[0] = 60;
    vm.registers[1] = 0;
    vm.execute(Instruction::DRW(0, 1, 5));
    for row in 0..5 {
        for col in 60..64 {
            assert!(vm.display[row][col]);
        }
        for col in 0..4 {
            assert!(!vm.display[row][col]);
        }
    }
    assert_eq!(lit_count(&vm.display), 20);
}

#[test]
fn draw_clips_at_bottom_edge() {
    let mut vm = VirtualMachine::new(700);
    for k in 0..5 {
        vm.memory[0x300 + k] = 0xFF;
    }
    vm.mar = 0x300;
    vm.registers[0] = 0;
    vm.registers[1] = 30;
    vm.execute(Instruction::DRW(0, 1, 5));
    for col in 0..8 {
        assert!(vm.display[30][col]);
        assert!(vm.display[31][col]);
        for row in 0..3 {
            assert!(!vm.display[row][col]);
        }
    }
    assert_eq!(lit_count(&vm.display), 16);
}

#[test]
fn draw_position_wraps_onto_screen() {
    let mut vm = VirtualMachine::new(700);
    vm.memory[0x300] = 0x80;
    vm.mar = 0x300;
    vm.registers[0] = 64 + 5;
    vm.registers[1] = 32 + 7;
    vm.execute(Instruction::DRW(0, 1, 1));
    assert!(vm.display[7][5]);
    assert_eq!(lit_count(&vm.display), 1);
}

#[test]
fn draw_sprite_read_wraps_memory() {
    let mut vm = VirtualMachine::new(700);
    vm.memory[MEM_SIZE - 1] = 0x80;
    vm.memory[0] = 0x40;
    vm.mar = (MEM_SIZE - 1) as u16;
    vm.execute(Instruction::DRW(0, 1, 2));
    assert!(vm.display[0][0]);
    assert!(vm.display[1][1]);
    assert_eq!(lit_count(&vm.display), 2);
}

#[test]
fn step_draw_program_reports_display() {
    // LDI 0x206; DRW V0, V1, 1; then the sprite byte.
    let mut vm = machine_with(&[0xA2, 0x06, 0xD0, 0x11, 0x00, 0x00, 0xC0]);
    assert_eq!(vm.step(&NO_KEYS), Ok(None));
    let out = vm.step(&NO_KEYS).expect("decodes");
    assert_eq!(out, Some(vm.display));
    assert!(vm.display[0][0]);
    assert!(vm.display[0][1]);
    assert_eq!(vm.pc, 0x204);
}
