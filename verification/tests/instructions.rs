use rust8::cpu::CPU;
use rust8::fault::{Fault, FaultKind, Status};
use rust8::state::State;

fn machine_with(opcode: u16) -> State {
    let mut state = State::new();
    state.opcode = opcode;
    state
}

#[test]
fn load_byte_sets_the_register_and_no_other() {
    for r in 0..16u16 {
        for k in [0u8, 1, 0x7F, 0x80, 0xFF] {
            let mut state = machine_with(0x6000 | (r << 8) | k as u16);
            for i in 0..16 {
                state.registers[i] = 0xA0 + i as u8;
            }
            assert_eq!(state.ld_vx_byte(), Status::Running);
            for i in 0..16 {
                let expected = if i == r as usize { k } else { 0xA0 + i as u8 };
                assert_eq!(state.registers[i], expected);
            }
            assert_eq!(state.pc, 0x202);
        }
    }
}

#[test]
fn add_registers_with_carry() {
    let mut state = machine_with(0x8124);
    state.registers[1] = 200;
    state.registers[2] = 100;
    assert_eq!(state.add_vx_vy(), Status::Running);
    assert_eq!(state.registers[0xF], 1);
    assert_eq!(state.registers[1], 44);
    assert_eq!(state.registers[2], 100);
    assert_eq!(state.pc, 0x202);
}

#[test]
fn add_registers_without_carry() {
    let mut state = machine_with(0x8124);
    state.registers[1] = 10;
    state.registers[2] = 20;
    state.registers[0xF] = 7;
    assert_eq!(state.add_vx_vy(), Status::Running);
    assert_eq!(state.registers[0xF], 0);
    assert_eq!(state.registers[1], 30);
}

#[test]
fn add_into_the_flag_register_keeps_the_sum() {
    let mut state = machine_with(0x8F14);
    state.registers[0xF] = 200;
    state.registers[1] = 100;
    state.add_vx_vy();
    assert_eq!(state.registers[0xF], 44);
}

#[test]
fn add_reads_the_flag_register_before_it_writes_it() {
    let mut state = machine_with(0x81F4);
    state.registers[1] = 250;
    state.registers[0xF] = 10;
    state.add_vx_vy();
    assert_eq!(state.registers[1], 4);
    assert_eq!(state.registers[0xF], 1);
}

#[test]
fn subtract_with_borrow() {
    let mut state = machine_with(0x8125);
    state.registers[1] = 5;
    state.registers[2] = 10;
    state.registers[0xF] = 9;
    assert_eq!(state.sub_vx_vy(), Status::Running);
    assert_eq!(state.registers[0xF], 0);
    assert_eq!(state.registers[1], 251);
}

#[test]
fn subtract_without_borrow() {
    let mut state = machine_with(0x8125);
    state.registers[1] = 10;
    state.registers[2] = 5;
    assert_eq!(state.sub_vx_vy(), Status::Running);
    assert_eq!(state.registers[0xF], 1);
    assert_eq!(state.registers[1], 5);
}

#[test]
fn subtract_equal_values_clears_the_flag() {
    let mut state = machine_with(0x8125);
    state.registers[1] = 9;
    state.registers[2] = 9;
    state.registers[0xF] = 1;
    state.sub_vx_vy();
    assert_eq!(state.registers[0xF], 0);
    assert_eq!(state.registers[1], 0);
}

#[test]
fn subtract_reversed() {
    let mut state = machine_with(0x8127);
    state.registers[1] = 5;
    state.registers[2] = 10;
    state.subn_vx_vy();
    assert_eq!(state.registers[0xF], 1);
    assert_eq!(state.registers[1], 5);

    let mut state = machine_with(0x8127);
    state.registers[1] = 10;
    state.registers[2] = 5;
    state.subn_vx_vy();
    assert_eq!(state.registers[0xF], 0);
    assert_eq!(state.registers[1], 251);
}

#[test]
fn add_byte_wraps_and_leaves_the_flag() {
    let mut state = machine_with(0x73FF);
    state.registers[3] = 2;
    state.registers[0xF] = 0x55;
    assert_eq!(state.add_vx_byte(), Status::Running);
    assert_eq!(state.registers[3], 1);
    assert_eq!(state.registers[0xF], 0x55);
}

#[test]
fn bitwise_operations() {
    let mut state = machine_with(0x8121);
    state.registers[1] = 0b1100;
    state.registers[2] = 0b1010;
    state.or_vx_vy();
    assert_eq!(state.registers[1], 0b1110);

    let mut state = machine_with(0x8122);
    state.registers[1] = 0b1100;
    state.registers[2] = 0b1010;
    state.and_vx_vy();
    assert_eq!(state.registers[1], 0b1000);

    let mut state = machine_with(0x8123);
    state.registers[1] = 0b1100;
    state.registers[2] = 0b1010;
    state.xor_vx_vy();
    assert_eq!(state.registers[1], 0b0110);

    let mut state = machine_with(0x8120);
    state.registers[2] = 0x42;
    state.ld_vx_vy();
    assert_eq!(state.registers[1], 0x42);
}

#[test]
fn shift_right_moves_bit_zero_to_the_flag() {
    let mut state = machine_with(0x8306);
    state.registers[3] = 0b1000_0101;
    assert_eq!(state.shr_vx_vy(), Status::Running);
    assert_eq!(state.registers[3], 0b0100_0010);
    assert_eq!(state.registers[0xF], 1);

    let mut state = machine_with(0x8306);
    state.registers[3] = 0b0000_0100;
    state.registers[0xF] = 1;
    state.shr_vx_vy();
    assert_eq!(state.registers[3], 0b0000_0010);
    assert_eq!(state.registers[0xF], 0);
}

#[test]
fn shift_left_moves_bit_seven_to_the_flag() {
    let mut state = machine_with(0x830E);
    state.registers[3] = 0b1000_0101;
    assert_eq!(state.shl_vx_vy(), Status::Running);
    assert_eq!(state.registers[3], 0b0000_1010);
    assert_eq!(state.registers[0xF], 1);

    let mut state = machine_with(0x830E);
    state.registers[3] = 0b0100_0001;
    state.registers[0xF] = 1;
    state.shl_vx_vy();
    assert_eq!(state.registers[3], 0b1000_0010);
    assert_eq!(state.registers[0xF], 0);
}

#[test]
fn skips_compare_register_and_byte() {
    let mut state = machine_with(0x3A42);
    state.registers[0xA] = 0x42;
    assert_eq!(state.se_vx_byte(), Status::Running);
    assert_eq!(state.pc, 0x204);

    let mut state = machine_with(0x3A42);
    state.registers[0xA] = 0x41;
    state.se_vx_byte();
    assert_eq!(state.pc, 0x202);

    let mut state = machine_with(0x4A42);
    state.registers[0xA] = 0x41;
    state.sne_vx_byte();
    assert_eq!(state.pc, 0x204);

    let mut state = machine_with(0x4A42);
    state.registers[0xA] = 0x42;
    state.sne_vx_byte();
    assert_eq!(state.pc, 0x202);
}

#[test]
fn skips_compare_two_registers() {
    let mut state = machine_with(0x5120);
    state.registers[1] = 7;
    state.registers[2] = 7;
    state.se_vx_vy();
    assert_eq!(state.pc, 0x204);

    let mut state = machine_with(0x5120);
    state.registers[1] = 7;
    state.registers[2] = 8;
    state.se_vx_vy();
    assert_eq!(state.pc, 0x202);

    let mut state = machine_with(0x9120);
    state.registers[1] = 7;
    state.registers[2] = 8;
    state.sne_vx_vy();
    assert_eq!(state.pc, 0x204);

    let mut state = machine_with(0x9120);
    state.registers[1] = 7;
    state.registers[2] = 7;
    state.sne_vx_vy();
    assert_eq!(state.pc, 0x202);
}

#[test]
fn jumps_set_the_program_counter() {
    let mut state = machine_with(0x1ABC);
    assert_eq!(state.jp_addr(), Status::Running);
    assert_eq!(state.pc, 0xABC);

    let mut state = machine_with(0xBFFF);
    state.registers[0] = 0xFF;
    assert_eq!(state.jp_v0_addr(), Status::Running);
    assert_eq!(state.pc, 0x10FE);
}

#[test]
fn call_then_return_comes_back_behind_the_call() {
    let mut state = machine_with(0x2400);
    state.pc = 0x234;
    assert_eq!(state.call_addr(), Status::Running);
    assert_eq!(state.pc, 0x400);
    assert_eq!(state.sp, 1);
    assert_eq!(state.stack[0], 0x236);
    assert_eq!(state.ret(), Status::Running);
    assert_eq!(state.pc, 0x236);
    assert_eq!(state.sp, 0);
}

#[test]
fn calls_nest_sixteen_deep_and_the_next_is_a_stack_fault() {
    let mut state = State::new();
    for depth in 1..=16u16 {
        state.opcode = 0x2000 | (0x300 + 2 * depth);
        state.pc = 0x200 + 2 * depth;
        assert_eq!(state.call_addr(), Status::Running);
        assert_eq!(state.sp as u16, depth);
        assert_eq!(state.pc, 0x300 + 2 * depth);
    }
    state.opcode = 0x2ABC;
    let pc = state.pc;
    assert_eq!(
        state.call_addr(),
        Status::Fault(Fault { kind: FaultKind::StackFault, pc, opcode: 0x2ABC })
    );
    assert_eq!(state.sp, 16);
    assert_eq!(state.pc, pc);
    for depth in (1..=16u16).rev() {
        assert_eq!(state.ret(), Status::Running);
        assert_eq!(state.pc, 0x200 + 2 * depth + 2);
        assert_eq!(state.sp as u16, depth - 1);
    }
    state.opcode = 0x00EE;
    let pc = state.pc;
    assert_eq!(
        state.ret(),
        Status::Fault(Fault { kind: FaultKind::StackFault, pc, opcode: 0x00EE })
    );
    assert_eq!(state.sp, 0);
}

#[test]
fn index_instructions() {
    let mut state = machine_with(0xA123);
    assert_eq!(state.ld_i_addr(), Status::Running);
    assert_eq!(state.index, 0x123);
    assert_eq!(state.pc, 0x202);

    let mut state = machine_with(0xF21E);
    state.index = 0xFFFF;
    state.registers[2] = 3;
    state.registers[0xF] = 9;
    state.add_i_vx();
    assert_eq!(state.index, 2);
    assert_eq!(state.registers[0xF], 9);

    let mut state = machine_with(0xF229);
    state.registers[2] = 0xA;
    state.ld_f_vx();
    assert_eq!(state.index, 0x50 + 50);
}

#[test]
fn timers_are_read_and_set() {
    let mut state = machine_with(0xF407);
    state.delay = 33;
    state.ld_vx_dt();
    assert_eq!(state.registers[4], 33);

    let mut state = machine_with(0xF415);
    state.registers[4] = 17;
    state.ld_dt_vx();
    assert_eq!(state.delay, 17);
    assert_eq!(state.sound, 0);

    let mut state = machine_with(0xF418);
    state.registers[4] = 19;
    state.ld_st_vx();
    assert_eq!(state.sound, 19);
    assert_eq!(state.delay, 0);
}

#[test]
fn decimal_digits_of_157() {
    let mut state = machine_with(0xF333);
    state.registers[3] = 157;
    state.index = 0x300;
    assert_eq!(state.ld_b_vx(), Status::Running);
    assert_eq!(state.memory[0x300], 1);
    assert_eq!(state.memory[0x301], 5);
    assert_eq!(state.memory[0x302], 7);
    assert_eq!(state.index, 0x300);
    assert_eq!(state.pc, 0x202);
}

#[test]
fn decimal_digits_at_the_end_of_memory() {
    let mut state = machine_with(0xF333);
    state.registers[3] = 209;
    state.index = 4093;
    assert_eq!(state.ld_b_vx(), Status::Running);
    assert_eq!(&state.memory[4093..], &[2, 0, 9]);

    let mut state = machine_with(0xF333);
    state.registers[3] = 209;
    state.index = 4094;
    assert_eq!(
        state.ld_b_vx(),
        Status::Fault(Fault { kind: FaultKind::MemoryFault, pc: 0x200, opcode: 0xF333 })
    );
    assert_eq!(state.memory[4094], 0);
    assert_eq!(state.memory[4095], 0);
    assert_eq!(state.pc, 0x200);
}

#[test]
fn registers_go_to_memory_and_the_index_moves_on() {
    let mut state = machine_with(0xF355);
    for i in 0..16 {
        state.registers[i] = 0x10 + i as u8;
    }
    state.index = 0x400;
    assert_eq!(state.ld_mem_vx(), Status::Running);
    assert_eq!(&state.memory[0x400..0x405], &[0x10, 0x11, 0x12, 0x13, 0]);
    assert_eq!(state.index, 0x404);
    assert_eq!(state.pc, 0x202);
}

#[test]
fn registers_come_from_memory_and_the_index_moves_on() {
    let mut state = machine_with(0xF265);
    for i in 0..8 {
        state.memory[0x400 + i] = 0x20 + i as u8;
    }
    state.registers[3] = 0x99;
    state.index = 0x400;
    assert_eq!(state.ld_vx_mem(), Status::Running);
    assert_eq!(&state.registers[0..4], &[0x20, 0x21, 0x22, 0x99]);
    assert_eq!(state.index, 0x403);
}

#[test]
fn register_transfers_outside_memory_are_memory_faults() {
    let mut state = machine_with(0xF355);
    state.index = 4093;
    state.registers[0] = 1;
    let fault = Status::Fault(Fault { kind: FaultKind::MemoryFault, pc: 0x200, opcode: 0xF355 });
    assert_eq!(state.ld_mem_vx(), fault);
    assert_eq!(state.memory[4093], 0);
    assert_eq!(state.index, 4093);

    let mut state = machine_with(0xF365);
    state.index = 4093;
    state.memory[4093] = 1;
    let fault = Status::Fault(Fault { kind: FaultKind::MemoryFault, pc: 0x200, opcode: 0xF365 });
    assert_eq!(state.ld_vx_mem(), fault);
    assert_eq!(state.registers[0], 0);

    let mut state = machine_with(0xF355);
    state.index = 4092;
    state.registers[3] = 0xEE;
    assert_eq!(state.ld_mem_vx(), Status::Running);
    assert_eq!(state.memory[4095], 0xEE);
    assert_eq!(state.index, 4096);
}

#[test]
fn random_byte_is_masked() {
    let mut state = machine_with(0xC50F);
    assert_eq!(state.rnd_vx_with(0xA7), Status::Running);
    assert_eq!(state.registers[5], 0x07);
    assert_eq!(state.pc, 0x202);

    for _ in 0..64 {
        let mut state = machine_with(0xC53C);
        state.registers[5] = 0xFF;
        assert_eq!(state.rnd_vx_byte(), Status::Running);
        assert_eq!(state.registers[5] & !0x3C, 0);
        assert_eq!(state.pc, 0x202);
    }
}

#[test]
fn key_skips() {
    let mut state = machine_with(0xE39E);
    state.registers[3] = 0xB;
    state.keyboard.press_key(0xB).unwrap();
    assert_eq!(state.skp_vx(), Status::Running);
    assert_eq!(state.pc, 0x204);

    let mut state = machine_with(0xE39E);
    state.registers[3] = 0xB;
    state.skp_vx();
    assert_eq!(state.pc, 0x202);

    let mut state = machine_with(0xE3A1);
    state.registers[3] = 0xB;
    state.sknp_vx();
    assert_eq!(state.pc, 0x204);

    let mut state = machine_with(0xE3A1);
    state.registers[3] = 0xB;
    state.keyboard.press_key(0xB).unwrap();
    state.sknp_vx();
    assert_eq!(state.pc, 0x202);
}

#[test]
fn key_skips_reject_a_value_that_is_no_key() {
    let mut state = machine_with(0xE39E);
    state.registers[3] = 16;
    assert_eq!(
        state.skp_vx(),
        Status::Fault(Fault { kind: FaultKind::MemoryFault, pc: 0x200, opcode: 0xE39E })
    );
    assert_eq!(state.pc, 0x200);

    let mut state = machine_with(0xE3A1);
    state.registers[3] = 200;
    assert_eq!(
        state.sknp_vx(),
        Status::Fault(Fault { kind: FaultKind::MemoryFault, pc: 0x200, opcode: 0xE3A1 })
    );
    assert_eq!(state.pc, 0x200);
}

#[test]
fn clear_turns_every_pixel_off() {
    let mut state = machine_with(0x00E0);
    state.display.vram[0] = true;
    state.display.vram[2047] = true;
    assert_eq!(state.cls(), Status::Running);
    assert!(state.display.vram.iter().all(|p| !*p));
    assert!(state.display.dirty);
    assert_eq!(state.pc, 0x202);
}

fn lit(state: &State) -> Vec<(usize, usize)> {
    let mut on = Vec::new();
    for y in 0..32 {
        for x in 0..64 {
            if state.display.vram[y * 64 + x] {
                on.push((x, y));
            }
        }
    }
    on
}

#[test]
fn draw_twice_restores_the_display() {
    let mut state = machine_with(0xD123);
    state.registers[1] = 10;
    state.registers[2] = 20;
    state.index = 0x300;
    state.memory[0x300] = 0b1010_0000;
    state.memory[0x301] = 0b0000_0001;
    state.memory[0x302] = 0b1111_1111;
    state.display.vram[20 * 64 + 10] = true;
    state.display.vram[5] = true;
    let before = state.display.vram;

    assert_eq!(state.drw_vx_vy_nibble(), Status::Running);
    assert_eq!(state.registers[0xF], 1);
    assert!(state.display.dirty);
    assert!(!state.display.vram[20 * 64 + 10]);
    assert!(state.display.vram[20 * 64 + 12]);
    assert!(state.display.vram[21 * 64 + 17]);
    assert!(state.display.vram[5]);
    assert_ne!(state.display.vram, before);

    assert_eq!(state.drw_vx_vy_nibble(), Status::Running);
    assert_eq!(state.display.vram, before);
    assert_eq!(state.registers[0xF], 1);
    assert_eq!(state.pc, 0x204);
}

#[test]
fn draw_twice_on_a_dark_display_collides_only_the_second_time() {
    let mut state = machine_with(0xD011);
    state.index = 0x300;
    state.memory[0x300] = 0b1000_0000;
    state.drw_vx_vy_nibble();
    assert_eq!(state.registers[0xF], 0);
    assert_eq!(lit(&state), vec![(0, 0)]);
    state.drw_vx_vy_nibble();
    assert_eq!(state.registers[0xF], 1);
    assert_eq!(lit(&state), vec![]);
}

#[test]
fn draw_wraps_at_the_edges() {
    let mut state = machine_with(0xD122);
    state.registers[1] = 62;
    state.registers[2] = 31;
    state.index = 0x300;
    state.memory[0x300] = 0b1110_0000;
    state.memory[0x301] = 0b0001_0000;
    assert_eq!(state.drw_vx_vy_nibble(), Status::Running);
    assert_eq!(lit(&state), vec![(1, 0), (0, 31), (62, 31), (63, 31)]);
    assert_eq!(state.registers[0xF], 0);
}

#[test]
fn draw_takes_the_coordinates_modulo_the_display() {
    let mut state = machine_with(0xD121);
    state.registers[1] = 64 + 3;
    state.registers[2] = 32 * 7 + 30;
    state.index = 0x300;
    state.memory[0x300] = 0b0100_0001;
    state.drw_vx_vy_nibble();
    assert_eq!(lit(&state), vec![(4, 30), (10, 30)]);
}

#[test]
fn draw_of_no_rows_only_clears_the_flag() {
    let mut state = machine_with(0xD120);
    state.registers[0xF] = 1;
    state.index = 0xFFFF;
    state.display.vram[7] = true;
    assert_eq!(state.drw_vx_vy_nibble(), Status::Running);
    assert_eq!(state.registers[0xF], 0);
    assert_eq!(lit(&state), vec![(7, 0)]);
    assert!(state.display.dirty);
}

#[test]
fn draw_outside_memory_is_a_memory_fault() {
    let mut state = machine_with(0xD122);
    state.index = 4095;
    state.memory[4095] = 0xFF;
    state.registers[0xF] = 3;
    assert_eq!(
        state.drw_vx_vy_nibble(),
        Status::Fault(Fault { kind: FaultKind::MemoryFault, pc: 0x200, opcode: 0xD122 })
    );
    assert_eq!(lit(&state), vec![]);
    assert_eq!(state.registers[0xF], 3);
    assert!(!state.display.dirty);

    let mut state = machine_with(0xD121);
    state.index = 4095;
    state.memory[4095] = 0x80;
    assert_eq!(state.drw_vx_vy_nibble(), Status::Running);
    assert_eq!(lit(&state), vec![(0, 0)]);
}

#[test]
fn draw_reads_the_coordinates_before_it_writes_the_flag() {
    let mut state = machine_with(0xDF01);
    state.registers[0xF] = 8;
    state.index = 0x300;
    state.memory[0x300] = 0x80;
    state.drw_vx_vy_nibble();
    assert_eq!(lit(&state), vec![(8, 0)]);
    assert_eq!(state.registers[0xF], 0);
}

#[test]
fn key_wait_blocks_until_a_key_goes_down() {
    let mut state = machine_with(0xF60A);
    state.keyboard.press_key(2).unwrap();
    assert_eq!(state.ld_vx_k(), Status::Blocked);
    assert!(state.blocked);
    assert_eq!(state.pc, 0x200);
    assert_eq!(state.ld_vx_k(), Status::Blocked);
    assert_eq!(state.pc, 0x200);
    state.keyboard.press_key(2).unwrap();
    assert_eq!(state.ld_vx_k(), Status::Blocked);
    state.keyboard.press_key(9).unwrap();
    state.keyboard.press_key(4).unwrap();
    assert_eq!(state.ld_vx_k(), Status::Running);
    assert!(!state.blocked);
    assert_eq!(state.registers[6], 9);
    assert_eq!(state.pc, 0x202);
}
