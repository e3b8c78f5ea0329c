use chip8::cpu::Cpu;
use chip8::delay_timer::{ticks_due, DelayTimer};
use chip8::font::FONT;
use chip8::frame::CpuFault;
use chip8::instructions::Instruction;
use chip8::keypad::{keypad_index, HostKey};
use chip8::screen::{Screen, FRAME_BYTES, SCREEN_WIDTH};

fn fresh() -> (Cpu, Screen) {
    let mut cpu = Cpu::new();
    cpu.load_font(&FONT);
    (cpu, Screen::new())
}

#[test]
fn decode_covers_the_opcode_table() {
    assert_eq!(Instruction::decode(0x00E0), Instruction::ClearScreen);
    assert_eq!(Instruction::decode(0x00EE), Instruction::Ret);
    assert_eq!(Instruction::decode(0x0123), Instruction::Unknown(0x123));
    assert_eq!(Instruction::decode(0x1ABC), Instruction::Jump(0xABC));
    assert_eq!(Instruction::decode(0x2ABC), Instruction::Call(0xABC));
    assert_eq!(Instruction::decode(0x3A12), Instruction::SkipIE { vx: 0xA, val: 0x12 });
    assert_eq!(Instruction::decode(0x4A12), Instruction::SkipNE { vx: 0xA, val: 0x12 });
    assert_eq!(Instruction::decode(0x5AB0), Instruction::SkipRE { vx: 0xA, vy: 0xB });
    assert_eq!(Instruction::decode(0x6A12), Instruction::SetRegister { reg: 0xA, val: 0x12 });
    assert_eq!(Instruction::decode(0x7A12), Instruction::AddValue { reg: 0xA, val: 0x12 });
    assert_eq!(Instruction::decode(0x8AB0), Instruction::Mov { vx: 0xA, vy: 0xB });
    assert_eq!(Instruction::decode(0x8AB1), Instruction::Or { vx: 0xA, vy: 0xB });
    assert_eq!(Instruction::decode(0x8AB2), Instruction::And { vx: 0xA, vy: 0xB });
    assert_eq!(Instruction::decode(0x8AB3), Instruction::Xor { vx: 0xA, vy: 0xB });
    assert_eq!(Instruction::decode(0x8AB4), Instruction::AddReg { vx: 0xA, vy: 0xB });
    assert_eq!(Instruction::decode(0x8AB5), Instruction::SubReg { vx: 0xA, vy: 0xB });
    assert_eq!(Instruction::decode(0x8AB6), Instruction::Msr { vx: 0xA, vy: 0xB });
    assert_eq!(Instruction::decode(0x8AB7), Instruction::RevSub { vx: 0xA, vy: 0xB });
    assert_eq!(Instruction::decode(0x8ABE), Instruction::Msl { vx: 0xA, vy: 0xB });
    assert_eq!(Instruction::decode(0x8AB8), Instruction::Unknown(0xAB8));
    assert_eq!(Instruction::decode(0x9AB0), Instruction::SkipRN { vx: 0xA, vy: 0xB });
    assert_eq!(Instruction::decode(0xA123), Instruction::SetI(0x123));
    assert_eq!(Instruction::decode(0xB123), Instruction::JumpAdd(0x123));
    assert_eq!(Instruction::decode(0xC3F0), Instruction::RandMask { vx: 3, val: 0xF0 });
    assert_eq!(Instruction::decode(0xD125), Instruction::Display { vx: 1, vy: 2, val: 5 });
    assert_eq!(Instruction::decode(0xE19E), Instruction::SkipIK { vx: 1 });
    assert_eq!(Instruction::decode(0xE1A1), Instruction::SkipNK { vx: 1 });
    assert_eq!(Instruction::decode(0xE1B1), Instruction::Unknown(0x1B1));
    assert_eq!(Instruction::decode(0x5AB1), Instruction::Unknown(0xAB1));
    assert_eq!(Instruction::decode(0x9ABF), Instruction::Unknown(0xABF));
    assert_eq!(Instruction::decode(0xE19F), Instruction::Unknown(0x19F));
    assert_eq!(Instruction::decode(0xE1A2), Instruction::Unknown(0x1A2));
    assert_eq!(Instruction::decode(0xF107), Instruction::MovDT { vx: 1 });
    assert_eq!(Instruction::decode(0xF10A), Instruction::WaitK { vx: 1 });
    assert_eq!(Instruction::decode(0xF115), Instruction::SetDT { vx: 1 });
    assert_eq!(Instruction::decode(0xF118), Instruction::SetST { vx: 1 });
    assert_eq!(Instruction::decode(0xF11E), Instruction::AddI { vx: 1 });
    assert_eq!(Instruction::decode(0xF129), Instruction::SetIR { vx: 1 });
    assert_eq!(Instruction::decode(0xF133), Instruction::BCD { vx: 1 });
    assert_eq!(Instruction::decode(0xF155), Instruction::StoreMem { vx: 1 });
    assert_eq!(Instruction::decode(0xF165), Instruction::FillReg { vx: 1 });
    assert_eq!(Instruction::decode(0xF199), Instruction::Unknown(0x199));
}

#[test]
fn new_cpu_starts_at_program_start() {
    let cpu = Cpu::new();
    assert_eq!(cpu.pc, 0x200);
    assert_eq!(cpu.index, 0);
    assert!(cpu.stack.is_empty());
    assert_eq!(cpu.registers, [0u8; 16]);
    assert_eq!(cpu.keys, [0u8; 16]);
    assert_eq!(cpu.wait_for_key, None);
    assert_eq!(cpu.delay_timer.get(), 0);
    assert_eq!(cpu.sound_timer.get(), 0);
}

#[test]
fn font_and_rom_land_at_their_addresses() {
    let (mut cpu, _) = fresh();
    assert_eq!(&cpu.mem[0x050..0x0A0], &FONT[..]);
    assert_eq!(cpu.mem[0x04F], 0);
    assert_eq!(cpu.mem[0x0A0], 0);
    cpu.load_rom(&[0x12, 0x34, 0x56]);
    assert_eq!(&cpu.mem[0x200..0x203], &[0x12, 0x34, 0x56]);
    assert_eq!(cpu.mem[0x203], 0);
    assert_eq!(cpu.read_opcode(), 0x1234);
    assert_eq!(cpu.pc, 0x202);
}

#[test]
fn call_then_ret_comes_back() {
    let (mut cpu, mut screen) = fresh();
    cpu.pc = 0x246;
    cpu.execute(Instruction::Call(0x300), &mut screen);
    assert_eq!(cpu.pc, 0x300);
    assert_eq!(cpu.stack, vec![0x246]);
    cpu.execute(Instruction::Ret, &mut screen);
    assert_eq!(cpu.pc, 0x246);
    assert!(cpu.stack.is_empty());
}

#[test]
fn skips_on_registers_and_values() {
    let (mut cpu, mut screen) = fresh();
    cpu.registers[1] = 7;
    cpu.registers[2] = 7;
    cpu.execute(Instruction::SkipNE { vx: 1, val: 7 }, &mut screen);
    assert_eq!(cpu.pc, 0x200);
    cpu.execute(Instruction::SkipNE { vx: 1, val: 8 }, &mut screen);
    assert_eq!(cpu.pc, 0x202);
    cpu.execute(Instruction::SkipRE { vx: 1, vy: 2 }, &mut screen);
    assert_eq!(cpu.pc, 0x204);
    cpu.execute(Instruction::SkipRN { vx: 1, vy: 2 }, &mut screen);
    assert_eq!(cpu.pc, 0x204);
    cpu.registers[2] = 8;
    cpu.execute(Instruction::SkipRN { vx: 1, vy: 2 }, &mut screen);
    assert_eq!(cpu.pc, 0x206);
}

#[test]
fn logic_and_shifts() {
    let (mut cpu, mut screen) = fresh();
    cpu.registers[0] = 0b1100;
    cpu.registers[1] = 0b1010;
    cpu.execute(Instruction::Or { vx: 0, vy: 1 }, &mut screen);
    assert_eq!(cpu.registers[0], 0b1110);
    cpu.execute(Instruction::And { vx: 0, vy: 1 }, &mut screen);
    assert_eq!(cpu.registers[0], 0b1010);
    cpu.execute(Instruction::Xor { vx: 0, vy: 1 }, &mut screen);
    assert_eq!(cpu.registers[0], 0);
    cpu.execute(Instruction::Mov { vx: 2, vy: 1 }, &mut screen);
    assert_eq!(cpu.registers[2], 0b1010);
    cpu.registers[3] = 0b1000_0001;
    cpu.execute(Instruction::Msl { vx: 4, vy: 3 }, &mut screen);
    assert_eq!(cpu.registers[4], 0b0000_0010);
    assert_eq!(cpu.registers[0xF], 1);
    cpu.registers[3] = 0b0100_0000;
    cpu.execute(Instruction::Msl { vx: 4, vy: 3 }, &mut screen);
    assert_eq!(cpu.registers[4], 0b1000_0000);
    assert_eq!(cpu.registers[0xF], 0);
    cpu.registers[3] = 0b10;
    cpu.execute(Instruction::Msr { vx: 4, vy: 3 }, &mut screen);
    assert_eq!(cpu.registers[4], 1);
    assert_eq!(cpu.registers[0xF], 0);
}

#[test]
fn wrapping_arithmetic() {
    let (mut cpu, mut screen) = fresh();
    cpu.registers[0] = 250;
    cpu.execute(Instruction::AddValue { reg: 0, val: 10 }, &mut screen);
    assert_eq!(cpu.registers[0], 4);
    cpu.registers[0] = 50;
    cpu.registers[1] = 100;
    cpu.execute(Instruction::SubReg { vx: 0, vy: 1 }, &mut screen);
    assert_eq!(cpu.registers[0], 206);
    assert_eq!(cpu.registers[0xF], 0);
    cpu.registers[0] = 30;
    cpu.registers[1] = 100;
    cpu.execute(Instruction::RevSub { vx: 0, vy: 1 }, &mut screen);
    assert_eq!(cpu.registers[0], 70);
    assert_eq!(cpu.registers[0xF], 1);
    cpu.registers[0] = 100;
    cpu.registers[1] = 30;
    cpu.execute(Instruction::RevSub { vx: 0, vy: 1 }, &mut screen);
    assert_eq!(cpu.registers[0], 186);
    assert_eq!(cpu.registers[0xF], 0);
}

#[test]
fn flag_register_as_destination_keeps_the_flag() {
    let (mut cpu, mut screen) = fresh();
    cpu.registers[0xF] = 200;
    cpu.registers[1] = 100;
    cpu.execute(Instruction::AddReg { vx: 0xF, vy: 1 }, &mut screen);
    assert_eq!(cpu.registers[0xF], 1);
    cpu.registers[1] = 0b11;
    cpu.execute(Instruction::Msr { vx: 0xF, vy: 1 }, &mut screen);
    assert_eq!(cpu.registers[0xF], 1);
}

#[test]
fn index_and_jumps() {
    let (mut cpu, mut screen) = fresh();
    cpu.execute(Instruction::SetI(0x123), &mut screen);
    assert_eq!(cpu.index, 0x123);
    cpu.registers[2] = 0x10;
    cpu.execute(Instruction::AddI { vx: 2 }, &mut screen);
    assert_eq!(cpu.index, 0x133);
    cpu.registers[0] = 0x05;
    cpu.execute(Instruction::JumpAdd(0x300), &mut screen);
    assert_eq!(cpu.pc, 0x305);
    cpu.registers[3] = 0xA;
    cpu.execute(Instruction::SetIR { vx: 3 }, &mut screen);
    assert_eq!(cpu.index, 0x050 + 50);
    assert_eq!(&cpu.mem[cpu.index as usize..cpu.index as usize + 5], &[0xF0, 0x90, 0xF0, 0x90, 0x90]);
}

#[test]
fn bcd_store_and_fill() {
    let (mut cpu, mut screen) = fresh();
    cpu.index = 0x300;
    cpu.registers[5] = 254;
    cpu.execute(Instruction::BCD { vx: 5 }, &mut screen);
    assert_eq!(&cpu.mem[0x300..0x303], &[2, 5, 4]);
    assert_eq!(cpu.index, 0x300);
    for i in 0..4 {
        cpu.registers[i] = (i as u8 + 1) * 11;
    }
    cpu.execute(Instruction::StoreMem { vx: 3 }, &mut screen);
    assert_eq!(&cpu.mem[0x300..0x304], &[11, 22, 33, 44]);
    assert_eq!(cpu.index, 0x304);
    cpu.registers = [0u8; 16];
    cpu.execute(Instruction::SetI(0x300), &mut screen);
    cpu.execute(Instruction::FillReg { vx: 2 }, &mut screen);
    assert_eq!(&cpu.registers[0..4], &[11, 22, 33, 0]);
    assert_eq!(cpu.index, 0x303);
}

#[test]
fn timers_and_keys() {
    let (mut cpu, mut screen) = fresh();
    cpu.registers[1] = 3;
    cpu.execute(Instruction::SetDT { vx: 1 }, &mut screen);
    cpu.execute(Instruction::SetST { vx: 1 }, &mut screen);
    cpu.delay_timer.tick();
    cpu.execute(Instruction::MovDT { vx: 2 }, &mut screen);
    assert_eq!(cpu.registers[2], 2);
    assert_eq!(cpu.sound_timer.get(), 3);
    cpu.registers[4] = 0xB;
    cpu.execute(Instruction::SkipIK { vx: 4 }, &mut screen);
    assert_eq!(cpu.pc, 0x200);
    cpu.execute(Instruction::SkipNK { vx: 4 }, &mut screen);
    assert_eq!(cpu.pc, 0x202);
    cpu.set_key(HostKey::KeyC, true);
    assert_eq!(cpu.keys[0xB], 1);
    cpu.execute(Instruction::SkipIK { vx: 4 }, &mut screen);
    assert_eq!(cpu.pc, 0x204);
    cpu.set_key(HostKey::KeyC, false);
    assert_eq!(cpu.keys[0xB], 0);
}

#[test]
fn delay_timer_counts_down_and_stops() {
    let mut t = DelayTimer::new();
    assert_eq!(t.get(), 0);
    t.tick();
    assert_eq!(t.get(), 0);
    t.set(2);
    assert_eq!(t.get(), 2);
    t.tick();
    assert_eq!(t.get(), 1);
    t.tick();
    t.tick();
    t.tick();
    assert_eq!(t.get(), 0);
}

#[test]
fn timer_ticks_due_for_elapsed_time() {
    assert_eq!(ticks_due(0), 0);
    assert_eq!(ticks_due(16666), 0);
    assert_eq!(ticks_due(16667), 1);
    assert_eq!(ticks_due(1_000_000), 59);
    assert_eq!(ticks_due(1_000_020), 60);
}

#[test]
fn keypad_layout() {
    let keys = [
        (HostKey::KeyX, 0x0),
        (HostKey::Digit1, 0x1),
        (HostKey::Digit2, 0x2),
        (HostKey::Digit3, 0x3),
        (HostKey::KeyQ, 0x4),
        (HostKey::KeyW, 0x5),
        (HostKey::KeyE, 0x6),
        (HostKey::KeyA, 0x7),
        (HostKey::KeyS, 0x8),
        (HostKey::KeyD, 0x9),
        (HostKey::KeyZ, 0xA),
        (HostKey::KeyC, 0xB),
        (HostKey::Digit4, 0xC),
        (HostKey::KeyR, 0xD),
        (HostKey::KeyF, 0xE),
        (HostKey::KeyV, 0xF),
    ];
    for (key, index) in keys {
        assert_eq!(keypad_index(key), index);
    }
}

#[test]
fn display_draws_with_xor_and_reports_collision() {
    let (mut cpu, mut screen) = fresh();
    cpu.index = 0x300;
    cpu.mem[0x300] = 0b1100_0000;
    cpu.registers[0] = 62;
    cpu.registers[1] = 31;
    let draw = Instruction::Display { vx: 0, vy: 1, val: 1 };
    cpu.execute(Instruction::Display { vx: 0, vy: 1, val: 1 }, &mut screen);
    assert_eq!(screen.grid[31 * SCREEN_WIDTH + 62], 1);
    assert_eq!(screen.grid[31 * SCREEN_WIDTH + 63], 1);
    assert_eq!(cpu.registers[0xF], 0);
    cpu.execute(draw, &mut screen);
    assert_eq!(screen.grid, [0u8; 2048]);
    assert_eq!(cpu.registers[0xF], 1);
}

#[test]
fn display_wraps_around_the_edges() {
    let (mut cpu, mut screen) = fresh();
    cpu.index = 0x300;
    cpu.mem[0x300] = 0b1010_0000;
    cpu.mem[0x301] = 0b1000_0000;
    cpu.registers[0] = 63 + 64;
    cpu.registers[1] = 31;
    cpu.execute(Instruction::Display { vx: 0, vy: 1, val: 2 }, &mut screen);
    assert_eq!(screen.grid[31 * SCREEN_WIDTH + 63], 1);
    assert_eq!(screen.grid[31 * SCREEN_WIDTH + 1], 1);
    assert_eq!(screen.grid[0 * SCREEN_WIDTH + 63], 1);
    assert_eq!(screen.grid.iter().filter(|&&p| p == 1).count(), 3);
}

#[test]
fn display_flag_reports_any_collision() {
    let (mut cpu, mut screen) = fresh();
    cpu.index = 0x300;
    cpu.mem[0x300] = 0b1100_0000;
    screen.set_pixel(0, 0, 1);
    cpu.execute(Instruction::Display { vx: 0, vy: 0, val: 1 }, &mut screen);
    assert_eq!(screen.grid[0], 0);
    assert_eq!(screen.grid[1], 1);
    assert_eq!(cpu.registers[0xF], 1);
}

#[test]
fn display_without_lit_pixels_clears_the_flag() {
    let (mut cpu, mut screen) = fresh();
    cpu.index = 0x300;
    cpu.registers[0xF] = 5;
    cpu.execute(Instruction::Display { vx: 0, vy: 0, val: 1 }, &mut screen);
    assert_eq!(screen.grid, [0u8; 2048]);
    assert_eq!(cpu.registers[0xF], 0);
    cpu.execute(Instruction::Display { vx: 0, vy: 0, val: 0 }, &mut screen);
    assert_eq!(cpu.registers[0xF], 0);
}

#[test]
fn screen_pixels_and_render() {
    let mut screen = Screen::new();
    screen.set_pixel(64, 0, 1);
    screen.set_pixel(0, 32, 1);
    assert_eq!(screen.grid, [0u8; 2048]);
    screen.set_pixel(3, 2, 1);
    assert_eq!(screen.grid[2 * SCREEN_WIDTH + 3], 1);
    screen.set_pixel(3, 2, 1);
    assert_eq!(screen.grid[2 * SCREEN_WIDTH + 3], 0);
    screen.set_pixel(1, 0, 1);
    screen.grid[2] = 7;
    let mut frame = vec![9u8; FRAME_BYTES + 4];
    screen.render(&mut frame);
    assert_eq!(&frame[0..4], &[0, 0, 0, 255]);
    assert_eq!(&frame[4..8], &[255, 255, 255, 255]);
    assert_eq!(&frame[8..12], &[0, 0, 0, 255]);
    assert_eq!(&frame[FRAME_BYTES..], &[9, 9, 9, 9]);
    screen.clear();
    assert_eq!(screen.grid, [0u8; 2048]);
}

#[test]
fn random_mask_keeps_to_its_mask() {
    let (mut cpu, mut screen) = fresh();
    for _ in 0..32 {
        cpu.registers[3] = 0xFF;
        cpu.execute(Instruction::RandMask { vx: 3, val: 0x0F }, &mut screen);
        assert_eq!(cpu.registers[3] & 0xF0, 0);
    }
    cpu.registers[3] = 0xFF;
    cpu.execute(Instruction::RandMask { vx: 3, val: 0 }, &mut screen);
    assert_eq!(cpu.registers[3], 0);
    cpu.execute_with_random(Instruction::RandMask { vx: 3, val: 0x3C }, &mut screen, 0xA5);
    assert_eq!(cpu.registers[3], 0x24);
}

#[test]
fn frame_runs_seven_instructions() {
    let (mut cpu, mut screen) = fresh();
    let program: Vec<u8> = (0..10).flat_map(|_| [0x70u8, 0x01]).collect();
    cpu.load_rom(&program);
    assert_eq!(cpu.run_frame(&mut screen), Ok(()));
    assert_eq!(cpu.registers[0], 7);
    assert_eq!(cpu.pc, 0x200 + 14);
}

#[test]
fn wait_key_blocks_until_a_key_is_pressed() {
    let (mut cpu, mut screen) = fresh();
    cpu.load_rom(&[0xF3, 0x0A, 0x60, 0x01]);
    assert_eq!(cpu.run_frame(&mut screen), Ok(()));
    assert_eq!(cpu.wait_for_key, Some(3));
    assert_eq!(cpu.pc, 0x200);
    assert_eq!(cpu.run_frame(&mut screen), Ok(()));
    assert_eq!(cpu.pc, 0x200);
    assert_eq!(cpu.registers[0], 0);
    cpu.set_key(HostKey::KeyE, true);
    assert_eq!(cpu.run_frame(&mut screen), Ok(()));
    assert_eq!(cpu.registers[3], 6);
    assert_eq!(cpu.wait_for_key, None);
    assert_eq!(cpu.pc, 0x202);
    assert_eq!(cpu.run_step(&mut screen), Ok(true));
    assert_eq!(cpu.registers[0], 1);
    assert_eq!(cpu.wait_for_key, None);
    assert_eq!(cpu.pc, 0x204);
}

#[test]
fn faults_stop_the_frame() {
    let (mut cpu, mut screen) = fresh();
    cpu.load_rom(&[0x00, 0xEE]);
    assert_eq!(cpu.run_frame(&mut screen), Err(CpuFault::CannotRun(Instruction::Ret)));
    assert_eq!(cpu.pc, 0x202);

    let (mut cpu, mut screen) = fresh();
    cpu.pc = 0xFFF;
    assert_eq!(cpu.run_step(&mut screen), Err(CpuFault::FetchOutOfMemory));

    let (mut cpu, mut screen) = fresh();
    cpu.wait_for_key = Some(16);
    assert_eq!(cpu.run_step(&mut screen), Ok(false));
    cpu.keys[2] = 1;
    assert_eq!(cpu.run_step(&mut screen), Err(CpuFault::BadWaitRegister(16)));

    let (mut cpu, mut screen) = fresh();
    cpu.wait_for_key = Some(1);
    cpu.pc = 0xFFFE;
    cpu.keys[2] = 1;
    assert_eq!(cpu.run_step(&mut screen), Err(CpuFault::FetchOutOfMemory));
    assert_eq!(cpu.wait_for_key, Some(1));
}

#[test]
fn can_run_matches_the_panicking_cases() {
    let mut cpu = Cpu::new();
    assert!(!cpu.can_run(&Instruction::Ret));
    assert!(cpu.can_run(&Instruction::Call(0x300)));
    assert!(!cpu.can_run(&Instruction::SetRegister { reg: 16, val: 0 }));
    cpu.index = 4093;
    assert!(cpu.can_run(&Instruction::BCD { vx: 0 }));
    cpu.index = 4094;
    assert!(!cpu.can_run(&Instruction::BCD { vx: 0 }));
    cpu.registers[0] = 51;
    assert!(cpu.can_run(&Instruction::SetIR { vx: 0 }));
    cpu.registers[0] = 52;
    assert!(!cpu.can_run(&Instruction::SetIR { vx: 0 }));
    cpu.pc = 1;
    assert!(!cpu.can_run(&Instruction::WaitK { vx: 0 }));
    cpu.index = 4090;
    assert!(cpu.can_run(&Instruction::Display { vx: 0, vy: 0, val: 6 }));
    assert!(!cpu.can_run(&Instruction::Display { vx: 0, vy: 0, val: 7 }));
    cpu.index = 0xFFFF;
    assert!(cpu.can_run(&Instruction::Display { vx: 0, vy: 0, val: 0 }));
}

#[test]
fn only_rand_mask_uses_the_random_byte() {
    let (mut a, mut screen_a) = fresh();
    let (mut b, mut screen_b) = fresh();
    let program = [
        Instruction::SetRegister { reg: 1, val: 0x77 },
        Instruction::AddValue { reg: 1, val: 0x10 },
        Instruction::SetI(0x050),
        Instruction::Display { vx: 1, vy: 1, val: 5 },
    ];
    for instr in program {
        let again = match instr {
            Instruction::SetRegister { reg, val } => Instruction::SetRegister { reg, val },
            Instruction::AddValue { reg, val } => Instruction::AddValue { reg, val },
            Instruction::SetI(a) => Instruction::SetI(a),
            Instruction::Display { vx, vy, val } => Instruction::Display { vx, vy, val },
            _ => unreachable!(),
        };
        a.execute_with_random(instr, &mut screen_a, 0x00);
        b.execute_with_random(again, &mut screen_b, 0xFF);
    }
    assert_eq!(a.registers, b.registers);
    assert_eq!(screen_a.grid, screen_b.grid);
    a.execute_with_random(Instruction::RandMask { vx: 2, val: 0xFF }, &mut screen_a, 0x00);
    b.execute_with_random(Instruction::RandMask { vx: 2, val: 0xFF }, &mut screen_b, 0xFF);
    assert_eq!(a.registers[2], 0x00);
    assert_eq!(b.registers[2], 0xFF);
}
