use chip8::cpu::Cpu;
use chip8::font::FONT;
use chip8::instructions::Instruction;
use chip8::screen::{Screen, SCREEN_WIDTH};

fn make_cpu() -> Cpu {
    let mut cpu = Cpu::new();
    cpu.load_font(&FONT);
    cpu
}

#[test]
fn test_set_register() {
    let mut cpu = make_cpu();
    let mut screen = Screen::new();
    cpu.execute(Instruction::SetRegister { reg: 0, val: 42 }, &mut screen);
    assert_eq!(cpu.registers[0], 42);
}

#[test]
fn test_add_value() {
    let mut cpu = make_cpu();
    let mut screen = Screen::new();
    cpu.registers[0] = 10;
    cpu.execute(Instruction::AddValue { reg: 0, val: 5 }, &mut screen);
    assert_eq!(cpu.registers[0], 15);
}

#[test]
fn test_add_reg_carry() {
    let mut cpu = make_cpu();
    let mut screen = Screen::new();
    cpu.registers[0] = 200;
    cpu.registers[1] = 100;
    cpu.execute(Instruction::AddReg { vx: 0, vy: 1 }, &mut screen);
    assert_eq!(cpu.registers[0], 44); // 300 wraps to 44
    assert_eq!(cpu.registers[0xF], 1); // carry set
}

#[test]
fn test_add_reg_no_carry() {
    let mut cpu = make_cpu();
    let mut screen = Screen::new();
    cpu.registers[0] = 100;
    cpu.registers[1] = 100;
    cpu.execute(Instruction::AddReg { vx: 0, vy: 1 }, &mut screen);
    assert_eq!(cpu.registers[0], 200);
    assert_eq!(cpu.registers[0xF], 0); // no carry
}

#[test]
fn test_sub_reg_borrow() {
    let mut cpu = make_cpu();
    let mut screen = Screen::new();
    cpu.registers[0] = 50;
    cpu.registers[1] = 100;
    cpu.execute(Instruction::SubReg { vx: 0, vy: 1 }, &mut screen);
    assert_eq!(cpu.registers[0xF], 0); // borrow occurred
}

#[test]
fn test_sub_reg_no_borrow() {
    let mut cpu = make_cpu();
    let mut screen = Screen::new();
    cpu.registers[0] = 100;
    cpu.registers[1] = 50;
    cpu.execute(Instruction::SubReg { vx: 0, vy: 1 }, &mut screen);
    assert_eq!(cpu.registers[0], 50);
    assert_eq!(cpu.registers[0xF], 1); // no borrow
}

#[test]
fn test_jump() {
    let mut cpu = make_cpu();
    let mut screen = Screen::new();
    cpu.execute(Instruction::Jump(0x300), &mut screen);
    assert_eq!(cpu.pc, 0x300);
}

#[test]
fn test_skip_ie_equal() {
    let mut cpu = make_cpu();
    let mut screen = Screen::new();
    cpu.registers[0] = 5;
    cpu.execute(Instruction::SkipIE { vx: 0, val: 5 }, &mut screen);
    assert_eq!(cpu.pc, 0x202); // skipped one instruction
}

#[test]
fn test_skip_ie_not_equal() {
    let mut cpu = make_cpu();
    let mut screen = Screen::new();
    cpu.registers[0] = 5;
    cpu.execute(Instruction::SkipIE { vx: 0, val: 9 }, &mut screen);
    assert_eq!(cpu.pc, 0x200); // did not skip
}

#[test]
fn test_msr() {
    let mut cpu = make_cpu();
    let mut screen = Screen::new();
    cpu.registers[1] = 0b10110111;
    cpu.execute(Instruction::Msr { vx: 0, vy: 1 }, &mut screen);
    assert_eq!(cpu.registers[0], 0b01011011);
    assert_eq!(cpu.registers[0xF], 1); // LSB was 1
}

#[test]
fn test_clear_screen() {
    let mut cpu = make_cpu();
    let mut screen = Screen::new();
    screen.set_pixel(5, 5, 1);
    cpu.execute(Instruction::ClearScreen, &mut screen);
    assert_eq!(screen.grid[5 * SCREEN_WIDTH + 5], 0);
}
