use vstd::prelude::*;
use crate::instructions::Instruction;
use crate::screen::{blank_grid, pixel_index};

verus! {

/// Size of the addressable memory in bytes.
pub const MEMORY_SIZE: usize = 4096;

/// Where programs are loaded and where execution starts.
pub const PROGRAM_START: u16 = 0x200;

/// Where the hexadecimal font sprites are loaded.
pub const FONT_START: u16 = 0x050;

/// Number of bytes in the font (sixteen sprites of five rows).
pub const FONT_BYTES: usize = 80;

/// The largest program that fits between `PROGRAM_START` and the end of memory.
pub const MAX_PROGRAM_BYTES: usize = 3584;

/// The opcode at the program counter: the byte there is its high byte.
pub open spec fn fetch(s: CpuState) -> u16 {
    (s.mem[s.pc as int] * 256 + s.mem[s.pc + 1]) as u16
}

/// Index of the flag register `VF`.
pub const FLAG: u8 = 0xF;

/// The mathematical state of the processor.
pub struct CpuState {
    pub registers: Seq<u8>,
    pub pc: u16,
    pub mem: Seq<u8>,
    pub stack: Seq<u16>,
    pub index: u16,
    pub keys: Seq<u8>,
    pub delay: u8,
    pub sound: u8,
    pub wait_for_key: Option<u8>,
}

/// The shapes that every processor value has: sixteen registers, sixteen keys, 4 KiB of memory.
pub open spec fn state_shape(s: CpuState) -> bool {
    &&& s.registers.len() == 16
    &&& s.mem.len() == MEMORY_SIZE
    &&& s.keys.len() == 16
}

pub open spec fn with_pc(s: CpuState, pc: int) -> CpuState {
    CpuState { pc: pc as u16, ..s }
}

pub open spec fn with_reg(s: CpuState, r: u8, v: u8) -> CpuState {
    CpuState { registers: s.registers.update(r as int, v), ..s }
}

pub open spec fn with_index(s: CpuState, i: int) -> CpuState {
    CpuState { index: i as u16, ..s }
}

/// Skips the next instruction (advances `pc` by two) exactly when `cond` holds.
pub open spec fn skip_if(s: CpuState, cond: bool) -> CpuState {
    if cond {
        with_pc(s, s.pc + 2)
    } else {
        s
    }
}

/// Sum of two bytes modulo 256.
pub open spec fn add_mod(a: u8, b: u8) -> u8 {
    ((a + b) % 256) as u8
}

/// Difference of two bytes modulo 256.
pub open spec fn sub_mod(a: u8, b: u8) -> u8 {
    ((a - b + 256) % 256) as u8
}

/// The decimal digit of `n` with weight `10^place`.
pub open spec fn decimal_digit(n: u8, place: nat) -> u8 {
    if place == 0 {
        (n % 10) as u8
    } else if place == 1 {
        ((n / 10) % 10) as u8
    } else {
        ((n / 100) % 10) as u8
    }
}

/// Memory after writing `src[0..len]` at `at..at + len`.
pub open spec fn mem_write(mem: Seq<u8>, at: int, src: Seq<u8>, len: int) -> Seq<u8> {
    Seq::new(mem.len(), |j: int| if at <= j < at + len { src[j - at] } else { mem[j] })
}

/// The bit of sprite row `byte` that covers column `col` (0 is the leftmost column).
pub open spec fn sprite_bit(byte: u8, col: u8) -> bool {
    byte & (0x80u8 >> col) != 0
}

/// Screen after the first `n` sprite pixels (row by row, eight per row) are drawn from
/// `sprite` at (`sx`, `sy`), and whether one of them collided. Each lit sprite pixel toggles
/// its screen pixel (wrapping around the edges); it collides when it turns a lit pixel off.
pub open spec fn draw_pixels(grid: Seq<u8>, sx: int, sy: int, sprite: Seq<u8>, n: nat) -> (
    Seq<u8>,
    bool,
)
    decreases n,
{
    if n == 0 {
        (grid, false)
    } else {
        let prev = draw_pixels(grid, sx, sy, sprite, (n - 1) as nat);
        let row = (n - 1) / 8;
        let col = (n - 1) % 8;
        if sprite_bit(sprite[row], col as u8) {
            let p = pixel_index((sx + col) % 64, (sy + row) % 32);
            let before = prev.0[p];
            let after = before ^ 1u8;
            (prev.0.update(p, after), prev.1 || (before == 1 && after == 0))
        } else {
            prev
        }
    }
}

/// The sprite that `Display` draws: `height` bytes of memory starting at the index register.
pub open spec fn sprite_of(s: CpuState, height: u8) -> Seq<u8> {
    s.mem.subrange(s.index as int, s.index + height)
}

/// Whether `instr` can run in state `s`: every register it names exists, every memory byte it
/// touches lies in memory, nothing it computes leaves the range of its type, and `Ret` has a
/// return address to pop.
#[verifier::opaque]
pub open spec fn runnable(s: CpuState, instr: Instruction) -> bool {
    match instr {
        Instruction::ClearScreen => true,
        Instruction::Jump(_) => true,
        Instruction::Ret => s.stack.len() > 0,
        Instruction::Call(_) => true,
        Instruction::SetRegister { reg, .. } => reg < 16,
        Instruction::AddValue { reg, .. } => reg < 16,
        Instruction::SetI(_) => true,
        Instruction::SkipIE { vx, val } => vx < 16 && (s.registers[vx as int] == val ==> s.pc + 2
            <= u16::MAX),
        Instruction::SkipNE { vx, val } => vx < 16 && (s.registers[vx as int] != val ==> s.pc + 2
            <= u16::MAX),
        Instruction::SkipRE { vx, vy } => vx < 16 && vy < 16 && (s.registers[vx as int]
            == s.registers[vy as int] ==> s.pc + 2 <= u16::MAX),
        Instruction::SkipRN { vx, vy } => vx < 16 && vy < 16 && (s.registers[vx as int]
            != s.registers[vy as int] ==> s.pc + 2 <= u16::MAX),
        Instruction::Mov { vx, vy }
        | Instruction::Or { vx, vy }
        | Instruction::And { vx, vy }
        | Instruction::Xor { vx, vy }
        | Instruction::AddReg { vx, vy }
        | Instruction::SubReg { vx, vy }
        | Instruction::Msr { vx, vy }
        | Instruction::RevSub { vx, vy }
        | Instruction::Msl { vx, vy } => vx < 16 && vy < 16,
        Instruction::JumpAdd(nnn) => nnn + s.registers[0] <= u16::MAX,
        Instruction::RandMask { vx, .. } => vx < 16,
        Instruction::SkipIK { vx } => vx < 16 && s.registers[vx as int] < 16 && (s.keys[s.registers[
            vx as int] as int] == 1 ==> s.pc + 2 <= u16::MAX),
        Instruction::SkipNK { vx } => vx < 16 && s.registers[vx as int] < 16 && (s.keys[s.registers[
            vx as int] as int] == 0 ==> s.pc + 2 <= u16::MAX),
        Instruction::MovDT { vx } | Instruction::SetDT { vx } | Instruction::SetST { vx } => vx
            < 16,
        Instruction::AddI { vx } => vx < 16 && s.index + s.registers[vx as int] <= u16::MAX,
        Instruction::SetIR { vx } => vx < 16 && s.registers[vx as int] * 5 <= u8::MAX,
        Instruction::BCD { vx } => vx < 16 && s.index + 2 < MEMORY_SIZE,
        Instruction::StoreMem { vx } | Instruction::FillReg { vx } => vx < 16 && s.index + vx
            < MEMORY_SIZE,
        Instruction::WaitK { .. } => s.pc >= 2,
        Instruction::Display { vx, vy, val } => vx < 16 && vy < 16 && (val == 0 || s.index + val
            <= MEMORY_SIZE),
        Instruction::Unknown(_) => true,
    }
}

/// Jumps, calls, returns, skips and the key wait.
pub open spec fn is_control(instr: Instruction) -> bool {
    match instr {
        Instruction::Jump(_) | Instruction::Ret | Instruction::Call(_) | Instruction::SkipIE { .. }
        | Instruction::SkipNE { .. } | Instruction::SkipRE { .. } | Instruction::SkipRN { .. }
        | Instruction::JumpAdd(_) | Instruction::SkipIK { .. } | Instruction::SkipNK { .. }
        | Instruction::WaitK { .. } => true,
        _ => false,
    }
}

/// Instructions that write one register and possibly `VF`.
pub open spec fn is_register_op(instr: Instruction) -> bool {
    match instr {
        Instruction::SetRegister { .. } | Instruction::AddValue { .. } | Instruction::Mov { .. }
        | Instruction::Or { .. } | Instruction::And { .. } | Instruction::Xor { .. }
        | Instruction::AddReg { .. } | Instruction::SubReg { .. } | Instruction::Msr { .. }
        | Instruction::RevSub { .. } | Instruction::Msl { .. } | Instruction::RandMask { .. }
        | Instruction::MovDT { .. } => true,
        _ => false,
    }
}

/// Instructions that set the index register or a timer.
pub open spec fn is_index_or_timer_op(instr: Instruction) -> bool {
    match instr {
        Instruction::SetI(_) | Instruction::SetDT { .. } | Instruction::SetST { .. }
        | Instruction::AddI { .. } | Instruction::SetIR { .. } => true,
        _ => false,
    }
}

/// The processor state and screen after running `instr` in state `s` with screen `grid`;
/// `rnd` is the random byte that `RandMask` masks.
#[verifier::opaque]
pub open spec fn step(s: CpuState, grid: Seq<u8>, instr: Instruction, rnd: u8) -> (
    CpuState,
    Seq<u8>,
) {
    let r = s.registers;
    match instr {
        Instruction::ClearScreen => (s, blank_grid()),
        Instruction::Jump(a) => (with_pc(s, a as int), grid),
        Instruction::Ret => (
            CpuState { pc: s.stack.last(), stack: s.stack.drop_last(), ..s },
            grid,
        ),
        Instruction::Call(a) => (CpuState { pc: a, stack: s.stack.push(s.pc), ..s }, grid),
        Instruction::SetRegister { reg, val } => (with_reg(s, reg, val), grid),
        Instruction::AddValue { reg, val } => (with_reg(s, reg, add_mod(r[reg as int], val)), grid),
        Instruction::SetI(a) => (with_index(s, a as int), grid),
        Instruction::SkipIE { vx, val } => (skip_if(s, r[vx as int] == val), grid),
        Instruction::SkipNE { vx, val } => (skip_if(s, r[vx as int] != val), grid),
        Instruction::SkipRE { vx, vy } => (skip_if(s, r[vx as int] == r[vy as int]), grid),
        Instruction::SkipRN { vx, vy } => (skip_if(s, r[vx as int] != r[vy as int]), grid),
        Instruction::Mov { vx, vy } => (with_reg(s, vx, r[vy as int]), grid),
        Instruction::Or { vx, vy } => (with_reg(s, vx, r[vx as int] | r[vy as int]), grid),
        Instruction::And { vx, vy } => (with_reg(s, vx, r[vx as int] & r[vy as int]), grid),
        Instruction::Xor { vx, vy } => (with_reg(s, vx, r[vx as int] ^ r[vy as int]), grid),
        Instruction::AddReg { vx, vy } => (
            with_reg(
                with_reg(s, vx, add_mod(r[vx as int], r[vy as int])),
                FLAG,
                if r[vx as int] + r[vy as int] > 255 { 1u8 } else { 0u8 },
            ),
            grid,
        ),
        Instruction::SubReg { vx, vy } => (
            with_reg(
                with_reg(s, vx, sub_mod(r[vx as int], r[vy as int])),
                FLAG,
                if r[vx as int] >= r[vy as int] { 1u8 } else { 0u8 },
            ),
            grid,
        ),
        Instruction::Msr { vx, vy } => (
            with_reg(with_reg(s, FLAG, (r[vy as int] % 2) as u8), vx, (r[vy as int] / 2) as u8),
            grid,
        ),
        Instruction::RevSub { vx, vy } => (
            with_reg(
                with_reg(s, vx, sub_mod(r[vy as int], r[vx as int])),
                FLAG,
                if r[vy as int] >= r[vx as int] { 1u8 } else { 0u8 },
            ),
            grid,
        ),
        Instruction::Msl { vx, vy } => (
            with_reg(
                with_reg(s, FLAG, (r[vy as int] / 128) as u8),
                vx,
                ((r[vy as int] * 2) % 256) as u8,
            ),
            grid,
        ),
        Instruction::JumpAdd(nnn) => (with_pc(s, nnn + r[0]), grid),
        Instruction::RandMask { vx, val } => (with_reg(s, vx, rnd & val), grid),
        Instruction::SkipIK { vx } => (skip_if(s, s.keys[r[vx as int] as int] == 1), grid),
        Instruction::SkipNK { vx } => (skip_if(s, s.keys[r[vx as int] as int] == 0), grid),
        Instruction::MovDT { vx } => (with_reg(s, vx, s.delay), grid),
        Instruction::SetDT { vx } => (CpuState { delay: r[vx as int], ..s }, grid),
        Instruction::SetST { vx } => (CpuState { sound: r[vx as int], ..s }, grid),
        Instruction::AddI { vx } => (with_index(s, s.index + r[vx as int]), grid),
        Instruction::SetIR { vx } => (with_index(s, r[vx as int] * 5 + FONT_START), grid),
        Instruction::BCD { vx } => (
            CpuState {
                mem: mem_write(
                    s.mem,
                    s.index as int,
                    seq![
                        decimal_digit(r[vx as int], 2),
                        decimal_digit(r[vx as int], 1),
                        decimal_digit(r[vx as int], 0),
                    ],
                    3,
                ),
                ..s
            },
            grid,
        ),
        Instruction::StoreMem { vx } => (
            CpuState {
                mem: mem_write(s.mem, s.index as int, r, vx + 1),
                index: (s.index + vx + 1) as u16,
                ..s
            },
            grid,
        ),
        Instruction::FillReg { vx } => (
            CpuState {
                registers: Seq::new(
                    16,
                    |j: int| if j <= vx { s.mem[s.index + j] } else { r[j] },
                ),
                index: (s.index + vx + 1) as u16,
                ..s
            },
            grid,
        ),
        Instruction::WaitK { vx } => (
            CpuState { wait_for_key: Some(vx), pc: (s.pc - 2) as u16, ..s },
            grid,
        ),
        Instruction::Display { vx, vy, val } => {
            let drawn = draw_pixels(
                grid,
                (r[vx as int] % 64) as int,
                (r[vy as int] % 32) as int,
                sprite_of(s, val),
                (val * 8) as nat,
            );
            (with_reg(s, FLAG, if drawn.1 { 1u8 } else { 0u8 }), drawn.0)
        },
        Instruction::Unknown(_) => (s, grid),
    }
}

} // verus!
