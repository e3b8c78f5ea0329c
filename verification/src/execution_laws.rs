use vstd::prelude::*;
use crate::frame::first_pressed;
use crate::instructions::Instruction;
use crate::state::{CpuState, runnable, step, state_shape, FLAG};

verus! {

/// Every register other than `a` and `b` is the same in `r1` and `r2`.
pub open spec fn same_registers_except(r1: Seq<u8>, r2: Seq<u8>, a: int, b: int) -> bool {
    &&& r1.len() == r2.len()
    &&& forall|i: int| 0 <= i < r1.len() && i != a && i != b ==> #[trigger] r1[i] == r2[i]
}

/// `s2` differs from `s` in its registers only, and there in `Vx` and `VF` at most.
pub open spec fn only_registers_changed(s: CpuState, s2: CpuState, vx: int) -> bool {
    &&& same_registers_except(s.registers, s2.registers, vx, FLAG as int)
    &&& (CpuState { registers: s.registers, ..s2 }) == s
}

/// `s2` differs from `s` in its program counter at most.
pub open spec fn only_pc_changed(s: CpuState, s2: CpuState) -> bool {
    (CpuState { pc: s.pc, ..s2 }) == s
}

/// `5XY0` skips exactly when `Vx == Vy` and `9XY0` exactly when `Vx != Vy`, so exactly one
/// of the two skips; both change nothing but the program counter.
pub proof fn law_skip_on_registers(s: CpuState, grid: Seq<u8>, vx: u8, vy: u8, rnd: u8)
    requires
        runnable(s, Instruction::SkipRE { vx, vy }),
        runnable(s, Instruction::SkipRN { vx, vy }),
    ensures
        ({
            let (a, ga) = step(s, grid, Instruction::SkipRE { vx, vy }, rnd);
            let (b, gb) = step(s, grid, Instruction::SkipRN { vx, vy }, rnd);
            let equal = s.registers[vx as int] == s.registers[vy as int];
            &&& a.pc == if equal { s.pc + 2 } else { s.pc as int }
            &&& b.pc == if equal { s.pc as int } else { s.pc + 2 }
            &&& only_pc_changed(s, a) && only_pc_changed(s, b)
            &&& ga == grid && gb == grid
        }),
{
    reveal(step);
    reveal(runnable);
}

/// `3XNN` skips exactly when `Vx == NN` and `4XNN` exactly when `Vx != NN`; both change
/// nothing but the program counter.
pub proof fn law_skip_on_value(s: CpuState, grid: Seq<u8>, vx: u8, val: u8, rnd: u8)
    requires
        runnable(s, Instruction::SkipIE { vx, val }),
        runnable(s, Instruction::SkipNE { vx, val }),
    ensures
        ({
            let (a, ga) = step(s, grid, Instruction::SkipIE { vx, val }, rnd);
            let (b, gb) = step(s, grid, Instruction::SkipNE { vx, val }, rnd);
            let equal = s.registers[vx as int] == val;
            &&& a.pc == if equal { s.pc + 2 } else { s.pc as int }
            &&& b.pc == if equal { s.pc as int } else { s.pc + 2 }
            &&& only_pc_changed(s, a) && only_pc_changed(s, b)
            &&& ga == grid && gb == grid
        }),
{
    reveal(step);
    reveal(runnable);
}

/// `EX9E` skips exactly when key number `Vx` is pressed (state 1) and `EXA1` exactly when it
/// is released (state 0); with 0/1 key states exactly one of the two skips. Both change
/// nothing but the program counter.
pub proof fn law_skip_on_key(s: CpuState, grid: Seq<u8>, vx: u8, rnd: u8)
    requires
        runnable(s, Instruction::SkipIK { vx }),
        runnable(s, Instruction::SkipNK { vx }),
    ensures
        ({
            let (a, ga) = step(s, grid, Instruction::SkipIK { vx }, rnd);
            let (b, gb) = step(s, grid, Instruction::SkipNK { vx }, rnd);
            let key = s.keys[s.registers[vx as int] as int];
            &&& a.pc == if key == 1 { s.pc + 2 } else { s.pc as int }
            &&& b.pc == if key == 0 { s.pc + 2 } else { s.pc as int }
            &&& (key == 0 || key == 1) ==> (a.pc == s.pc + 2) != (b.pc == s.pc + 2)
            &&& only_pc_changed(s, a) && only_pc_changed(s, b)
            &&& ga == grid && gb == grid
        }),
{
    reveal(step);
    reveal(runnable);
}

/// `1NNN` jumps to `NNN`, `BNNN` to `NNN + V0`, and `2NNN` jumps to `NNN` after pushing the
/// address of the next instruction.
pub proof fn law_jumps(s: CpuState, grid: Seq<u8>, a: u16, rnd: u8)
    requires
        runnable(s, Instruction::JumpAdd(a)),
    ensures
        ({
            let j = step(s, grid, Instruction::Jump(a), rnd);
            let b = step(s, grid, Instruction::JumpAdd(a), rnd);
            let c = step(s, grid, Instruction::Call(a), rnd);
            &&& j.0.pc == a && only_pc_changed(s, j.0) && j.1 == grid
            &&& b.0.pc == a + s.registers[0] && only_pc_changed(s, b.0) && b.1 == grid
            &&& c.0.pc == a && c.0.stack == s.stack.push(s.pc) && c.1 == grid
            &&& (CpuState { pc: s.pc, stack: s.stack, ..c.0 }) == s
        }),
{
    reveal(step);
    reveal(runnable);
}

/// `8XYE` shifts `Vy` left into `Vx`: the bit shifted out lands in `VF`, so that
/// `VF * 256 + Vx` is `2 * Vy`.
pub proof fn law_shift_left(s: CpuState, grid: Seq<u8>, vx: u8, vy: u8, rnd: u8)
    requires
        state_shape(s),
        runnable(s, Instruction::Msl { vx, vy }),
        vx != FLAG,
    ensures
        ({
            let (s2, g2) = step(s, grid, Instruction::Msl { vx, vy }, rnd);
            &&& s2.registers[FLAG as int] * 256 + s2.registers[vx as int] == 2 * s.registers[vy as int]
            &&& only_registers_changed(s, s2, vx as int)
            &&& g2 == grid
        }),
{
    reveal(step);
    reveal(runnable);
}

/// `8XY6` shifts `Vy` right into `Vx`: the bit shifted out lands in `VF`, so that
/// `2 * Vx + VF` is `Vy`.
pub proof fn law_shift_right(s: CpuState, grid: Seq<u8>, vx: u8, vy: u8, rnd: u8)
    requires
        state_shape(s),
        runnable(s, Instruction::Msr { vx, vy }),
        vx != FLAG,
    ensures
        ({
            let (s2, g2) = step(s, grid, Instruction::Msr { vx, vy }, rnd);
            &&& 2 * s2.registers[vx as int] + s2.registers[FLAG as int] == s.registers[vy as int]
            &&& only_registers_changed(s, s2, vx as int)
            &&& g2 == grid
        }),
{
    reveal(step);
    reveal(runnable);
}

/// `8XY4` leaves the 9-bit sum `Vx + Vy` in `VF` (carry) and `Vx`; only `Vx` and `VF` change.
pub proof fn law_add_registers(s: CpuState, grid: Seq<u8>, vx: u8, vy: u8, rnd: u8)
    requires
        state_shape(s),
        runnable(s, Instruction::AddReg { vx, vy }),
        vx != FLAG,
    ensures
        ({
            let x = s.registers[vx as int] as int;
            let y = s.registers[vy as int] as int;
            let (s2, g2) = step(s, grid, Instruction::AddReg { vx, vy }, rnd);
            &&& s2.registers[FLAG as int] * 256 + s2.registers[vx as int] == x + y
            &&& s2.registers[FLAG as int] <= 1
            &&& only_registers_changed(s, s2, vx as int)
            &&& g2 == grid
        }),
{
    reveal(step);
    reveal(runnable);
}

/// `8XY5` leaves `Vx - Vy` modulo 256 in `Vx` and sets `VF` to 1 exactly when nothing was
/// borrowed (`Vx >= Vy`); only `Vx` and `VF` change.
pub proof fn law_subtract_registers(s: CpuState, grid: Seq<u8>, vx: u8, vy: u8, rnd: u8)
    requires
        state_shape(s),
        runnable(s, Instruction::SubReg { vx, vy }),
        vx != FLAG,
    ensures
        ({
            let x = s.registers[vx as int] as int;
            let y = s.registers[vy as int] as int;
            let (s2, g2) = step(s, grid, Instruction::SubReg { vx, vy }, rnd);
            &&& s2.registers[vx as int] == x - y + 256 * (1 - s2.registers[FLAG as int])
            &&& (s2.registers[FLAG as int] == 1 <==> x >= y)
            &&& s2.registers[FLAG as int] <= 1
            &&& only_registers_changed(s, s2, vx as int)
            &&& g2 == grid
        }),
{
    reveal(step);
    reveal(runnable);
}

/// `8XY7` leaves `Vy - Vx` modulo 256 in `Vx` and sets `VF` to 1 exactly when nothing was
/// borrowed (`Vy >= Vx`); only `Vx` and `VF` change.
pub proof fn law_reverse_subtract_registers(s: CpuState, grid: Seq<u8>, vx: u8, vy: u8, rnd: u8)
    requires
        state_shape(s),
        runnable(s, Instruction::RevSub { vx, vy }),
        vx != FLAG,
    ensures
        ({
            let x = s.registers[vx as int] as int;
            let y = s.registers[vy as int] as int;
            let (s2, g2) = step(s, grid, Instruction::RevSub { vx, vy }, rnd);
            &&& s2.registers[vx as int] == y - x + 256 * (1 - s2.registers[FLAG as int])
            &&& (s2.registers[FLAG as int] == 1 <==> y >= x)
            &&& s2.registers[FLAG as int] <= 1
            &&& only_registers_changed(s, s2, vx as int)
            &&& g2 == grid
        }),
{
    reveal(step);
    reveal(runnable);
}

/// `6XNN` loads `NN` into `Vx`, `7XNN` adds `NN` to `Vx` modulo 256 without touching `VF`,
/// `8XY0` copies `Vy`, and `CXNN` keeps the bits of the random byte that `NN` has.
pub proof fn law_load_and_add_value(s: CpuState, grid: Seq<u8>, vx: u8, vy: u8, val: u8, rnd: u8)
    requires
        state_shape(s),
        vx < 16,
        vy < 16,
    ensures
        ({
            let (set, gs) = step(s, grid, Instruction::SetRegister { reg: vx, val }, rnd);
            let (add, ga) = step(s, grid, Instruction::AddValue { reg: vx, val }, rnd);
            let (mov, gm) = step(s, grid, Instruction::Mov { vx, vy }, rnd);
            let (ran, gr) = step(s, grid, Instruction::RandMask { vx, val }, rnd);
            &&& set.registers == s.registers.update(vx as int, val)
            &&& add.registers[vx as int] as int == (s.registers[vx as int] + val) % 256
            &&& add.registers == s.registers.update(vx as int, add.registers[vx as int])
            &&& mov.registers == s.registers.update(vx as int, s.registers[vy as int])
            &&& ran.registers == s.registers.update(vx as int, rnd & val)
            &&& only_registers_changed(s, set, vx as int)
            &&& only_registers_changed(s, add, vx as int)
            &&& only_registers_changed(s, mov, vx as int)
            &&& only_registers_changed(s, ran, vx as int)
            &&& gs == grid && ga == grid && gm == grid && gr == grid
        }),
{
    reveal(step);
}

/// Timers and the index register: `FX07` reads the delay timer into `Vx`, `FX15` and `FX18`
/// load the delay and sound timers from `Vx`, `ANNN` sets `I`, `FX1E` adds `Vx` to `I`.
pub proof fn law_timers_and_index(s: CpuState, grid: Seq<u8>, vx: u8, a: u16, rnd: u8)
    requires
        state_shape(s),
        vx < 16,
        runnable(s, Instruction::AddI { vx }),
    ensures
        ({
            let rd = step(s, grid, Instruction::MovDT { vx }, rnd).0;
            let dt = step(s, grid, Instruction::SetDT { vx }, rnd).0;
            let st = step(s, grid, Instruction::SetST { vx }, rnd).0;
            let si = step(s, grid, Instruction::SetI(a), rnd).0;
            let ai = step(s, grid, Instruction::AddI { vx }, rnd).0;
            &&& rd.registers == s.registers.update(vx as int, s.delay)
            &&& (CpuState { registers: s.registers, ..rd }) == s
            &&& dt == (CpuState { delay: s.registers[vx as int], ..s })
            &&& st == (CpuState { sound: s.registers[vx as int], ..s })
            &&& si == (CpuState { index: a, ..s })
            &&& ai.index == s.index + s.registers[vx as int]
            &&& (CpuState { index: s.index, ..ai }) == s
        }),
{
    reveal(step);
    reveal(runnable);
}

/// `FX55` writes `V0..=Vx` to memory at `I` (and nowhere else) and `FX65` reads them from
/// there (leaving the higher registers); both move `I` past the bytes.
pub proof fn law_store_and_fill(s: CpuState, grid: Seq<u8>, vx: u8, rnd: u8)
    requires
        state_shape(s),
        runnable(s, Instruction::StoreMem { vx }),
    ensures
        ({
            let st = step(s, grid, Instruction::StoreMem { vx }, rnd).0;
            let fl = step(s, grid, Instruction::FillReg { vx }, rnd).0;
            let i = s.index as int;
            &&& st.mem.len() == s.mem.len()
            &&& forall|j: int| 0 <= j <= vx ==> #[trigger] st.mem[i + j] == s.registers[j]
            &&& forall|a: int|
                0 <= a < s.mem.len() && !(i <= a <= i + vx) ==> #[trigger] st.mem[a] == s.mem[a]
            &&& st.index == i + vx + 1
            &&& st.registers == s.registers
            &&& fl.registers.len() == 16
            &&& forall|j: int| 0 <= j <= vx ==> #[trigger] fl.registers[j] == s.mem[i + j]
            &&& forall|j: int| vx < j < 16 ==> #[trigger] fl.registers[j] == s.registers[j]
            &&& fl.index == i + vx + 1
            &&& fl.mem == s.mem
        }),
{
    reveal(step);
    reveal(runnable);
}

/// The key that ends a wait is the pressed key (state 1) with the lowest number: if key `k`
/// is pressed and no key before it is, the first pressed key is `k`.
pub proof fn law_first_pressed_key(keys: Seq<u8>, k: int)
    requires
        keys.len() == 16,
        0 <= k < 16,
        keys[k] == 1,
        forall|j: int| 0 <= j < k ==> keys[j] != 1,
    ensures
        first_pressed(keys, 0) == Some(k as u8),
{
    lemma_first_pressed_from(keys, 0, k);
}

proof fn lemma_first_pressed_from(keys: Seq<u8>, from: int, k: int)
    requires
        keys.len() == 16,
        0 <= from <= k < 16,
        keys[k] == 1,
        forall|j: int| from <= j < k ==> keys[j] != 1,
    ensures
        first_pressed(keys, from) == Some(k as u8),
    decreases k - from,
{
    if from < k {
        lemma_first_pressed_from(keys, from + 1, k);
    }
}

/// With no key pressed there is no first pressed key.
pub proof fn law_no_key_pressed(keys: Seq<u8>)
    requires
        keys.len() == 16,
        forall|j: int| 0 <= j < 16 ==> keys[j] != 1,
    ensures
        first_pressed(keys, 0) is None,
{
    lemma_none_pressed_from(keys, 0);
}

proof fn lemma_none_pressed_from(keys: Seq<u8>, from: int)
    requires
        keys.len() == 16,
        0 <= from <= 16,
        forall|j: int| 0 <= j < 16 ==> keys[j] != 1,
    ensures
        first_pressed(keys, from) is None,
    decreases 16 - from,
{
    if from < 16 {
        lemma_none_pressed_from(keys, from + 1);
    }
}

/// `8XY1`, `8XY2`, `8XY3` put the bitwise OR, AND and XOR of `Vx` and `Vy` into `Vx`,
/// changing nothing else.
pub proof fn law_bitwise_operations(s: CpuState, grid: Seq<u8>, vx: u8, vy: u8, rnd: u8)
    requires
        state_shape(s),
        vx < 16,
        vy < 16,
    ensures
        ({
            let x = s.registers[vx as int];
            let y = s.registers[vy as int];
            let (or, go) = step(s, grid, Instruction::Or { vx, vy }, rnd);
            let (and, ga) = step(s, grid, Instruction::And { vx, vy }, rnd);
            let (xor, gx) = step(s, grid, Instruction::Xor { vx, vy }, rnd);
            &&& or.registers == s.registers.update(vx as int, x | y)
            &&& and.registers == s.registers.update(vx as int, x & y)
            &&& xor.registers == s.registers.update(vx as int, x ^ y)
            &&& only_registers_changed(s, or, vx as int)
            &&& only_registers_changed(s, and, vx as int)
            &&& only_registers_changed(s, xor, vx as int)
            &&& go == grid && ga == grid && gx == grid
        }),
{
    reveal(step);
}

/// `00E0` turns every one of the 2048 pixels off and changes nothing else.
pub proof fn law_clear_screen(s: CpuState, grid: Seq<u8>, rnd: u8)
    ensures
        ({
            let (s2, g2) = step(s, grid, Instruction::ClearScreen, rnd);
            &&& s2 == s
            &&& g2.len() == 2048
            &&& forall|p: int| 0 <= p < 2048 ==> #[trigger] g2[p] == 0
        }),
{
    reveal(step);
}

/// `FX29` points `I` at the five-byte font sprite of digit `Vx`, which starts at
/// `0x050 + 5 * Vx`, and changes nothing else.
pub proof fn law_font_sprite_index(s: CpuState, grid: Seq<u8>, vx: u8, rnd: u8)
    requires
        state_shape(s),
        runnable(s, Instruction::SetIR { vx }),
    ensures
        ({
            let (s2, g2) = step(s, grid, Instruction::SetIR { vx }, rnd);
            &&& s2.index == 0x050 + 5 * s.registers[vx as int]
            &&& (CpuState { index: s.index, ..s2 }) == s
            &&& g2 == grid
        }),
{
    reveal(step);
    reveal(runnable);
}

} // verus!
