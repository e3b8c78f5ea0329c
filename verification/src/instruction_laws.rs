use vstd::prelude::*;
use crate::instructions::{Instruction, spec_decode};

verus! {

/// The opcode `0xHXYN` built from its four hex digits.
pub open spec fn opcode(h: int, x: int, y: int, n: int) -> u16 {
    (h * 4096 + x * 256 + y * 16 + n) as u16
}

/// The digits of `0xHXYN` are `H`, `X`, `Y`, `N`.
proof fn lemma_opcode_digits(h: int, x: int, y: int, n: int)
    requires
        0 <= h < 16,
        0 <= x < 16,
        0 <= y < 16,
        0 <= n < 16,
    ensures
        ({
            let op = opcode(h, x, y, n);
            &&& op as int == h * 4096 + x * 256 + y * 16 + n
            &&& op / 4096 == h
            &&& (op / 256) % 16 == x
            &&& (op / 16) % 16 == y
            &&& op % 16 == n
            &&& op % 256 == y * 16 + n
            &&& op % 4096 == x * 256 + y * 16 + n
        }),
{
    let v = h * 4096 + x * 256 + y * 16 + n;
    assert(0 <= v < 65536);
    assert(v / 4096 == h);
    assert(v / 256 == h * 16 + x);
    assert((h * 16 + x) % 16 == x);
    assert(v / 16 == h * 256 + x * 16 + y);
    assert((h * 256 + x * 16 + y) % 16 == y);
    assert(v % 16 == n);
    assert(v % 256 == y * 16 + n);
    assert(v % 4096 == x * 256 + y * 16 + n);
}

/// The opcode table, digit by digit: `X` and `Y` name registers, `NN` is the low byte and
/// `NNN` the low twelve bits, as the table `00E0 .. FX65` lists them.
pub proof fn law_decode_table(x: int, y: int, n: int)
    requires
        0 <= x < 16,
        0 <= y < 16,
        0 <= n < 16,
    ensures
        ({
            let xx = x as u8;
            let yy = y as u8;
            let kk = (y * 16 + n) as u8;
            let nnn = (x * 256 + y * 16 + n) as u16;
            &&& spec_decode(opcode(0x1, x, y, n)) == Instruction::Jump(nnn)
            &&& spec_decode(opcode(0x2, x, y, n)) == Instruction::Call(nnn)
            &&& spec_decode(opcode(0x3, x, y, n)) == Instruction::SkipIE { vx: xx, val: kk }
            &&& spec_decode(opcode(0x4, x, y, n)) == Instruction::SkipNE { vx: xx, val: kk }
            &&& spec_decode(opcode(0x6, x, y, n)) == Instruction::SetRegister { reg: xx, val: kk }
            &&& spec_decode(opcode(0x7, x, y, n)) == Instruction::AddValue { reg: xx, val: kk }
            &&& spec_decode(opcode(0xA, x, y, n)) == Instruction::SetI(nnn)
            &&& spec_decode(opcode(0xB, x, y, n)) == Instruction::JumpAdd(nnn)
            &&& spec_decode(opcode(0xC, x, y, n)) == Instruction::RandMask { vx: xx, val: kk }
            &&& spec_decode(opcode(0xD, x, y, n)) == Instruction::Display {
                vx: xx,
                vy: yy,
                val: n as u8,
            }
        }),
{
    lemma_opcode_digits(0x1, x, y, n);
    lemma_opcode_digits(0x2, x, y, n);
    lemma_opcode_digits(0x3, x, y, n);
    lemma_opcode_digits(0x4, x, y, n);
    lemma_opcode_digits(0x6, x, y, n);
    lemma_opcode_digits(0x7, x, y, n);
    lemma_opcode_digits(0xA, x, y, n);
    lemma_opcode_digits(0xB, x, y, n);
    lemma_opcode_digits(0xC, x, y, n);
    lemma_opcode_digits(0xD, x, y, n);
}

/// The register-pair rows `5XY0`, `8XYn` and `9XY0` of the opcode table; other last digits in
/// rows 5 and 9 are unknown opcodes.
pub proof fn law_decode_register_pairs(x: int, y: int, n: int)
    requires
        0 <= x < 16,
        0 <= y < 16,
        0 <= n < 16,
    ensures
        ({
            let xx = x as u8;
            let yy = y as u8;
            let nnn = (x * 256 + y * 16 + n) as u16;
            &&& spec_decode(opcode(0x5, x, y, 0)) == Instruction::SkipRE { vx: xx, vy: yy }
            &&& spec_decode(opcode(0x9, x, y, 0)) == Instruction::SkipRN { vx: xx, vy: yy }
            &&& n != 0 ==> spec_decode(opcode(0x5, x, y, n)) == Instruction::Unknown(nnn)
            &&& n != 0 ==> spec_decode(opcode(0x9, x, y, n)) == Instruction::Unknown(nnn)
            &&& spec_decode(opcode(0x8, x, y, 0x0)) == Instruction::Mov { vx: xx, vy: yy }
            &&& spec_decode(opcode(0x8, x, y, 0x1)) == Instruction::Or { vx: xx, vy: yy }
            &&& spec_decode(opcode(0x8, x, y, 0x2)) == Instruction::And { vx: xx, vy: yy }
            &&& spec_decode(opcode(0x8, x, y, 0x3)) == Instruction::Xor { vx: xx, vy: yy }
            &&& spec_decode(opcode(0x8, x, y, 0x4)) == Instruction::AddReg { vx: xx, vy: yy }
            &&& spec_decode(opcode(0x8, x, y, 0x5)) == Instruction::SubReg { vx: xx, vy: yy }
            &&& spec_decode(opcode(0x8, x, y, 0x6)) == Instruction::Msr { vx: xx, vy: yy }
            &&& spec_decode(opcode(0x8, x, y, 0x7)) == Instruction::RevSub { vx: xx, vy: yy }
            &&& spec_decode(opcode(0x8, x, y, 0xE)) == Instruction::Msl { vx: xx, vy: yy }
            &&& (8 <= n < 0xE || n == 0xF) ==> spec_decode(opcode(0x8, x, y, n))
                == Instruction::Unknown(nnn)
        }),
{
    lemma_opcode_digits(0x5, x, y, 0);
    lemma_opcode_digits(0x9, x, y, 0);
    lemma_opcode_digits(0x5, x, y, n);
    lemma_opcode_digits(0x9, x, y, n);
    lemma_opcode_digits(0x8, x, y, 0x0);
    lemma_opcode_digits(0x8, x, y, 0x1);
    lemma_opcode_digits(0x8, x, y, 0x2);
    lemma_opcode_digits(0x8, x, y, 0x3);
    lemma_opcode_digits(0x8, x, y, 0x4);
    lemma_opcode_digits(0x8, x, y, 0x5);
    lemma_opcode_digits(0x8, x, y, 0x6);
    lemma_opcode_digits(0x8, x, y, 0x7);
    lemma_opcode_digits(0x8, x, y, 0xE);
    lemma_opcode_digits(0x8, x, y, n);
}

/// The single-register rows `EX9E`, `EXA1` and `FXnn` of the opcode table: the register is
/// the second hex digit `X`.
pub proof fn law_decode_single_register(x: int)
    requires
        0 <= x < 16,
    ensures
        ({
            let xx = x as u8;
            &&& spec_decode(opcode(0xE, x, 0x9, 0xE)) == Instruction::SkipIK { vx: xx }
            &&& spec_decode(opcode(0xE, x, 0xA, 0x1)) == Instruction::SkipNK { vx: xx }
            &&& spec_decode(opcode(0xF, x, 0x0, 0x7)) == Instruction::MovDT { vx: xx }
            &&& spec_decode(opcode(0xF, x, 0x0, 0xA)) == Instruction::WaitK { vx: xx }
            &&& spec_decode(opcode(0xF, x, 0x1, 0x5)) == Instruction::SetDT { vx: xx }
            &&& spec_decode(opcode(0xF, x, 0x1, 0x8)) == Instruction::SetST { vx: xx }
            &&& spec_decode(opcode(0xF, x, 0x1, 0xE)) == Instruction::AddI { vx: xx }
            &&& spec_decode(opcode(0xF, x, 0x2, 0x9)) == Instruction::SetIR { vx: xx }
            &&& spec_decode(opcode(0xF, x, 0x3, 0x3)) == Instruction::BCD { vx: xx }
            &&& spec_decode(opcode(0xF, x, 0x5, 0x5)) == Instruction::StoreMem { vx: xx }
            &&& spec_decode(opcode(0xF, x, 0x6, 0x5)) == Instruction::FillReg { vx: xx }
        }),
{
    lemma_opcode_digits(0xE, x, 0x9, 0xE);
    lemma_opcode_digits(0xE, x, 0xA, 0x1);
    lemma_opcode_digits(0xF, x, 0x0, 0x7);
    lemma_opcode_digits(0xF, x, 0x0, 0xA);
    lemma_opcode_digits(0xF, x, 0x1, 0x5);
    lemma_opcode_digits(0xF, x, 0x1, 0x8);
    lemma_opcode_digits(0xF, x, 0x1, 0xE);
    lemma_opcode_digits(0xF, x, 0x2, 0x9);
    lemma_opcode_digits(0xF, x, 0x3, 0x3);
    lemma_opcode_digits(0xF, x, 0x5, 0x5);
    lemma_opcode_digits(0xF, x, 0x6, 0x5);
}

/// `00E0` clears the screen and `00EE` returns; other `0NNN` opcodes are unknown.
pub proof fn law_decode_system_row(nnn: u16)
    requires
        nnn < 4096,
    ensures
        spec_decode(0x00E0) == Instruction::ClearScreen,
        spec_decode(0x00EE) == Instruction::Ret,
        nnn != 0x0E0 && nnn != 0x0EE ==> spec_decode(nnn) == Instruction::Unknown(nnn),
{
}

/// The rest of rows `E` and `F`: every opcode there that is not one of `EX9E`, `EXA1`,
/// `FX07`, `FX0A`, `FX15`, `FX18`, `FX1E`, `FX29`, `FX33`, `FX55`, `FX65` is unknown.
pub proof fn law_decode_unknown_in_key_and_misc_rows(x: int, y: int, n: int)
    requires
        0 <= x < 16,
        0 <= y < 16,
        0 <= n < 16,
    ensures
        ({
            let kk = y * 16 + n;
            let nnn = (x * 256 + kk) as u16;
            &&& kk != 0x9E && kk != 0xA1 ==> spec_decode(opcode(0xE, x, y, n))
                == Instruction::Unknown(nnn)
            &&& kk != 0x07 && kk != 0x0A && kk != 0x15 && kk != 0x18 && kk != 0x1E && kk != 0x29
                && kk != 0x33 && kk != 0x55 && kk != 0x65 ==> spec_decode(opcode(0xF, x, y, n))
                == Instruction::Unknown(nnn)
        }),
{
    lemma_opcode_digits(0xE, x, y, n);
    lemma_opcode_digits(0xF, x, y, n);
}

} // verus!
