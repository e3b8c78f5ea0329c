use vstd::prelude::*;

verus! {

/// Index of a general-purpose register (`V0`..`VF`).
pub type Register = u8;
/// A 12-bit memory address as it appears in an opcode.
pub type Address = u16;
/// An 8-bit immediate value (or a 4-bit sprite height).
pub type Value = u8;

/// One decoded CHIP-8 instruction; the comment after each variant is its opcode pattern.
#[derive(Debug, PartialEq, Eq, Structural)]
pub enum Instruction {
    ClearScreen,  // 00E0
    Jump(Address),  // 1NNN
    Ret,  // 00EE
    SetRegister { reg: Register, val: Value },  // 6XNN
    AddValue { reg: Register, val: Value },  // 7XNN
    SetI(Address),  // ANNN
    Display { vx: Register, vy: Register, val: Value },  // DXYN
    Call(Address),  // 2NNN
    SkipIE { vx: Register, val: Value },  // 3XNN
    SkipNE { vx: Register, val: Value },  // 4XNN
    SkipRE { vx: Register, vy: Register },  // 5XY0
    Mov { vx: Register, vy: Register },  // 8XY0
    Or { vx: Register, vy: Register },  // 8XY1
    And { vx: Register, vy: Register },  // 8XY2
    Xor { vx: Register, vy: Register },  // 8XY3
    AddReg { vx: Register, vy: Register },  // 8XY4
    SubReg { vx: Register, vy: Register },  // 8XY5
    Msr { vx: Register, vy: Register },  // 8XY6
    RevSub { vx: Register, vy: Register },  // 8XY7
    Msl { vx: Register, vy: Register },  // 8XYE
    SkipRN { vx: Register, vy: Register },  // 9XY0
    JumpAdd(Address),  // BNNN
    RandMask { vx: Register, val: Value },  // CXNN
    SkipIK { vx: Register },  // EX9E
    SkipNK { vx: Register },  // EXA1
    MovDT { vx: Register },  // FX07
    SetDT { vx: Register },  // FX15
    SetST { vx: Register },  // FX18
    AddI { vx: Register },  // FX1E
    SetIR { vx: Register },  // FX29
    BCD { vx: Register },  // FX33
    StoreMem { vx: Register },  // FX55
    FillReg { vx: Register },  // FX65
    WaitK { vx: Register },  // FX0A
    Unknown(u16),
}

/// The first (most significant) hex digit of an opcode.
pub open spec fn op_n1(op: u16) -> u8 {
    (op / 4096) as u8
}

/// The second hex digit of an opcode (`X`).
pub open spec fn op_x(op: u16) -> u8 {
    ((op / 256) % 16) as u8
}

/// The third hex digit of an opcode (`Y`).
pub open spec fn op_y(op: u16) -> u8 {
    ((op / 16) % 16) as u8
}

/// The last hex digit of an opcode (`N`).
pub open spec fn op_n(op: u16) -> u8 {
    (op % 16) as u8
}

/// The low byte of an opcode (`NN`).
pub open spec fn op_kk(op: u16) -> u8 {
    (op % 256) as u8
}

/// The low twelve bits of an opcode (`NNN`).
pub open spec fn op_nnn(op: u16) -> u16 {
    (op % 4096) as u16
}

/// The opcode table: what each 16-bit opcode means.
pub open spec fn spec_decode(op: u16) -> Instruction {
    let x = op_x(op);
    let y = op_y(op);
    let n = op_n(op);
    let kk = op_kk(op);
    let nnn = op_nnn(op);
    let n1 = op_n1(op);
    if n1 == 0x0 {
        if nnn == 0x0E0 {
            Instruction::ClearScreen
        } else if nnn == 0x0EE {
            Instruction::Ret
        } else {
            Instruction::Unknown(nnn)
        }
    } else if n1 == 0x1 {
        Instruction::Jump(nnn)
    } else if n1 == 0x2 {
        Instruction::Call(nnn)
    } else if n1 == 0x3 {
        Instruction::SkipIE { vx: x, val: kk }
    } else if n1 == 0x4 {
        Instruction::SkipNE { vx: x, val: kk }
    } else if n1 == 0x5 {
        if n == 0x0 {
            Instruction::SkipRE { vx: x, vy: y }
        } else {
            Instruction::Unknown(nnn)
        }
    } else if n1 == 0x6 {
        Instruction::SetRegister { reg: x, val: kk }
    } else if n1 == 0x7 {
        Instruction::AddValue { reg: x, val: kk }
    } else if n1 == 0x8 {
        if n == 0x0 {
            Instruction::Mov { vx: x, vy: y }
        } else if n == 0x1 {
            Instruction::Or { vx: x, vy: y }
        } else if n == 0x2 {
            Instruction::And { vx: x, vy: y }
        } else if n == 0x3 {
            Instruction::Xor { vx: x, vy: y }
        } else if n == 0x4 {
            Instruction::AddReg { vx: x, vy: y }
        } else if n == 0x5 {
            Instruction::SubReg { vx: x, vy: y }
        } else if n == 0x6 {
            Instruction::Msr { vx: x, vy: y }
        } else if n == 0x7 {
            Instruction::RevSub { vx: x, vy: y }
        } else if n == 0xE {
            Instruction::Msl { vx: x, vy: y }
        } else {
            Instruction::Unknown(nnn)
        }
    } else if n1 == 0x9 {
        if n == 0x0 {
            Instruction::SkipRN { vx: x, vy: y }
        } else {
            Instruction::Unknown(nnn)
        }
    } else if n1 == 0xA {
        Instruction::SetI(nnn)
    } else if n1 == 0xB {
        Instruction::JumpAdd(nnn)
    } else if n1 == 0xC {
        Instruction::RandMask { vx: x, val: kk }
    } else if n1 == 0xD {
        Instruction::Display { vx: x, vy: y, val: n }
    } else if n1 == 0xE {
        if kk == 0x9E {
            Instruction::SkipIK { vx: x }
        } else if kk == 0xA1 {
            Instruction::SkipNK { vx: x }
        } else {
            Instruction::Unknown(nnn)
        }
    } else {
        // n1 == 0xF
        if kk == 0x07 {
            Instruction::MovDT { vx: x }
        } else if kk == 0x15 {
            Instruction::SetDT { vx: x }
        } else if kk == 0x18 {
            Instruction::SetST { vx: x }
        } else if kk == 0x1E {
            Instruction::AddI { vx: x }
        } else if kk == 0x29 {
            Instruction::SetIR { vx: x }
        } else if kk == 0x33 {
            Instruction::BCD { vx: x }
        } else if kk == 0x55 {
            Instruction::StoreMem { vx: x }
        } else if kk == 0x65 {
            Instruction::FillReg { vx: x }
        } else if kk == 0x0A {
            Instruction::WaitK { vx: x }
        } else {
            Instruction::Unknown(nnn)
        }
    }
}

/// Every field of the instruction fits the opcode slot it comes from:
/// register numbers and sprite heights are single hex digits, addresses are 12 bits.
pub open spec fn fits_opcode(instr: Instruction) -> bool {
    match instr {
        Instruction::ClearScreen | Instruction::Ret => true,
        Instruction::Jump(a) | Instruction::Call(a) | Instruction::SetI(a) | Instruction::JumpAdd(a)
        | Instruction::Unknown(a) => a < 4096,
        Instruction::SetRegister { reg, .. } | Instruction::AddValue { reg, .. } => reg < 16,
        Instruction::SkipIE { vx, .. } | Instruction::SkipNE { vx, .. } | Instruction::RandMask {
            vx,
            ..
        } => vx < 16,
        Instruction::Display { vx, vy, val } => vx < 16 && vy < 16 && val < 16,
        Instruction::SkipRE { vx, vy }
        | Instruction::Mov { vx, vy }
        | Instruction::Or { vx, vy }
        | Instruction::And { vx, vy }
        | Instruction::Xor { vx, vy }
        | Instruction::AddReg { vx, vy }
        | Instruction::SubReg { vx, vy }
        | Instruction::Msr { vx, vy }
        | Instruction::RevSub { vx, vy }
        | Instruction::Msl { vx, vy }
        | Instruction::SkipRN { vx, vy } => vx < 16 && vy < 16,
        Instruction::SkipIK { vx }
        | Instruction::SkipNK { vx }
        | Instruction::MovDT { vx }
        | Instruction::SetDT { vx }
        | Instruction::SetST { vx }
        | Instruction::AddI { vx }
        | Instruction::SetIR { vx }
        | Instruction::BCD { vx }
        | Instruction::StoreMem { vx }
        | Instruction::FillReg { vx }
        | Instruction::WaitK { vx } => vx < 16,
    }
}

proof fn lemma_fields(op: u16)
    ensures
        ((op & 0xF000) >> 12) as u8 == op_n1(op),
        ((op & 0x0F00) >> 8) as u8 == op_x(op),
        ((op & 0x00F0) >> 4) as u8 == op_y(op),
        (op & 0x000F) as u8 == op_n(op),
        (op & 0x00FF) as u8 == op_kk(op),
        (op & 0x0FFF) as u16 == op_nnn(op),
        op_n1(op) < 16,
        op_x(op) < 16,
        op_y(op) < 16,
        op_n(op) < 16,
        op_nnn(op) < 4096,
{
    assert(((op & 0xF000) >> 12) as u8 == (op / 4096) as u8) by (bit_vector);
    assert(((op & 0x0F00) >> 8) as u8 == ((op / 256) % 16) as u8) by (bit_vector);
    assert(((op & 0x00F0) >> 4) as u8 == ((op / 16) % 16) as u8) by (bit_vector);
    assert((op & 0x000F) as u8 == (op % 16) as u8) by (bit_vector);
    assert((op & 0x00FF) as u8 == (op % 256) as u8) by (bit_vector);
    assert((op & 0x0FFF) as u16 == (op % 4096) as u16) by (bit_vector);
}

impl Instruction {
    /// Decodes a raw 16-bit opcode; opcodes that match no pattern of the table (including
    /// `5XYn`/`9XYn` with `n != 0` and `EXnn` other than `EX9E`/`EXA1`) become `Unknown(NNN)`.
    pub fn decode(raw_opcode: u16) -> (instr: Self)
        ensures
            instr == spec_decode(raw_opcode),
            fits_opcode(instr),
    {
        proof {
            lemma_fields(raw_opcode);
        }
        let nibble1: u8 = ((raw_opcode & 0xF000) >> 12) as u8;
        let nibble2: u8 = ((raw_opcode & 0x0F00) >> 8) as u8;
        let nibble3: u8 = ((raw_opcode & 0x00F0) >> 4) as u8;
        let nibble4: u8 = (raw_opcode & 0x000F) as u8;

        let kk: Value = (raw_opcode & 0x00FF) as u8;
        let nnn: Address = (raw_opcode & 0x0FFF) as u16;

        match nibble1 {
            0x0 => match nnn {
                0x0E0 => Instruction::ClearScreen,
                0x0EE => Instruction::Ret,
                _ => Instruction::Unknown(nnn),
            },
            0x1 => Instruction::Jump(nnn),
            0x2 => Instruction::Call(nnn),
            0x3 => Instruction::SkipIE { vx: nibble2, val: kk },
            0x4 => Instruction::SkipNE { vx: nibble2, val: kk },
            0x5 => match nibble4 {
                0x0 => Instruction::SkipRE { vx: nibble2, vy: nibble3 },
                _ => Instruction::Unknown(nnn),
            },
            0x6 => Instruction::SetRegister { reg: nibble2, val: kk },
            0x7 => Instruction::AddValue { reg: nibble2, val: kk },
            0xA => Instruction::SetI(nnn),
            0xB => Instruction::JumpAdd(nnn),
            0xD => Instruction::Display { vx: nibble2, vy: nibble3, val: nibble4 },
            0xE => match kk {
                0x9E => Instruction::SkipIK { vx: nibble2 },
                0xA1 => Instruction::SkipNK { vx: nibble2 },
                _ => Instruction::Unknown(nnn),
            },
            0xF => match kk {
                0x07 => Instruction::MovDT { vx: nibble2 },
                0x15 => Instruction::SetDT { vx: nibble2 },
                0x18 => Instruction::SetST { vx: nibble2 },
                0x1E => Instruction::AddI { vx: nibble2 },
                0x29 => Instruction::SetIR { vx: nibble2 },
                0x33 => Instruction::BCD { vx: nibble2 },
                0x55 => Instruction::StoreMem { vx: nibble2 },
                0x65 => Instruction::FillReg { vx: nibble2 },
                0x0A => Instruction::WaitK { vx: nibble2 },
                _ => Instruction::Unknown(nnn),
            },
            0x8 => match nibble4 {
                0x0 => Instruction::Mov { vx: nibble2, vy: nibble3 },
                0x1 => Instruction::Or { vx: nibble2, vy: nibble3 },
                0x2 => Instruction::And { vx: nibble2, vy: nibble3 },
                0x3 => Instruction::Xor { vx: nibble2, vy: nibble3 },
                0x4 => Instruction::AddReg { vx: nibble2, vy: nibble3 },
                0x5 => Instruction::SubReg { vx: nibble2, vy: nibble3 },
                0x6 => Instruction::Msr { vx: nibble2, vy: nibble3 },
                0x7 => Instruction::RevSub { vx: nibble2, vy: nibble3 },
                0xE => Instruction::Msl { vx: nibble2, vy: nibble3 },
                _ => Instruction::Unknown(nnn),
            },
            0x9 => match nibble4 {
                0x0 => Instruction::SkipRN { vx: nibble2, vy: nibble3 },
                _ => Instruction::Unknown(nnn),
            },
            0xC => Instruction::RandMask { vx: nibble2, val: kk },
            _ => Instruction::Unknown(nnn),
        }
    }
}

} // verus!
