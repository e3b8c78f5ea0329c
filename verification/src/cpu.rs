use vstd::prelude::*;
use crate::delay_timer::DelayTimer;
use crate::instructions::Instruction;
use crate::random::random_byte;
use crate::screen::{Screen, SCREEN_HEIGHT, SCREEN_WIDTH};
use crate::state::{
    CpuState,
    runnable,
    step,
    draw_pixels,
    sprite_of,
    sprite_bit,
    add_mod,
    sub_mod,
    decimal_digit,
    mem_write,
    with_reg,
    is_control,
    is_register_op,
    is_index_or_timer_op,
    FLAG,
    MEMORY_SIZE,
    MAX_PROGRAM_BYTES,
    PROGRAM_START,
    FONT_START,
    FONT_BYTES,
    fetch,
    with_pc,
};

verus! {

/// The CHIP-8 processor.
pub struct Cpu {
    /// General-purpose registers `V0`..`VF`; `VF` doubles as the carry / collision flag.
    pub registers: [u8; 16],
    /// Program counter.
    pub pc: u16,
    /// 4 KiB of memory.
    pub mem: [u8; 4096],
    /// Return addresses of `Call`.
    pub stack: Vec<u16>,
    /// The `I` register.
    pub index: u16,
    /// State of the sixteen keys of the keypad: 1 while pressed.
    pub keys: [u8; 16],
    pub delay_timer: DelayTimer,
    pub sound_timer: DelayTimer,
    /// The register that `WaitK` is filling, while it waits for a key.
    pub wait_for_key: Option<u8>,
}

impl View for Cpu {
    type V = CpuState;

    open spec fn view(&self) -> CpuState {
        CpuState {
            registers: self.registers@,
            pc: self.pc,
            mem: self.mem@,
            stack: self.stack@,
            index: self.index,
            keys: self.keys@,
            delay: self.delay_timer@,
            sound: self.sound_timer@,
            wait_for_key: self.wait_for_key,
        }
    }
}

/// The state of a freshly powered-on processor.
pub open spec fn initial_state() -> CpuState {
    CpuState {
        registers: Seq::new(16, |i: int| 0u8),
        pc: 0x200,
        mem: Seq::new(4096, |i: int| 0u8),
        stack: Seq::empty(),
        index: 0,
        keys: Seq::new(16, |i: int| 0u8),
        delay: 0,
        sound: 0,
        wait_for_key: None,
    }
}

impl Cpu {
    /// A processor with cleared registers, memory and keys, an empty stack, stopped timers,
    /// and the program counter at the program start.
    pub fn new() -> (cpu: Self)
        ensures
            cpu@ == initial_state(),
    {
        let delay_timer = DelayTimer::new();
        let sound_timer = DelayTimer::new();
        let cpu = Self {
            registers: [0u8; 16],
            pc: 0x200,
            mem: [0u8; 4096],
            stack: Vec::new(),
            index: 0x0,
            keys: [0u8; 16],
            delay_timer: delay_timer,
            sound_timer: sound_timer,
            wait_for_key: None,
        };
        assert(cpu@.registers =~= initial_state().registers);
        assert(cpu@.mem =~= initial_state().mem);
        assert(cpu@.keys =~= initial_state().keys);
        assert(cpu@.stack =~= initial_state().stack);
        cpu
    }

    /// Copies a program into memory from `PROGRAM_START` on.
    pub fn load_rom(&mut self, data: &[u8])
        requires
            data@.len() <= MAX_PROGRAM_BYTES,
        ensures
            final(self)@ == (CpuState {
                mem: mem_write(old(self)@.mem, PROGRAM_START as int, data@, data@.len() as int),
                ..old(self)@
            }),
    {
        let ghost s0 = self@;
        let mut i: usize = 0;
        while i < data.len()
            invariant
                i <= data@.len(),
                data@.len() <= MAX_PROGRAM_BYTES,
                self@ == (CpuState { mem: self@.mem, ..s0 }),
                self@.mem.len() == 4096,
                forall|j: int|
                    0 <= j < 4096 ==> #[trigger] self@.mem[j] == (if 0x200 <= j < 0x200 + i {
                        data@[j - 0x200]
                    } else {
                        s0.mem[j]
                    }),
            decreases data@.len() - i,
        {
            self.mem[0x200 + i] = data[i];
            i = i + 1;
        }
        assert(self@.mem =~= mem_write(s0.mem, 0x200, data@, data@.len() as int));
    }

    /// The opcode at the program counter (big-endian), after which the program counter
    /// moves to the next instruction.
    pub fn read_opcode(&mut self) -> (opcode: u16)
        requires
            old(self).pc + 1 < MEMORY_SIZE,
        ensures
            opcode == fetch(old(self)@),
            final(self)@ == with_pc(old(self)@, old(self)@.pc + 2),
    {
        let low_byte: u16 = self.mem[(self.pc + 1) as usize] as u16;
        let high_byte: u16 = self.mem[self.pc as usize] as u16;
        assert(high_byte < 256 && low_byte < 256 ==> (high_byte << 8) | low_byte == high_byte
            * 256 + low_byte) by (bit_vector);
        let opcode: u16 = (high_byte << 8) | low_byte;
        self.pc = self.pc + 2;
        opcode
    }

    /// Loads the font sprites into memory from `FONT_START` on.
    pub fn load_font(&mut self, font: &[u8; 80])
        ensures
            final(self)@ == (CpuState {
                mem: mem_write(old(self)@.mem, FONT_START as int, font@, FONT_BYTES as int),
                ..old(self)@
            }),
    {
        let ghost s0 = self@;
        let mut i: usize = 0;
        while i < 80
            invariant
                i <= 80,
                font@.len() == 80,
                self@ == (CpuState { mem: self@.mem, ..s0 }),
                self@.mem.len() == 4096,
                forall|j: int|
                    0 <= j < 4096 ==> #[trigger] self@.mem[j] == (if 0x050 <= j < 0x050 + i {
                        font@[j - 0x050]
                    } else {
                        s0.mem[j]
                    }),
            decreases 80 - i,
        {
            self.mem[0x050 + i] = font[i];
            i = i + 1;
        }
        assert(self@.mem =~= mem_write(s0.mem, 0x050, font@, 80));
    }

    /// Whether `instr` can run now (see `runnable`).
    pub fn can_run(&self, instr: &Instruction) -> (ok: bool)
        ensures
            ok == runnable(self@, *instr),
    {
        proof {
            reveal(runnable);
        }
        let room_to_skip = self.pc < u16::MAX - 1;
        match *instr {
            Instruction::Ret => self.stack.len() > 0,
            Instruction::SetRegister { reg, .. } | Instruction::AddValue { reg, .. } => reg < 16,
            Instruction::SkipIE { vx, val } => {
                vx < 16 && (self.registers[vx as usize] != val || room_to_skip)
            },
            Instruction::SkipNE { vx, val } => {
                vx < 16 && (self.registers[vx as usize] == val || room_to_skip)
            },
            Instruction::SkipRE { vx, vy } => {
                vx < 16 && vy < 16 && (self.registers[vx as usize] != self.registers[vy as usize]
                    || room_to_skip)
            },
            Instruction::SkipRN { vx, vy } => {
                vx < 16 && vy < 16 && (self.registers[vx as usize] == self.registers[vy as usize]
                    || room_to_skip)
            },
            Instruction::Mov { vx, vy }
            | Instruction::Or { vx, vy }
            | Instruction::And { vx, vy }
            | Instruction::Xor { vx, vy }
            | Instruction::AddReg { vx, vy }
            | Instruction::SubReg { vx, vy }
            | Instruction::Msr { vx, vy }
            | Instruction::RevSub { vx, vy }
            | Instruction::Msl { vx, vy } => vx < 16 && vy < 16,
            Instruction::JumpAdd(nnn) => nnn <= u16::MAX - self.registers[0] as u16,
            Instruction::RandMask { vx, .. } => vx < 16,
            Instruction::SkipIK { vx } => {
                vx < 16 && self.registers[vx as usize] < 16 && (self.keys[self.registers[vx as usize]
                    as usize] != 1 || room_to_skip)
            },
            Instruction::SkipNK { vx } => {
                vx < 16 && self.registers[vx as usize] < 16 && (self.keys[self.registers[vx as usize]
                    as usize] != 0 || room_to_skip)
            },
            Instruction::MovDT { vx } | Instruction::SetDT { vx } | Instruction::SetST { vx } => {
                vx < 16
            },
            Instruction::AddI { vx } => {
                vx < 16 && self.index <= u16::MAX - self.registers[vx as usize] as u16
            },
            Instruction::SetIR { vx } => vx < 16 && self.registers[vx as usize] <= 51,
            Instruction::BCD { vx } => vx < 16 && self.index < 4094,
            Instruction::StoreMem { vx } | Instruction::FillReg { vx } => {
                vx < 16 && (self.index as usize) + (vx as usize) < 4096
            },
            Instruction::WaitK { .. } => self.pc >= 2,
            Instruction::Display { vx, vy, val } => {
                vx < 16 && vy < 16 && (val == 0 || (self.index as usize) + (val as usize) <= 4096)
            },
            _ => true,
        }
    }

    /// Runs one instruction. A `RandMask` masks a byte drawn from `rand`; the result is the
    /// step of the instruction for some random byte.
    pub fn execute(&mut self, instr: Instruction, screen: &mut Screen)
        requires
            runnable(old(self)@, instr),
        ensures
            exists|rnd: u8| (final(self)@, final(screen)@) == step(old(self)@, old(screen)@, instr, rnd),
    {
        proof {
            reveal(step);
            reveal(runnable);
        }
        let rnd: u8 = match instr {
            Instruction::RandMask { .. } => random_byte(),
            _ => 0,
        };
        self.execute_with_random(instr, screen, rnd);
    }

    /// Runs one instruction, with `rnd` as the random byte that `RandMask` masks.
    pub fn execute_with_random(&mut self, instr: Instruction, screen: &mut Screen, rnd: u8)
        requires
            runnable(old(self)@, instr),
        ensures
            (final(self)@, final(screen)@) == step(old(self)@, old(screen)@, instr, rnd),
    {
        proof {
            reveal(step);
            reveal(runnable);
        }
        match instr {
            Instruction::ClearScreen => screen.clear(),
            Instruction::Display { vx, vy, val } => self.draw_sprite(vx, vy, val, screen),
            Instruction::Unknown(_) => {},
            Instruction::Jump(_)
            | Instruction::Ret
            | Instruction::Call(_)
            | Instruction::SkipIE { .. }
            | Instruction::SkipNE { .. }
            | Instruction::SkipRE { .. }
            | Instruction::SkipRN { .. }
            | Instruction::JumpAdd(_)
            | Instruction::SkipIK { .. }
            | Instruction::SkipNK { .. }
            | Instruction::WaitK { .. } => self.run_control(instr),
            Instruction::SetRegister { .. }
            | Instruction::AddValue { .. }
            | Instruction::Mov { .. }
            | Instruction::Or { .. }
            | Instruction::And { .. }
            | Instruction::Xor { .. }
            | Instruction::AddReg { .. }
            | Instruction::SubReg { .. }
            | Instruction::Msr { .. }
            | Instruction::RevSub { .. }
            | Instruction::Msl { .. }
            | Instruction::RandMask { .. }
            | Instruction::MovDT { .. } => self.run_register_op(instr, rnd),
            Instruction::SetI(_)
            | Instruction::SetDT { .. }
            | Instruction::SetST { .. }
            | Instruction::AddI { .. }
            | Instruction::SetIR { .. } => self.run_index_or_timer_op(instr),
            Instruction::BCD { vx } => self.store_bcd(vx),
            Instruction::StoreMem { vx } => self.store_registers(vx),
            Instruction::FillReg { vx } => self.fill_registers(vx),
        }
    }

    /// Jumps, calls, returns, skips and the key wait: everything that only moves the program
    /// counter, the stack, or starts waiting for a key.
    fn run_control(&mut self, instr: Instruction)
        requires
            runnable(old(self)@, instr),
            is_control(instr),
        ensures
            final(self)@ == step(old(self)@, Seq::empty(), instr, 0).0,
    {
        proof {
            reveal(step);
            reveal(runnable);
        }
        match instr {
            Instruction::Jump(address) => self.pc = address,
            Instruction::Ret => {
                self.pc = self.stack.pop().unwrap();
            },
            Instruction::Call(address) => {
                self.stack.push(self.pc);
                self.pc = address;
            },
            Instruction::SkipIE { vx, val } => {
                if self.registers[vx as usize] == val {
                    self.pc = self.pc + 2;
                }
            },
            Instruction::SkipNE { vx, val } => {
                if self.registers[vx as usize] != val {
                    self.pc = self.pc + 2;
                }
            },
            Instruction::SkipRE { vx, vy } => {
                if self.registers[vx as usize] == self.registers[vy as usize] {
                    self.pc = self.pc + 2;
                }
            },
            Instruction::SkipRN { vx, vy } => {
                if self.registers[vx as usize] != self.registers[vy as usize] {
                    self.pc = self.pc + 2;
                }
            },
            Instruction::JumpAdd(nnn) => {
                self.pc = nnn + self.registers[0] as u16;
            },
            Instruction::SkipIK { vx } => {
                if self.keys[self.registers[vx as usize] as usize] == 1 {
                    self.pc = self.pc + 2;
                }
            },
            Instruction::SkipNK { vx } => {
                if self.keys[self.registers[vx as usize] as usize] == 0 {
                    self.pc = self.pc + 2;
                }
            },
            Instruction::WaitK { vx } => {
                self.wait_for_key = Some(vx);
                self.pc = self.pc - 2;
            },
            _ => {},
        }
    }

    /// Instructions that write one register (and possibly `VF`).
    #[verifier::spinoff_prover]
    fn run_register_op(&mut self, instr: Instruction, rnd: u8)
        requires
            runnable(old(self)@, instr),
            is_register_op(instr),
        ensures
            final(self)@ == step(old(self)@, Seq::empty(), instr, rnd).0,
    {
        proof {
            reveal(step);
            reveal(runnable);
        }
        match instr {
            Instruction::SetRegister { reg, val } => self.registers[reg as usize] = val,
            Instruction::AddValue { reg, val } => {
                self.registers[reg as usize] = self.registers[reg as usize].wrapping_add(val);
            },
            Instruction::Mov { vx, vy } => {
                self.registers[vx as usize] = self.registers[vy as usize];
            },
            Instruction::Or { vx, vy } => {
                self.registers[vx as usize] = self.registers[vx as usize]
                    | self.registers[vy as usize];
            },
            Instruction::And { vx, vy } => {
                self.registers[vx as usize] = self.registers[vx as usize]
                    & self.registers[vy as usize];
            },
            Instruction::Xor { vx, vy } => {
                self.registers[vx as usize] = self.registers[vx as usize]
                    ^ self.registers[vy as usize];
            },
            Instruction::AddReg { vx, vy } => self.add_registers(vx, vy),
            Instruction::SubReg { vx, vy } => self.subtract_registers(vx, vy),
            Instruction::RevSub { vx, vy } => self.subtract_registers_reversed(vx, vy),
            Instruction::Msr { vx, vy } => self.shift_right(vx, vy),
            Instruction::Msl { vx, vy } => self.shift_left(vx, vy),
            Instruction::RandMask { vx, val } => {
                self.registers[vx as usize] = rnd & val;
            },
            Instruction::MovDT { vx } => self.registers[vx as usize] = self.delay_timer.get(),
            _ => {},
        }
    }

    /// `AddReg`: `Vx += Vy` modulo 256, then `VF` is 1 on carry, 0 otherwise.
    fn add_registers(&mut self, vx: u8, vy: u8)
        requires
            vx < 16,
            vy < 16,
        ensures
            final(self)@ == step(old(self)@, Seq::empty(), Instruction::AddReg { vx, vy }, 0).0,
    {
        proof {
            reveal(step);
            reveal(runnable);
        }
        let vx_val = self.registers[vx as usize];
        let vy_val = self.registers[vy as usize];
        let result = vx_val.wrapping_add(vy_val);
        let carry = vy_val > 255 - vx_val;
        assert(result == add_mod(vx_val, vy_val));
        self.registers[vx as usize] = result;
        self.registers[0xF] = if carry {
            1
        } else {
            0
        };
    }

    /// `SubReg`: `Vx -= Vy` modulo 256, then `VF` is 1 when there was no borrow.
    fn subtract_registers(&mut self, vx: u8, vy: u8)
        requires
            vx < 16,
            vy < 16,
        ensures
            final(self)@ == step(old(self)@, Seq::empty(), Instruction::SubReg { vx, vy }, 0).0,
    {
        proof {
            reveal(step);
            reveal(runnable);
        }
        let vx_val = self.registers[vx as usize];
        let vy_val = self.registers[vy as usize];
        let result = vx_val.wrapping_sub(vy_val);
        let borrow = vx_val < vy_val;
        assert(result == sub_mod(vx_val, vy_val));
        self.registers[vx as usize] = result;
        self.registers[0xF] = if borrow {
            0
        } else {
            1
        };
    }

    /// `RevSub`: `Vx = Vy - Vx` modulo 256, then `VF` is 1 when there was no borrow.
    fn subtract_registers_reversed(&mut self, vx: u8, vy: u8)
        requires
            vx < 16,
            vy < 16,
        ensures
            final(self)@ == step(old(self)@, Seq::empty(), Instruction::RevSub { vx, vy }, 0).0,
    {
        proof {
            reveal(step);
            reveal(runnable);
        }
        let vx_val = self.registers[vx as usize];
        let vy_val = self.registers[vy as usize];
        let result = vy_val.wrapping_sub(vx_val);
        let borrow = vy_val < vx_val;
        assert(result == sub_mod(vy_val, vx_val));
        self.registers[vx as usize] = result;
        self.registers[0xF] = if borrow {
            0
        } else {
            1
        };
    }

    /// `Msr`: `VF` takes the low bit of `Vy`, then `Vx = Vy >> 1`.
    fn shift_right(&mut self, vx: u8, vy: u8)
        requires
            vx < 16,
            vy < 16,
        ensures
            final(self)@ == step(old(self)@, Seq::empty(), Instruction::Msr { vx, vy }, 0).0,
    {
        proof {
            reveal(step);
            reveal(runnable);
        }
        let vy_val = self.registers[vy as usize];
        assert(vy_val & 0x1 == vy_val % 2 && vy_val >> 1 == vy_val / 2) by (bit_vector);
        self.registers[0xF] = vy_val & 0x1;
        self.registers[vx as usize] = vy_val >> 1;
    }

    /// `Msl`: `VF` takes the high bit of `Vy`, then `Vx = Vy << 1` (modulo 256).
    fn shift_left(&mut self, vx: u8, vy: u8)
        requires
            vx < 16,
            vy < 16,
        ensures
            final(self)@ == step(old(self)@, Seq::empty(), Instruction::Msl { vx, vy }, 0).0,
    {
        proof {
            reveal(step);
            reveal(runnable);
        }
        let vy_val = self.registers[vy as usize];
        assert((vy_val >> 7) & 0x1 == vy_val / 128 && vy_val << 1 == ((vy_val * 2) % 256) as u8)
            by (bit_vector);
        self.registers[0xF] = (vy_val >> 7) & 0x1;
        self.registers[vx as usize] = vy_val << 1;
    }

    /// Instructions that set `I` or a timer.
    fn run_index_or_timer_op(&mut self, instr: Instruction)
        requires
            runnable(old(self)@, instr),
            is_index_or_timer_op(instr),
        ensures
            final(self)@ == step(old(self)@, Seq::empty(), instr, 0).0,
    {
        proof {
            reveal(step);
            reveal(runnable);
        }
        match instr {
            Instruction::SetI(address) => self.index = address,
            Instruction::SetDT { vx } => self.delay_timer.set(self.registers[vx as usize]),
            Instruction::SetST { vx } => self.sound_timer.set(self.registers[vx as usize]),
            Instruction::AddI { vx } => self.index = self.index + self.registers[vx as usize] as u16,
            Instruction::SetIR { vx } => {
                self.index = (self.registers[vx as usize] * 5) as u16 + 0x050;
            },
            _ => {},
        }
    }

    /// `BCD`: the hundreds, tens and units digits of `Vx` at `I`, `I + 1`, `I + 2`.
    fn store_bcd(&mut self, vx: u8)
        requires
            runnable(old(self)@, Instruction::BCD { vx }),
        ensures
            final(self)@ == step(old(self)@, Seq::empty(), Instruction::BCD { vx }, 0).0,
    {
        proof {
            reveal(step);
            reveal(runnable);
        }
        let ghost n = self.registers[vx as int];
        let ghost s0 = self@;
        let mut number = self.registers[vx as usize];
        let mut i: usize = 3;
        while i > 0
            invariant
                i <= 3,
                s0.index + 2 < 4096,
                self@ == (CpuState { mem: self@.mem, ..s0 }),
                self@.mem.len() == 4096,
                number == (if i == 3 {
                    n
                } else if i == 2 {
                    (n / 10) as u8
                } else if i == 1 {
                    (n / 100) as u8
                } else {
                    0u8
                }),
                forall|j: int|
                    0 <= j < 4096 ==> #[trigger] self@.mem[j] == (if s0.index + i <= j < s0.index
                        + 3 {
                        decimal_digit(n, (2 - (j - s0.index)) as nat)
                    } else {
                        s0.mem[j]
                    }),
            decreases i,
        {
            i = i - 1;
            self.mem[self.index as usize + i] = number % 10;
            number = number / 10;
        }
        assert(self@.mem =~= step(s0, Seq::empty(), Instruction::BCD { vx }, 0).0.mem);
    }

    /// `StoreMem`: copies `V0`..=`Vx` to memory at `I` and moves `I` past them.
    fn store_registers(&mut self, vx: u8)
        requires
            runnable(old(self)@, Instruction::StoreMem { vx }),
        ensures
            final(self)@ == step(old(self)@, Seq::empty(), Instruction::StoreMem { vx }, 0).0,
    {
        proof {
            reveal(step);
            reveal(runnable);
        }
        let ghost s0 = self@;
        let mut i: u8 = 0;
        while i <= vx
            invariant
                vx < 16,
                i <= vx + 1,
                s0.index + vx < 4096,
                self@ == (CpuState { mem: self@.mem, ..s0 }),
                self@.mem.len() == 4096,
                forall|j: int|
                    0 <= j < 4096 ==> #[trigger] self@.mem[j] == (if s0.index <= j < s0.index
                        + i {
                        s0.registers[j - s0.index]
                    } else {
                        s0.mem[j]
                    }),
            decreases vx + 1 - i,
        {
            self.mem[self.index as usize + i as usize] = self.registers[i as usize];
            i = i + 1;
        }
        self.index = self.index + vx as u16 + 1;
        assert(self@.mem =~= mem_write(s0.mem, s0.index as int, s0.registers, vx + 1));
    }

    /// `FillReg`: loads `V0`..=`Vx` from memory at `I` and moves `I` past them.
    fn fill_registers(&mut self, vx: u8)
        requires
            runnable(old(self)@, Instruction::FillReg { vx }),
        ensures
            final(self)@ == step(old(self)@, Seq::empty(), Instruction::FillReg { vx }, 0).0,
    {
        proof {
            reveal(step);
            reveal(runnable);
        }
        let ghost s0 = self@;
        let mut i: u8 = 0;
        while i <= vx
            invariant
                vx < 16,
                i <= vx + 1,
                s0.index + vx < 4096,
                self@ == (CpuState { registers: self@.registers, ..s0 }),
                self@.registers.len() == 16,
                forall|j: int|
                    0 <= j < 16 ==> #[trigger] self@.registers[j] == (if j < i {
                        s0.mem[s0.index + j]
                    } else {
                        s0.registers[j]
                    }),
            decreases vx + 1 - i,
        {
            self.registers[i as usize] = self.mem[self.index as usize + i as usize];
            i = i + 1;
        }
        self.index = self.index + vx as u16 + 1;
        assert(self@.registers =~= step(s0, Seq::empty(), Instruction::FillReg { vx }, 0).0.registers);
    }

    /// `Display`: XORs a sprite of `val` rows from memory at `I` onto the screen at
    /// (`Vx`, `Vy`), wrapping around the edges; `VF` is 1 when a lit pixel was turned off,
    /// 0 otherwise.
    fn draw_sprite(&mut self, vx: u8, vy: u8, val: u8, screen: &mut Screen)
        requires
            runnable(old(self)@, Instruction::Display { vx, vy, val }),
        ensures
            (final(self)@, final(screen)@) == step(
                old(self)@,
                old(screen)@,
                Instruction::Display { vx, vy, val },
                0,
            ),
    {
        proof {
            reveal(step);
            reveal(runnable);
        }
        let ghost s0 = self@;
        let ghost g0 = screen@;
        let ghost sprite = sprite_of(s0, val);
        let start_x = self.registers[vx as usize] as usize % SCREEN_WIDTH;
        let start_y = self.registers[vy as usize] as usize % SCREEN_HEIGHT;
        let mut collision = false;
        let mut row: u8 = 0;
        while row < val
            invariant
                row <= val,
                val == 0 || s0.index + val <= 4096,
                start_x == s0.registers[vx as int] % 64,
                start_y == s0.registers[vy as int] % 32,
                sprite == sprite_of(s0, val),
                self@ == s0,
                screen@.len() == 2048,
                (screen@, collision) == draw_pixels(
                    g0,
                    start_x as int,
                    start_y as int,
                    sprite,
                    (row * 8) as nat,
                ),
            decreases val - row,
        {
            let sprite_byte = self.mem[self.index as usize + row as usize];
            assert(sprite_byte == sprite[row as int]);
            let mut col: u8 = 0;
            while col < 8
                invariant
                    row < val,
                    col <= 8,
                    start_x < 64,
                    start_y < 32,
                    sprite_byte == sprite[row as int],
                    self@ == s0,
                    screen@.len() == 2048,
                    (screen@, collision) == draw_pixels(
                        g0,
                        start_x as int,
                        start_y as int,
                        sprite,
                        (row * 8 + col) as nat,
                    ),
                decreases 8 - col,
            {
                let mask: u8 = 0x80u8 >> col;
                if (sprite_byte & mask) != 0 {
                    let x = (start_x + col as usize) % SCREEN_WIDTH;
                    let y = (start_y + row as usize) % SCREEN_HEIGHT;
                    let before = screen.grid[y * SCREEN_WIDTH + x];
                    screen.set_pixel(x, y, 1);
                    let after = screen.grid[y * SCREEN_WIDTH + x];
                    if before == 1 && after == 0 {
                        collision = true;
                    }
                }
                proof {
                    let n = (row * 8 + col) as nat;
                    assert((n + 1 - 1) / 8 == row as int);
                    assert((n + 1 - 1) % 8 == col as int);
                    assert(sprite_bit(sprite[row as int], col) == (sprite_byte & mask != 0));
                }
                col = col + 1;
            }
            row = row + 1;
        }
        self.registers[0xF] = if collision {
            1
        } else {
            0
        };
        proof {
            assert(self@ == step(s0, g0, Instruction::Display { vx, vy, val }, 0).0);
        }
    }
}

} // verus!
