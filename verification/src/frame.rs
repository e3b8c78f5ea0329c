use vstd::prelude::*;
use crate::cpu::Cpu;
use crate::instructions::{Instruction, spec_decode};
use crate::keypad::{HostKey, keypad_index, spec_keypad_index};
use crate::screen::Screen;
use crate::state::{CpuState, runnable, step, fetch, with_pc, with_reg, MEMORY_SIZE};

verus! {

/// Number of instructions run per displayed frame.
pub const STEPS_PER_FRAME: usize = 7;

/// Why the processor cannot go on.
#[derive(Debug, PartialEq, Eq, Structural)]
pub enum CpuFault {
    /// The program counter has no two bytes of memory left to fetch an opcode from, or
    /// cannot move past the `WaitK` that a key has just answered.
    FetchOutOfMemory,
    /// The fetched instruction cannot run in the current state (see `runnable`).
    CannotRun(Instruction),
    /// A key arrived while waiting, but the register to receive it does not exist.
    BadWaitRegister(u8),
}

/// What one step of the frame loop did.
pub enum StepOutcome {
    /// An instruction ran; the frame goes on.
    Ran(CpuState, Seq<u8>),
    /// The processor is waiting for a key (and may just have received it); the frame ends.
    Waiting(CpuState, Seq<u8>),
    /// The processor cannot go on.
    Faulted(CpuState, Seq<u8>, CpuFault),
}

/// The first pressed key (state exactly 1) at or after position `from`.
pub open spec fn first_pressed(keys: Seq<u8>, from: int) -> Option<u8>
    decreases keys.len() - from,
{
    if from < 0 || from >= keys.len() {
        None
    } else if keys[from] == 1 {
        Some(from as u8)
    } else {
        first_pressed(keys, from + 1)
    }
}

/// One step of the frame loop. While waiting for a key: if one is pressed it goes to the
/// waiting register, the wait ends and the program counter moves past the `WaitK` (which
/// left it on itself); the frame ends either way. Otherwise: fetch, decode
/// and run the next instruction, with `rnd` as the random byte.
#[verifier::opaque]
pub open spec fn frame_step(s: CpuState, grid: Seq<u8>, rnd: u8) -> StepOutcome {
    match s.wait_for_key {
        Some(vx) => match first_pressed(s.keys, 0) {
            Some(k) => if vx >= 16 {
                StepOutcome::Faulted(s, grid, CpuFault::BadWaitRegister(vx))
            } else if s.pc + 2 > u16::MAX {
                StepOutcome::Faulted(s, grid, CpuFault::FetchOutOfMemory)
            } else {
                StepOutcome::Waiting(
                    with_reg(CpuState { wait_for_key: None, pc: (s.pc + 2) as u16, ..s }, vx, k),
                    grid,
                )
            },
            None => StepOutcome::Waiting(s, grid),
        },
        None => if s.pc + 1 < MEMORY_SIZE {
            let instr = spec_decode(fetch(s));
            let s1 = with_pc(s, s.pc + 2);
            if runnable(s1, instr) {
                let (s2, g2) = step(s1, grid, instr, rnd);
                StepOutcome::Ran(s2, g2)
            } else {
                StepOutcome::Faulted(s1, grid, CpuFault::CannotRun(instr))
            }
        } else {
            StepOutcome::Faulted(s, grid, CpuFault::FetchOutOfMemory)
        },
    }
}

/// State, screen and fault after at most `n` steps of the frame loop, with `rnds[i]` as the
/// random byte of step `i`.
pub open spec fn run_steps(s: CpuState, grid: Seq<u8>, rnds: Seq<u8>, n: nat) -> (
    CpuState,
    Seq<u8>,
    Option<CpuFault>,
)
    decreases n,
{
    if n == 0 {
        (s, grid, None)
    } else {
        match frame_step(s, grid, rnds[0]) {
            StepOutcome::Ran(s2, g2) => run_steps(s2, g2, rnds.drop_first(), (n - 1) as nat),
            StepOutcome::Waiting(s2, g2) => (s2, g2, None),
            StepOutcome::Faulted(s2, g2, f) => (s2, g2, Some(f)),
        }
    }
}

/// `result`, the processor state `s` and the screen `grid` are what `outcome` describes;
/// `Ok(true)` stands for `Ran`, `Ok(false)` for `Waiting`.
pub open spec fn step_result_is(
    outcome: StepOutcome,
    s: CpuState,
    grid: Seq<u8>,
    result: Result<bool, CpuFault>,
) -> bool {
    match outcome {
        StepOutcome::Ran(s2, g2) => s == s2 && grid == g2 && result == Ok::<bool, CpuFault>(true),
        StepOutcome::Waiting(s2, g2) => s == s2 && grid == g2 && result == Ok::<bool, CpuFault>(
            false,
        ),
        StepOutcome::Faulted(s2, g2, f) => s == s2 && grid == g2 && result == Err::<bool, CpuFault>(
            f,
        ),
    }
}

/// Running `n > 0` steps with the random bytes `rnd` then `rest` is one step with `rnd`,
/// followed, when an instruction ran, by `n - 1` steps with `rest`.
proof fn lemma_run_steps_first(s: CpuState, grid: Seq<u8>, rnd: u8, rest: Seq<u8>, n: nat)
    requires
        n > 0,
    ensures
        run_steps(s, grid, seq![rnd] + rest, n) == match frame_step(s, grid, rnd) {
            StepOutcome::Ran(s2, g2) => run_steps(s2, g2, rest, (n - 1) as nat),
            StepOutcome::Waiting(s2, g2) => (s2, g2, None),
            StepOutcome::Faulted(s2, g2, f) => (s2, g2, Some(f)),
        },
{
    assert((seq![rnd] + rest).drop_first() =~= rest);
    assert((seq![rnd] + rest)[0] == rnd);
}

impl Cpu {
    /// Records that the keypad key of host key `key` is pressed (`true`) or released.
    pub fn set_key(&mut self, key: HostKey, pressed: bool)
        ensures
            final(self)@ == (CpuState {
                keys: old(self)@.keys.update(
                    spec_keypad_index(key) as int,
                    if pressed { 1u8 } else { 0u8 },
                ),
                ..old(self)@
            }),
    {
        let k = keypad_index(key);
        self.keys[k as usize] = if pressed {
            1
        } else {
            0
        };
    }

    /// The first pressed key, if any.
    fn pressed_key(&self) -> (k: Option<u8>)
        ensures
            k == first_pressed(self@.keys, 0),
    {
        let mut i: usize = 0;
        while i < 16
            invariant
                i <= 16,
                self@.keys.len() == 16,
                first_pressed(self@.keys, 0) == first_pressed(self@.keys, i as int),
            decreases 16 - i,
        {
            if self.keys[i] == 1 {
                return Some(i as u8);
            }
            i = i + 1;
        }
        None
    }

    /// One step of the frame loop (see `frame_step`); a `RandMask` masks a byte drawn from
    /// `rand`. `Ok(true)`: an instruction ran; `Ok(false)`: the processor is waiting for a key.
    #[verifier::spinoff_prover]
    pub fn run_step(&mut self, screen: &mut Screen) -> (r: Result<bool, CpuFault>)
        ensures
            exists|rnd: u8|
                step_result_is(
                    frame_step(old(self)@, old(screen)@, rnd),
                    final(self)@,
                    final(screen)@,
                    r,
                ),
    {
        proof {
            reveal(frame_step);
        }
        if let Some(vx) = self.wait_for_key {
            if let Some(key) = self.pressed_key() {
                if vx >= 16 {
                    return Err(CpuFault::BadWaitRegister(vx));
                }
                if self.pc > u16::MAX - 2 {
                    return Err(CpuFault::FetchOutOfMemory);
                }
                self.registers[vx as usize] = key;
                self.wait_for_key = None;
                self.pc = self.pc + 2;
            }
            proof {
                assert(step_result_is(
                    frame_step(old(self)@, old(screen)@, 0),
                    self@,
                    screen@,
                    Ok::<bool, CpuFault>(false),
                ));
            }
            return Ok(false);
        }
        if self.pc >= 4095 {
            proof {
                assert(step_result_is(
                    frame_step(old(self)@, old(screen)@, 0),
                    self@,
                    screen@,
                    Err::<bool, CpuFault>(CpuFault::FetchOutOfMemory),
                ));
            }
            return Err(CpuFault::FetchOutOfMemory);
        }
        let raw_opcode = self.read_opcode();
        let instruction = Instruction::decode(raw_opcode);
        if !self.can_run(&instruction) {
            proof {
                assert(step_result_is(
                    frame_step(old(self)@, old(screen)@, 0),
                    self@,
                    screen@,
                    Err::<bool, CpuFault>(CpuFault::CannotRun(instruction)),
                ));
            }
            return Err(CpuFault::CannotRun(instruction));
        }
        let ghost s1 = self@;
        let ghost g1 = screen@;
        self.execute(instruction, screen);
        proof {
            let rnd = choose|rnd: u8| (self@, screen@) == step(s1, g1, instruction, rnd);
            assert(step_result_is(
                frame_step(old(self)@, old(screen)@, rnd),
                self@,
                screen@,
                Ok::<bool, CpuFault>(true),
            ));
        }
        Ok(true)
    }

    /// Runs one displayed frame: up to `STEPS_PER_FRAME` steps of the frame loop, stopping
    /// early while waiting for a key, or with the fault that stops the processor.
    #[verifier::spinoff_prover]
    pub fn run_frame(&mut self, screen: &mut Screen) -> (r: Result<(), CpuFault>)
        ensures
            exists|rnds: Seq<u8>|
                #![trigger run_steps(old(self)@, old(screen)@, rnds, STEPS_PER_FRAME as nat)]
                rnds.len() == STEPS_PER_FRAME && run_steps(
                    old(self)@,
                    old(screen)@,
                    rnds,
                    STEPS_PER_FRAME as nat,
                ) == (final(self)@, final(screen)@, match r {
                    Ok(_) => None,
                    Err(f) => Some(f),
                }),
    {
        let ghost s0 = self@;
        let ghost g0 = screen@;
        let ghost mut used: Seq<u8> = Seq::empty();
        let mut i: usize = 0;
        while i < STEPS_PER_FRAME
            invariant
                i <= STEPS_PER_FRAME,
                used.len() == i,
                s0 == old(self)@,
                g0 == old(screen)@,
                forall|rest: Seq<u8>|
                    #![trigger run_steps(self@, screen@, rest, (STEPS_PER_FRAME - i) as nat)]
                    run_steps(s0, g0, used + rest, STEPS_PER_FRAME as nat) == run_steps(
                        self@,
                        screen@,
                        rest,
                        (STEPS_PER_FRAME - i) as nat,
                    ),
            decreases STEPS_PER_FRAME - i,
        {
            let ghost s1 = self@;
            let ghost g1 = screen@;
            let r = self.run_step(screen);
            let ghost rnd = choose|rnd: u8|
                step_result_is(frame_step(s1, g1, rnd), self@, screen@, r);
            let ghost pad = Seq::new((STEPS_PER_FRAME - i - 1) as nat, |j: int| 0u8);
            proof {
                lemma_run_steps_first(s1, g1, rnd, pad, (STEPS_PER_FRAME - i) as nat);
                assert(used.push(rnd) + pad =~= used + (seq![rnd] + pad));
                assert(run_steps(s0, g0, used + (seq![rnd] + pad), STEPS_PER_FRAME as nat)
                    == run_steps(s1, g1, seq![rnd] + pad, (STEPS_PER_FRAME - i) as nat));
            }
            match r {
                Ok(true) => {},
                Ok(false) => {
                    proof {
                        assert((used.push(rnd) + pad).len() == STEPS_PER_FRAME);
                        let rnds = used.push(rnd) + pad;
                        assert(run_steps(old(self)@, old(screen)@, rnds, STEPS_PER_FRAME as nat)
                            == (self@, screen@, None::<CpuFault>));
                    }
                    return Ok(());
                },
                Err(f) => {
                    proof {
                        assert((used.push(rnd) + pad).len() == STEPS_PER_FRAME);
                        let rnds = used.push(rnd) + pad;
                        assert(run_steps(old(self)@, old(screen)@, rnds, STEPS_PER_FRAME as nat)
                            == (self@, screen@, Some(f)));
                    }
                    return Err(f);
                },
            }
            proof {
                assert forall|rest: Seq<u8>|
                    #![trigger run_steps(self@, screen@, rest, (STEPS_PER_FRAME - i - 1) as nat)]
                    run_steps(s0, g0, used.push(rnd) + rest, STEPS_PER_FRAME as nat) == run_steps(
                        self@,
                        screen@,
                        rest,
                        (STEPS_PER_FRAME - i - 1) as nat,
                    ) by {
                    lemma_run_steps_first(s1, g1, rnd, rest, (STEPS_PER_FRAME - i) as nat);
                    assert(used.push(rnd) + rest =~= used + (seq![rnd] + rest));
                    assert(run_steps(s0, g0, used + (seq![rnd] + rest), STEPS_PER_FRAME as nat)
                        == run_steps(s1, g1, seq![rnd] + rest, (STEPS_PER_FRAME - i) as nat));
                }
                used = used.push(rnd);
            }
            i = i + 1;
        }
        proof {
            assert(used + Seq::<u8>::empty() =~= used);
            let none = Seq::<u8>::empty();
            assert(run_steps(old(self)@, old(screen)@, used + none, STEPS_PER_FRAME as nat)
                == run_steps(self@, screen@, none, (STEPS_PER_FRAME - i) as nat));
        }
        Ok(())
    }
}

} // verus!
