use vstd::prelude::*;
use crate::cpu::initial_state;
use crate::delay_timer::ticked;
use crate::frame::{first_pressed, frame_step, run_steps, StepOutcome};
use crate::instructions::spec_decode;
use crate::instructions::Instruction;
use crate::screen::{blank_grid, grid_set_pixel, pixel_index, SCREEN_PIXELS};
use crate::state::{
    CpuState,
    runnable,
    step,
    draw_pixels,
    fetch,
    mem_write,
    with_pc,
    with_reg,
    sprite_bit,
    state_shape,
    FLAG,
    MAX_PROGRAM_BYTES,
    MEMORY_SIZE,
};

verus! {

/// `v` toggled (XOR 1) `c` times.
pub open spec fn toggled_times(v: u8, c: nat) -> u8 {
    if c % 2 == 0 {
        v
    } else {
        v ^ 1u8
    }
}

/// How many of the first `n` sprite pixels drawn at (`sx`, `sy`) are lit and land on grid
/// position `p`.
pub open spec fn hits(sx: int, sy: int, sprite: Seq<u8>, n: nat, p: int) -> nat
    decreases n,
{
    if n == 0 {
        0
    } else {
        let row = (n - 1) / 8;
        let col = (n - 1) % 8;
        let here: nat = if sprite_bit(sprite[row], col as u8) && p == pixel_index(
            (sx + col) % 64,
            (sy + row) % 32,
        ) {
            1
        } else {
            0
        };
        hits(sx, sy, sprite, (n - 1) as nat, p) + here
    }
}

proof fn lemma_xor_one_twice(v: u8)
    ensures
        (v ^ 1u8) ^ 1u8 == v,
{
    assert((v ^ 1u8) ^ 1u8 == v) by (bit_vector);
}

/// Drawing toggles every screen pixel once per lit sprite pixel that lands on it.
proof fn lemma_draw_toggles(grid: Seq<u8>, sx: int, sy: int, sprite: Seq<u8>, n: nat)
    requires
        grid.len() == SCREEN_PIXELS,
        0 <= sx < 64,
        0 <= sy < 32,
    ensures
        draw_pixels(grid, sx, sy, sprite, n).0.len() == SCREEN_PIXELS,
        forall|p: int|
            0 <= p < SCREEN_PIXELS ==> #[trigger] draw_pixels(grid, sx, sy, sprite, n).0[p]
                == toggled_times(grid[p], hits(sx, sy, sprite, n, p)),
    decreases n,
{
    if n > 0 {
        lemma_draw_toggles(grid, sx, sy, sprite, (n - 1) as nat);
        let prev = draw_pixels(grid, sx, sy, sprite, (n - 1) as nat).0;
        let row = (n - 1) / 8;
        let col = (n - 1) % 8;
        let q = pixel_index((sx + col) % 64, (sy + row) % 32);
        assert(0 <= q < SCREEN_PIXELS);
        let cur = draw_pixels(grid, sx, sy, sprite, n).0;
        assert forall|p: int|
            0 <= p < SCREEN_PIXELS implies #[trigger] cur[p] == toggled_times(
                grid[p],
                hits(sx, sy, sprite, n, p),
            ) by {
            let c = hits(sx, sy, sprite, (n - 1) as nat, p);
            if sprite_bit(sprite[row], col as u8) && p == q {
                lemma_xor_one_twice(grid[p]);
                assert(prev[p] == toggled_times(grid[p], c));
                assert(hits(sx, sy, sprite, n, p) == c + 1);
            } else {
                assert(hits(sx, sy, sprite, n, p) == c);
            }
        }
    }
}

/// Grid position of sprite pixel `k` (row `k / 8`, column `k % 8`) drawn at (`sx`, `sy`).
pub open spec fn sprite_pixel_pos(sx: int, sy: int, k: int) -> int {
    ((sy + k / 8) % 32) * 64 + (sx + k % 8) % 64
}

/// Whether sprite pixel `k` is lit: bit `7 - k % 8` of sprite row `k / 8` (the most
/// significant bit is the leftmost column).
pub open spec fn sprite_pixel_lit(sprite: Seq<u8>, k: int) -> bool {
    (sprite[k / 8] >> ((7 - k % 8) as u8)) & 1u8 == 1u8
}

proof fn lemma_column_bit(b: u8, c: u8)
    requires
        c < 8,
    ensures
        sprite_bit(b, c) == ((b >> (7 - c) as u8) & 1u8 == 1u8),
{
    assert(c < 8 ==> ((b & (0x80u8 >> c) != 0) == ((b >> (7 - c) as u8) & 1u8 == 1u8)))
        by (bit_vector);
}

/// Sprite pixel `k` is lit exactly when the drawing finds its bit set.
proof fn lemma_lit_is_sprite_bit(sprite: Seq<u8>, k: int)
    requires
        0 <= k,
    ensures
        sprite_pixel_lit(sprite, k) == sprite_bit(sprite[k / 8], (k % 8) as u8),
{
    lemma_column_bit(sprite[k / 8], (k % 8) as u8);
}

/// Whether one of the first `n` sprite pixels is lit.
pub open spec fn any_lit(sprite: Seq<u8>, n: nat) -> bool
    decreases n,
{
    if n == 0 {
        false
    } else {
        sprite_pixel_lit(sprite, n - 1) || any_lit(sprite, (n - 1) as nat)
    }
}

/// Whether one of the first `n` lit sprite pixels lands on a screen pixel that is lit
/// (exactly 1) in `grid`.
pub open spec fn covers_lit(grid: Seq<u8>, sx: int, sy: int, sprite: Seq<u8>, n: nat) -> bool
    decreases n,
{
    if n == 0 {
        false
    } else {
        (sprite_pixel_lit(sprite, n - 1) && grid[sprite_pixel_pos(sx, sy, n - 1)] == 1)
            || covers_lit(grid, sx, sy, sprite, (n - 1) as nat)
    }
}

/// A sprite of at most 32 rows never covers a screen pixel twice.
proof fn lemma_sprite_pixels_distinct(sx: int, sy: int, k1: int, k2: int)
    requires
        0 <= sx < 64,
        0 <= sy < 32,
        0 <= k1 < k2 < 256,
    ensures
        sprite_pixel_pos(sx, sy, k1) != sprite_pixel_pos(sx, sy, k2),
{
    let r1 = k1 / 8;
    let r2 = k2 / 8;
    let c1 = k1 % 8;
    let c2 = k2 % 8;
    let x1 = (sx + c1) % 64;
    let x2 = (sx + c2) % 64;
    let y1 = (sy + r1) % 32;
    let y2 = (sy + r2) % 32;
    assert(0 <= x1 < 64 && 0 <= x2 < 64 && 0 <= y1 < 32 && 0 <= y2 < 32);
    if r1 == r2 {
        assert(c1 != c2);
        assert(x1 != x2);
    } else {
        assert(0 <= r1 < 32 && 0 <= r2 < 32);
        assert(y1 != y2);
    }
    assert(y1 * 64 + x1 != y2 * 64 + x2);
}

/// Sprite pixel `k` lands on a screen pixel that none of the pixels before it touched,
/// and none after it touches again.
proof fn lemma_hits_of_own_pixel(sx: int, sy: int, sprite: Seq<u8>, k: int, n: nat)
    requires
        0 <= sx < 64,
        0 <= sy < 32,
        0 <= k < 256,
        n <= 256,
    ensures
        hits(sx, sy, sprite, n, sprite_pixel_pos(sx, sy, k)) == if k < n && sprite_pixel_lit(
            sprite,
            k,
        ) {
            1nat
        } else {
            0nat
        },
    decreases n,
{
    if n > 0 {
        lemma_hits_of_own_pixel(sx, sy, sprite, k, (n - 1) as nat);
        lemma_lit_is_sprite_bit(sprite, k);
        lemma_lit_is_sprite_bit(sprite, n - 1);
        if n - 1 != k {
            if n - 1 < k {
                lemma_sprite_pixels_distinct(sx, sy, n - 1, k);
            } else {
                lemma_sprite_pixels_distinct(sx, sy, k, n - 1);
            }
        }
    }
}

proof fn lemma_xor_one_clears_only_one(v: u8)
    ensures
        (v == 1 && (v ^ 1u8) == 0) == (v == 1),
{
    assert((v == 1 && (v ^ 1u8) == 0) == (v == 1)) by (bit_vector);
}

/// For sprites of at most 32 rows, drawing collides exactly when a lit sprite pixel lands on
/// a pixel that was lit before the drawing.
proof fn lemma_draw_collision(grid: Seq<u8>, sx: int, sy: int, sprite: Seq<u8>, n: nat)
    requires
        grid.len() == SCREEN_PIXELS,
        0 <= sx < 64,
        0 <= sy < 32,
        n <= 256,
    ensures
        draw_pixels(grid, sx, sy, sprite, n).1 == covers_lit(grid, sx, sy, sprite, n),
    decreases n,
{
    if n > 0 {
        lemma_draw_collision(grid, sx, sy, sprite, (n - 1) as nat);
        let k = n - 1;
        let p = sprite_pixel_pos(sx, sy, k);
        assert(p == pixel_index((sx + (n - 1) % 8) % 64, (sy + (n - 1) / 8) % 32));
        assert(0 <= p < SCREEN_PIXELS);
        lemma_draw_toggles(grid, sx, sy, sprite, (n - 1) as nat);
        lemma_hits_of_own_pixel(sx, sy, sprite, k, (n - 1) as nat);
        lemma_lit_is_sprite_bit(sprite, k);
        assert(draw_pixels(grid, sx, sy, sprite, (n - 1) as nat).0[p] == grid[p]);
        lemma_xor_one_clears_only_one(grid[p]);
    }
}

/// `Display` with a sprite of at most 32 rows sets `VF` to 1 when one of its lit pixels
/// lands on a lit screen pixel (turning it off), and to 0 otherwise.
pub proof fn law_display_flag(s: CpuState, grid: Seq<u8>, vx: u8, vy: u8, val: u8, rnd: u8)
    requires
        state_shape(s),
        grid.len() == SCREEN_PIXELS,
        runnable(s, Instruction::Display { vx, vy, val }),
        val <= 32,
    ensures
        step(s, grid, Instruction::Display { vx, vy, val }, rnd).0.registers[FLAG as int]
            == if covers_lit(
            grid,
            (s.registers[vx as int] % 64) as int,
            (s.registers[vy as int] % 32) as int,
            s.mem.subrange(s.index as int, s.index + val),
            (val * 8) as nat,
        ) {
            1u8
        } else {
            0u8
        },
{
    reveal(step);
    reveal(runnable);
    lemma_draw_collision(
        grid,
        (s.registers[vx as int] % 64) as int,
        (s.registers[vy as int] % 32) as int,
        s.mem.subrange(s.index as int, s.index + val),
        (val * 8) as nat,
    );
}

/// When every lit pixel of a sprite is on, drawing it again collides, unless it has no lit
/// pixel at all.
proof fn lemma_redraw_covers(grid: Seq<u8>, sx: int, sy: int, sprite: Seq<u8>, n: nat)
    requires
        forall|k: int|
            0 <= k < n && sprite_pixel_lit(sprite, k) ==> grid[sprite_pixel_pos(sx, sy, k)] == 1,
    ensures
        covers_lit(grid, sx, sy, sprite, n) == any_lit(sprite, n),
    decreases n,
{
    if n > 0 {
        lemma_redraw_covers(grid, sx, sy, sprite, (n - 1) as nat);
    }
}

/// On a blank screen no lit sprite pixel finds a lit screen pixel under it.
proof fn lemma_blank_covers_nothing(grid: Seq<u8>, sx: int, sy: int, sprite: Seq<u8>, n: nat)
    requires
        grid.len() == SCREEN_PIXELS,
        0 <= sx < 64,
        0 <= sy < 32,
        forall|p: int| 0 <= p < SCREEN_PIXELS ==> grid[p] == 0,
    ensures
        !covers_lit(grid, sx, sy, sprite, n),
    decreases n,
{
    if n > 0 {
        lemma_blank_covers_nothing(grid, sx, sy, sprite, (n - 1) as nat);
        let p = sprite_pixel_pos(sx, sy, n - 1);
        assert(0 <= p < SCREEN_PIXELS);
    }
}

/// A sprite of at most 32 rows drawn on a blank screen and then drawn again at the same
/// place: the first drawing reports no collision, and the second reports one exactly when
/// the sprite has a lit pixel (the usual way to erase a sprite).
pub proof fn law_redraw_reports_collision(s: CpuState, vx: u8, vy: u8, val: u8, rnd1: u8, rnd2: u8)
    requires
        state_shape(s),
        runnable(s, Instruction::Display { vx, vy, val }),
        val <= 32,
        vx != FLAG,
        vy != FLAG,
    ensures
        ({
            let d = Instruction::Display { vx, vy, val };
            let (s1, g1) = step(s, blank_grid(), d, rnd1);
            let (s2, g2) = step(s1, g1, d, rnd2);
            let lit = any_lit(s.mem.subrange(s.index as int, s.index + val), (val * 8) as nat);
            &&& s1.registers[FLAG as int] == 0
            &&& s2.registers[FLAG as int] == if lit { 1u8 } else { 0u8 }
        }),
{
    reveal(step);
    reveal(runnable);
    let d = Instruction::Display { vx, vy, val };
    let g0 = blank_grid();
    let (s1, g1) = step(s, g0, d, rnd1);
    let sx = (s.registers[vx as int] % 64) as int;
    let sy = (s.registers[vy as int] % 32) as int;
    let sprite = s.mem.subrange(s.index as int, s.index + val);
    let n = (val * 8) as nat;
    lemma_draw_collision(g0, sx, sy, sprite, n);
    lemma_blank_covers_nothing(g0, sx, sy, sprite, n);
    lemma_draw_toggles(g0, sx, sy, sprite, n);
    assert forall|k: int| 0 <= k < n && sprite_pixel_lit(sprite, k) implies g1[
        sprite_pixel_pos(sx, sy, k)
    ] == 1 by {
        lemma_hits_of_own_pixel(sx, sy, sprite, k, n);
        let p = sprite_pixel_pos(sx, sy, k);
        assert(0 <= p < SCREEN_PIXELS);
        assert(g0[p] == 0);
        assert((0u8 ^ 1u8) == 1u8) by (bit_vector);
    }
    assert(s1.registers[vx as int] == s.registers[vx as int]);
    assert(s1.registers[vy as int] == s.registers[vy as int]);
    lemma_draw_collision(g1, sx, sy, sprite, n);
    lemma_redraw_covers(g1, sx, sy, sprite, n);
}

/// Drawing the same sprite twice at the same place leaves the screen as it was
/// (sprites are drawn with XOR). The sprite must not be placed by `VF`, which the first
/// drawing overwrites.
pub proof fn law_draw_twice_restores_screen(
    s: CpuState,
    grid: Seq<u8>,
    vx: u8,
    vy: u8,
    val: u8,
    rnd1: u8,
    rnd2: u8,
)
    requires
        state_shape(s),
        grid.len() == SCREEN_PIXELS,
        runnable(s, Instruction::Display { vx, vy, val }),
        vx != FLAG,
        vy != FLAG,
    ensures
        ({
            let d = Instruction::Display { vx, vy, val };
            let (s1, g1) = step(s, grid, d, rnd1);
            runnable(s1, d) && step(s1, g1, d, rnd2).1 == grid
        }),
{
    reveal(step);
    reveal(runnable);
    let d = Instruction::Display { vx, vy, val };
    let (s1, g1) = step(s, grid, d, rnd1);
    let sx = (s.registers[vx as int] % 64) as int;
    let sy = (s.registers[vy as int] % 32) as int;
    let sprite = s.mem.subrange(s.index as int, s.index + val);
    let n = (val * 8) as nat;
    lemma_draw_toggles(grid, sx, sy, sprite, n);
    assert(s1.registers[vx as int] == s.registers[vx as int]);
    assert(s1.registers[vy as int] == s.registers[vy as int]);
    let g2 = step(s1, g1, d, rnd2).1;
    lemma_draw_toggles(g1, sx, sy, sprite, n);
    assert forall|p: int| 0 <= p < SCREEN_PIXELS implies #[trigger] g2[p] == grid[p] by {
        let c = hits(sx, sy, sprite, n, p);
        assert(g1[p] == toggled_times(grid[p], c));
        assert(g2[p] == toggled_times(g1[p], c));
        lemma_xor_one_twice(grid[p]);
    }
    assert(g2 =~= grid);
}

/// A `Call` followed by a `Ret` comes back to the instruction after the call, with the stack,
/// the screen and everything else as before.
pub proof fn law_call_then_ret(s: CpuState, grid: Seq<u8>, address: u16, rnd1: u8, rnd2: u8)
    ensures
        ({
            let (s1, g1) = step(s, grid, Instruction::Call(address), rnd1);
            runnable(s1, Instruction::Ret) && step(s1, g1, Instruction::Ret, rnd2) == (s, grid)
        }),
{
    reveal(step);
    reveal(runnable);
    let (s1, g1) = step(s, grid, Instruction::Call(address), rnd1);
    assert(s1.stack.drop_last() =~= s.stack);
}

/// Of `SkipIE` and `SkipNE` on the same register and value, exactly one skips the next
/// instruction (moves the program counter on by two) and the other leaves it.
pub proof fn law_skip_if_equal_or_not(s: CpuState, grid: Seq<u8>, vx: u8, val: u8, rnd: u8)
    requires
        runnable(s, Instruction::SkipIE { vx, val }),
        runnable(s, Instruction::SkipNE { vx, val }),
    ensures
        ({
            let eq = step(s, grid, Instruction::SkipIE { vx, val }, rnd).0.pc;
            let ne = step(s, grid, Instruction::SkipNE { vx, val }, rnd).0.pc;
            (eq == s.pc + 2 && ne == s.pc) || (eq == s.pc && ne == s.pc + 2)
        }),
        step(s, grid, Instruction::SkipIE { vx, val }, rnd).0.pc == s.pc + 2 <==> s.registers[vx as int]
            == val,
{
    reveal(step);
    reveal(runnable);
}

/// `AddReg` leaves the 9-bit sum of the two registers in `VF` (carry) and `Vx` (low byte).
pub proof fn law_add_with_carry(s: CpuState, grid: Seq<u8>, vx: u8, vy: u8, rnd: u8)
    requires
        state_shape(s),
        runnable(s, Instruction::AddReg { vx, vy }),
        vx != FLAG,
    ensures
        ({
            let r = step(s, grid, Instruction::AddReg { vx, vy }, rnd).0.registers;
            r[15] * 256 + r[vx as int] == s.registers[vx as int] + s.registers[vy as int]
        }),
{
    reveal(step);
    reveal(runnable);
}

/// `SubReg` leaves `Vx - Vy` modulo 256 in `Vx` and sets `VF` to 1 exactly when no borrow
/// was needed (`Vx >= Vy`).
pub proof fn law_subtract_with_borrow(s: CpuState, grid: Seq<u8>, vx: u8, vy: u8, rnd: u8)
    requires
        state_shape(s),
        runnable(s, Instruction::SubReg { vx, vy }),
        vx != FLAG,
    ensures
        ({
            let r = step(s, grid, Instruction::SubReg { vx, vy }, rnd).0.registers;
            &&& r[vx as int] == s.registers[vx as int] - s.registers[vy as int] + 256 * (1
                - r[15])
            &&& (r[15] == 1 <==> s.registers[vx as int] >= s.registers[vy as int])
        }),
{
    reveal(step);
    reveal(runnable);
}

/// `BCD` writes three decimal digits at `I` whose value is `Vx`.
pub proof fn law_bcd_digits(s: CpuState, grid: Seq<u8>, vx: u8, rnd: u8)
    requires
        state_shape(s),
        runnable(s, Instruction::BCD { vx }),
    ensures
        ({
            let m = step(s, grid, Instruction::BCD { vx }, rnd).0.mem;
            let i = s.index as int;
            &&& m[i] < 10 && m[i + 1] < 10 && m[i + 2] < 10
            &&& m[i] * 100 + m[i + 1] * 10 + m[i + 2] == s.registers[vx as int]
        }),
{
    reveal(step);
    reveal(runnable);
}

/// Storing `V0..=Vx` with `StoreMem`, pointing `I` back at them, and loading them with
/// `FillReg` gives back the registers, with `I` past the stored bytes.
pub proof fn law_store_then_fill(s: CpuState, grid: Seq<u8>, vx: u8, rnd: u8)
    requires
        state_shape(s),
        runnable(s, Instruction::StoreMem { vx }),
    ensures
        ({
            let (s1, g1) = step(s, grid, Instruction::StoreMem { vx }, rnd);
            let (s2, g2) = step(s1, g1, Instruction::SetI(s.index), rnd);
            let (s3, g3) = step(s2, g2, Instruction::FillReg { vx }, rnd);
            &&& runnable(s1, Instruction::SetI(s.index))
            &&& runnable(s2, Instruction::FillReg { vx })
            &&& s3.registers == s.registers
            &&& s3.index == s1.index
            &&& s3.mem == s1.mem
        }),
{
    reveal(step);
    reveal(runnable);
    let (s1, g1) = step(s, grid, Instruction::StoreMem { vx }, rnd);
    let (s2, g2) = step(s1, g1, Instruction::SetI(s.index), rnd);
    let (s3, g3) = step(s2, g2, Instruction::FillReg { vx }, rnd);
    assert(s3.registers =~= s.registers);
}

/// `SetIR` points `I` at the font sprite of digit `Vx`: once the font is at `FONT_START`,
/// the five bytes at `I` are those of the digit.
pub proof fn law_font_sprite_address(s: CpuState, grid: Seq<u8>, font: Seq<u8>, vx: u8, rnd: u8)
    requires
        state_shape(s),
        font.len() == 80,
        s.mem.subrange(0x50, 0xA0) == font,
        runnable(s, Instruction::SetIR { vx }),
        s.registers[vx as int] < 16,
    ensures
        ({
            let s1 = step(s, grid, Instruction::SetIR { vx }, rnd).0;
            let d = s.registers[vx as int] as int;
            s1.mem.subrange(s1.index as int, s1.index + 5) == font.subrange(5 * d, 5 * d + 5)
        }),
{
    reveal(step);
    reveal(runnable);
    let s1 = step(s, grid, Instruction::SetIR { vx }, rnd).0;
    let d = s.registers[vx as int] as int;
    assert forall|j: int| 0 <= j < 5 implies #[trigger] s1.mem.subrange(s1.index as int, s1.index + 5)[j]
        == font.subrange(5 * d, 5 * d + 5)[j] by {
        assert(s.mem.subrange(0x50, 0xA0)[5 * d + j] == s.mem[0x50 + 5 * d + j]);
    }
    assert(s1.mem.subrange(s1.index as int, s1.index + 5) =~= font.subrange(5 * d, 5 * d + 5));
}

/// A register written by `RandMask` has no bit set outside its mask.
pub proof fn law_random_stays_in_mask(s: CpuState, grid: Seq<u8>, vx: u8, val: u8, rnd: u8)
    requires
        state_shape(s),
        runnable(s, Instruction::RandMask { vx, val }),
    ensures
        step(s, grid, Instruction::RandMask { vx, val }, rnd).0.registers[vx as int] & !val == 0,
{
    reveal(step);
    reveal(runnable);
    assert((rnd & val) & !val == 0) by (bit_vector);
}

/// XORing the same value into the same pixel twice leaves the screen as it was.
pub proof fn law_set_pixel_twice_restores(grid: Seq<u8>, x: int, y: int, value: u8)
    requires
        grid.len() == SCREEN_PIXELS,
    ensures
        grid_set_pixel(grid_set_pixel(grid, x, y, value), x, y, value) == grid,
{
    let p = pixel_index(x, y);
    if 0 <= x < 64 && 0 <= y < 32 {
        let v = grid[p];
        assert((v ^ value) ^ value == v) by (bit_vector);
        assert(grid_set_pixel(grid_set_pixel(grid, x, y, value), x, y, value) =~= grid);
    }
}

/// The timer value after `n` ticks from `t`.
pub open spec fn ticked_times(t: u8, n: nat) -> u8
    decreases n,
{
    if n == 0 {
        t
    } else {
        ticked(ticked_times(t, (n - 1) as nat))
    }
}

/// A timer loaded with `t` counts down one per tick and then stays at zero: after `n` ticks
/// it reads `t - n`, or zero once `n >= t`.
pub proof fn law_timer_counts_down_to_zero(t: u8, n: nat)
    ensures
        ticked_times(t, n) == if n >= t {
            0
        } else {
            t - n
        },
    decreases n,
{
    if n > 0 {
        law_timer_counts_down_to_zero(t, (n - 1) as nat);
    }
}

/// A program loaded into a fresh processor is where execution starts: the first opcode
/// fetched is made of the first two bytes of the program.
pub proof fn law_program_runs_from_its_first_byte(data: Seq<u8>)
    requires
        2 <= data.len() <= MAX_PROGRAM_BYTES,
    ensures
        ({
            let s0 = initial_state();
            let s = CpuState { mem: mem_write(s0.mem, 0x200, data, data.len() as int), ..s0 };
            s.pc + 1 < MEMORY_SIZE && fetch(s) == data[0] * 256 + data[1]
        }),
{
}

/// While the processor waits for a key and none is pressed, a frame changes nothing.
pub proof fn law_waiting_without_key_changes_nothing(s: CpuState, grid: Seq<u8>, rnds: Seq<u8>, n: nat)
    requires
        s.wait_for_key is Some,
        first_pressed(s.keys, 0) is None,
        n > 0,
    ensures
        run_steps(s, grid, rnds, n) == (s, grid, None::<crate::frame::CpuFault>),
{
    reveal(frame_step);
}

/// When a key is pressed while waiting, the first pressed key goes to the waiting register,
/// the wait ends and the program counter moves on to the next instruction; the frame ends
/// there.
pub proof fn law_pressed_key_ends_wait(s: CpuState, grid: Seq<u8>, rnd: u8)
    requires
        s.wait_for_key matches Some(vx) && vx < 16,
        first_pressed(s.keys, 0) is Some,
        s.pc + 2 <= u16::MAX,
    ensures
        frame_step(s, grid, rnd) == StepOutcome::Waiting(
            with_reg(
                CpuState { wait_for_key: None, pc: (s.pc + 2) as u16, ..s },
                s.wait_for_key.unwrap(),
                first_pressed(s.keys, 0).unwrap(),
            ),
            grid,
        ),
{
    reveal(frame_step);
}

/// `WaitK` blocks until a key is pressed, then execution goes on after it: running it leaves
/// the program counter on the `WaitK` and the processor waiting; once a key is pressed, the
/// key goes to `Vx` and the program counter moves to the instruction after the `WaitK`.
pub proof fn law_wait_key_resumes_after_key(
    s: CpuState,
    grid: Seq<u8>,
    rnd: u8,
    vx: u8,
    keys: Seq<u8>,
)
    requires
        s.wait_for_key is None,
        s.pc + 1 < MEMORY_SIZE,
        spec_decode(fetch(s)) == (Instruction::WaitK { vx }),
        vx < 16,
        first_pressed(keys, 0) is Some,
    ensures
        frame_step(s, grid, rnd) matches StepOutcome::Ran(s2, g2) && {
            &&& s2.pc == s.pc
            &&& s2.wait_for_key == Some(vx)
            &&& g2 == grid
            &&& frame_step(CpuState { keys, ..s2 }, g2, rnd) == StepOutcome::Waiting(
                with_reg(
                    CpuState { keys, wait_for_key: None, pc: (s.pc + 2) as u16, ..s2 },
                    vx,
                    first_pressed(keys, 0).unwrap(),
                ),
                grid,
            )
        },
{
    reveal(frame_step);
    reveal(step);
    reveal(runnable);
}

/// Only `RandMask` depends on the random byte: every other instruction does the same
/// whatever byte is drawn.
pub proof fn law_only_rand_mask_is_random(s: CpuState, grid: Seq<u8>, instr: Instruction, rnd1: u8, rnd2: u8)
    requires
        !(instr is RandMask),
    ensures
        step(s, grid, instr, rnd1) == step(s, grid, instr, rnd2),
{
    reveal(step);
}

/// State and screen after `n` plain fetch-decode-execute steps with the random bytes
/// `rnds`; `None` when one of them cannot be fetched, cannot run, or is a `WaitK`.
pub open spec fn plain_steps(s: CpuState, grid: Seq<u8>, rnds: Seq<u8>, n: nat) -> Option<
    (CpuState, Seq<u8>),
>
    decreases n,
{
    if n == 0 {
        Some((s, grid))
    } else if s.pc + 1 < MEMORY_SIZE {
        let instr = spec_decode(fetch(s));
        let s1 = with_pc(s, s.pc + 2);
        if runnable(s1, instr) && !(instr is WaitK) {
            let (s2, g2) = step(s1, grid, instr, rnds[0]);
            plain_steps(s2, g2, rnds.drop_first(), (n - 1) as nat)
        } else {
            None
        }
    } else {
        None
    }
}

/// When the processor is not waiting for a key and the next `n` instructions run without a
/// fault and without a `WaitK`, the frame loop runs exactly those `n` instructions, one
/// fetch-decode-execute step each (seven per frame in `run_frame`).
pub proof fn law_frame_runs_its_instructions(s: CpuState, grid: Seq<u8>, rnds: Seq<u8>, n: nat)
    requires
        s.wait_for_key is None,
        plain_steps(s, grid, rnds, n) is Some,
    ensures
        run_steps(s, grid, rnds, n) == (
            plain_steps(s, grid, rnds, n).unwrap().0,
            plain_steps(s, grid, rnds, n).unwrap().1,
            None::<crate::frame::CpuFault>,
        ),
    decreases n,
{
    if n > 0 {
        reveal(frame_step);
        reveal(step);
        let instr = spec_decode(fetch(s));
        let s1 = with_pc(s, s.pc + 2);
        let (s2, g2) = step(s1, grid, instr, rnds[0]);
        assert(s2.wait_for_key is None);
        assert(frame_step(s, grid, rnds[0]) == StepOutcome::Ran(s2, g2));
        law_frame_runs_its_instructions(s2, g2, rnds.drop_first(), (n - 1) as nat);
    }
}

/// `DXYN` with at most 32 rows toggles exactly the screen pixels that its lit sprite pixels
/// land on: pixel `p` changes (XOR 1) when sprite pixel `k` (row `k / 8`, column `k % 8`) is
/// lit and lands on `p`, wrapping around the edges, and stays as it was otherwise. Only `VF`
/// of the processor changes.
pub proof fn law_display_toggles_covered_pixels(
    s: CpuState,
    grid: Seq<u8>,
    vx: u8,
    vy: u8,
    val: u8,
    rnd: u8,
)
    requires
        state_shape(s),
        grid.len() == SCREEN_PIXELS,
        runnable(s, Instruction::Display { vx, vy, val }),
        val <= 32,
    ensures
        ({
            let (s2, g2) = step(s, grid, Instruction::Display { vx, vy, val }, rnd);
            let sx = (s.registers[vx as int] % 64) as int;
            let sy = (s.registers[vy as int] % 32) as int;
            let sprite = s.mem.subrange(s.index as int, s.index + val);
            &&& g2.len() == SCREEN_PIXELS
            &&& forall|k: int|
                0 <= k < val * 8 && sprite_pixel_lit(sprite, k) ==> #[trigger] g2[sprite_pixel_pos(sx, sy, k)]
                    == grid[sprite_pixel_pos(sx, sy, k)] ^ 1u8
            &&& forall|p: int|
                0 <= p < SCREEN_PIXELS && (forall|k: int|
                    0 <= k < val * 8 && sprite_pixel_lit(sprite, k) ==> sprite_pixel_pos(sx, sy, k)
                        != p) ==> #[trigger] g2[p] == grid[p]
            &&& s2 == with_reg(s, FLAG, s2.registers[FLAG as int])
        }),
{
    reveal(step);
    reveal(runnable);
    let d = Instruction::Display { vx, vy, val };
    let (s2, g2) = step(s, grid, d, rnd);
    let sx = (s.registers[vx as int] % 64) as int;
    let sy = (s.registers[vy as int] % 32) as int;
    let sprite = s.mem.subrange(s.index as int, s.index + val);
    let n = (val * 8) as nat;
    lemma_draw_toggles(grid, sx, sy, sprite, n);
    assert forall|k: int| 0 <= k < val * 8 && sprite_pixel_lit(sprite, k) implies #[trigger] g2[
        sprite_pixel_pos(sx, sy, k)
    ] == grid[sprite_pixel_pos(sx, sy, k)] ^ 1u8 by {
        lemma_hits_of_own_pixel(sx, sy, sprite, k, n);
        let p = sprite_pixel_pos(sx, sy, k);
        assert(0 <= p < SCREEN_PIXELS);
    }
    assert forall|p: int|
        0 <= p < SCREEN_PIXELS && (forall|k: int|
            0 <= k < val * 8 && sprite_pixel_lit(sprite, k) ==> sprite_pixel_pos(sx, sy, k) != p)
        implies #[trigger] g2[p] == grid[p] by {
        lemma_no_hits(sx, sy, sprite, n, p);
    }
    assert(s2.registers =~= s.registers.update(FLAG as int, s2.registers[FLAG as int]));
}

/// A screen pixel that no lit sprite pixel lands on is hit zero times.
proof fn lemma_no_hits(sx: int, sy: int, sprite: Seq<u8>, n: nat, p: int)
    requires
        forall|k: int| 0 <= k < n && sprite_pixel_lit(sprite, k) ==> sprite_pixel_pos(sx, sy, k) != p,
    ensures
        hits(sx, sy, sprite, n, p) == 0,
    decreases n,
{
    if n > 0 {
        lemma_no_hits(sx, sy, sprite, (n - 1) as nat, p);
        let k = n - 1;
        lemma_lit_is_sprite_bit(sprite, k);
        assert(sprite_pixel_lit(sprite, k) ==> sprite_pixel_pos(sx, sy, k) != p);
        assert(sprite_pixel_pos(sx, sy, n - 1) == pixel_index((sx + (n - 1) % 8) % 64, (sy + (n - 1) / 8) % 32));
    }
}

} // verus!
