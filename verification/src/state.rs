//! The mathematical model of the machine: a ghost state, one transition
//! function per opcode, and the step function that every cycle follows.

use vstd::prelude::*;

use crate::memory::FONT_BEGIN_INDEX;
use crate::memory::FONT_SET;
use crate::memory::MEMORY_SIZE;
use crate::memory::ROM_BEGIN_INDEX;

verus! {

/// Framebuffer width in pixels.
pub const SCREEN_WIDTH: usize = 64;

/// Framebuffer height in pixels.
pub const SCREEN_HEIGHT: usize = 32;

/// Number of framebuffer pixels.
pub const GFX_SIZE: usize = 2048;

/// Deepest call nesting the machine accepts.
pub const STACK_LIMIT: usize = 16;

/// The two historical dialects whose opcode semantics differ.
#[derive(Clone, Copy, PartialEq, Eq, Structural, Debug)]
pub enum Compatibility {
    Original,
    New,
}

/// The errors a cycle can surface to the host.
#[derive(Clone, Copy, PartialEq, Eq, Structural, Debug)]
pub enum EmuError {
    /// The raw 16-bit instruction had no handler; the program counter has
    /// already moved past it.
    UnknownOpcode(u16),
    /// A return was executed with an empty call stack.
    StackUnderflow,
    /// A call was executed with the call stack at capacity.
    StackOverflow,
}

/// The whole machine state, as mathematics: sequences for memory, the
/// register file, the call stack and the framebuffer.
#[verifier::ext_equal]
pub ghost struct State {
    pub pc: u16,
    pub i: u16,
    pub stack: Seq<u16>,
    pub delay_timer: u8,
    pub sound_timer: u8,
    pub v: Seq<u8>,
    pub compatibility: Compatibility,
    pub mem: Seq<u8>,
    pub gfx: Seq<u8>,
}

impl State {
    /// Shape of a valid machine: 16 registers, full memory, full
    /// framebuffer with every pixel 0 or 1, bounded stack.
    pub open spec fn wf(self) -> bool {
        &&& self.v.len() == 16
        &&& self.mem.len() == MEMORY_SIZE
        &&& self.gfx.len() == GFX_SIZE
        &&& forall|p: int| 0 <= p < GFX_SIZE ==> self.gfx[p] == 0 || self.gfx[p] == 1
        &&& self.stack.len() <= STACK_LIMIT
    }
}

/// Memory contents right after construction: all zero but the font table.
pub open spec fn init_mem() -> Seq<u8> {
    Seq::new(MEMORY_SIZE as nat, |j: int|
        if FONT_BEGIN_INDEX <= j < FONT_BEGIN_INDEX + 80 {
            FONT_SET@[j - FONT_BEGIN_INDEX]
        } else {
            0u8
        })
}

/// The machine as constructed: program counter at the program base,
/// everything else cleared, fonts in memory.
pub open spec fn init_state(c: Compatibility) -> State {
    State {
        pc: ROM_BEGIN_INDEX as u16,
        i: 0,
        stack: Seq::empty(),
        delay_timer: 0,
        sound_timer: 0,
        v: Seq::new(16, |j: int| 0u8),
        compatibility: c,
        mem: init_mem(),
        gfx: Seq::new(GFX_SIZE as nat, |j: int| 0u8),
    }
}

/// Addition wrapping modulo 256.
pub open spec fn wrap_add8(a: u8, b: u8) -> u8 {
    (((a as int) + (b as int)) % 256) as u8
}

/// Subtraction wrapping modulo 256.
pub open spec fn wrap_sub8(a: u8, b: u8) -> u8 {
    (((a as int) - (b as int)) % 256) as u8
}

/// Addition wrapping modulo 2^16.
pub open spec fn wrap_add16(a: u16, b: u16) -> u16 {
    (((a as int) + (b as int)) % 0x10000) as u16
}

/// A timer after `ticks` decrements, clamped at zero.
pub open spec fn dec_timer(t: u8, ticks: u64) -> u8 {
    if t > ticks {
        (t - ticks) as u8
    } else {
        0
    }
}

/// The timer update run at the end of every cycle. The timers run at
/// 60 Hz on the host's clock, independent of the instruction rate: the
/// host counts the whole 60 Hz ticks that elapsed since the last cycle
/// (carrying the fraction) and hands the count in; both timers decrement
/// that many times, stopping at zero.
pub open spec fn ticked(s: State, ticks: u64) -> State {
    State {
        delay_timer: dec_timer(s.delay_timer, ticks),
        sound_timer: dec_timer(s.sound_timer, ticks),
        ..s
    }
}

/// Skip the next instruction when `cond` holds.
pub open spec fn op_skip(s: State, cond: bool) -> State {
    if cond {
        State { pc: (s.pc + 2) as u16, ..s }
    } else {
        s
    }
}

/// 00E0: clear the framebuffer.
pub open spec fn op_00e0(s: State) -> State {
    State { gfx: Seq::new(s.gfx.len(), |p: int| 0u8), ..s }
}

/// 00EE: pop the return address into the program counter.
pub open spec fn op_00ee(s: State) -> State {
    State { pc: s.stack.last(), stack: s.stack.drop_last(), ..s }
}

/// 1NNN: jump.
pub open spec fn op_1nnn(s: State, nnn: u16) -> State {
    State { pc: nnn, ..s }
}

/// 2NNN: push the program counter, then jump.
pub open spec fn op_2nnn(s: State, nnn: u16) -> State {
    State { pc: nnn, stack: s.stack.push(s.pc), ..s }
}

/// 3XNN: skip if VX equals NN.
pub open spec fn op_3xnn(s: State, x: int, nn: u8) -> State {
    op_skip(s, s.v[x] == nn)
}

/// 4XNN: skip if VX differs from NN.
pub open spec fn op_4xnn(s: State, x: int, nn: u8) -> State {
    op_skip(s, s.v[x] != nn)
}

/// 5XY0: skip if VX equals VY.
pub open spec fn op_5xy0(s: State, x: int, y: int) -> State {
    op_skip(s, s.v[x] == s.v[y])
}

/// 9XY0: skip if VX differs from VY.
pub open spec fn op_9xy0(s: State, x: int, y: int) -> State {
    op_skip(s, s.v[x] != s.v[y])
}

/// 6XNN: VX := NN.
pub open spec fn op_6xnn(s: State, x: int, nn: u8) -> State {
    State { v: s.v.update(x, nn), ..s }
}

/// 7XNN: VX := VX + NN wrapping; the flag register is untouched.
pub open spec fn op_7xnn(s: State, x: int, nn: u8) -> State {
    State { v: s.v.update(x, wrap_add8(s.v[x], nn)), ..s }
}

/// 8XY0: VX := VY.
pub open spec fn op_8xy0(s: State, x: int, y: int) -> State {
    State { v: s.v.update(x, s.v[y]), ..s }
}

/// 8XY1: VX := VX | VY.
pub open spec fn op_8xy1(s: State, x: int, y: int) -> State {
    State { v: s.v.update(x, s.v[x] | s.v[y]), ..s }
}

/// 8XY2: VX := VX & VY.
pub open spec fn op_8xy2(s: State, x: int, y: int) -> State {
    State { v: s.v.update(x, s.v[x] & s.v[y]), ..s }
}

/// 8XY3: VX := VX ^ VY.
pub open spec fn op_8xy3(s: State, x: int, y: int) -> State {
    State { v: s.v.update(x, s.v[x] ^ s.v[y]), ..s }
}

/// 8XY4: VX := VX + VY wrapping; then VF := 1 exactly when the sum
/// exceeded 255.
pub open spec fn op_8xy4(s: State, x: int, y: int) -> State {
    let carry: u8 = if s.v[x] + s.v[y] > 255 {
        1
    } else {
        0
    };
    State { v: s.v.update(x, wrap_add8(s.v[x], s.v[y])).update(15, carry), ..s }
}

/// 8XY5: VX := VX - VY wrapping; then VF := 1 exactly when no borrow
/// occurred (VX >= VY beforehand).
pub open spec fn op_8xy5(s: State, x: int, y: int) -> State {
    let no_borrow: u8 = if s.v[x] >= s.v[y] {
        1
    } else {
        0
    };
    State { v: s.v.update(x, wrap_sub8(s.v[x], s.v[y])).update(15, no_borrow), ..s }
}

/// 8XY7: VX := VY - VX wrapping; then VF := 1 exactly when no borrow
/// occurred (VY >= VX beforehand).
pub open spec fn op_8xy7(s: State, x: int, y: int) -> State {
    let no_borrow: u8 = if s.v[y] >= s.v[x] {
        1
    } else {
        0
    };
    State { v: s.v.update(x, wrap_sub8(s.v[y], s.v[x])).update(15, no_borrow), ..s }
}

/// 8XY6: shift right once. The source is VY in the Original dialect and
/// VX itself in the New one; VX takes the shifted source, and VF then
/// takes the bit shifted out. The flag is written last, so VF ends as
/// the shifted-out bit even when it is itself the destination register.
pub open spec fn op_8xy6(s: State, x: int, y: int) -> State {
    let src = if s.compatibility is Original {
        s.v[y]
    } else {
        s.v[x]
    };
    State { v: s.v.update(x, src >> 1u8).update(15, src & 1), ..s }
}

/// 8XYE: the same dialect split as 8XY6, shifting left; VF ends as the
/// source's high bit before the shift, written last.
pub open spec fn op_8xye(s: State, x: int, y: int) -> State {
    let src = if s.compatibility is Original {
        s.v[y]
    } else {
        s.v[x]
    };
    State { v: s.v.update(x, src << 1u8).update(15, (src & 0x80) >> 7u8), ..s }
}

/// ANNN: I := NNN.
pub open spec fn op_annn(s: State, nnn: u16) -> State {
    State { i: nnn, ..s }
}

/// BNNN (Original dialect): PC := NNN + V0.
pub open spec fn op_bnnn(s: State, nnn: u16) -> State {
    State { pc: (nnn + s.v[0]) as u16, ..s }
}

/// BXNN (New dialect): PC := NNN (the full 12 bits, X included) + VX.
pub open spec fn op_bxnn(s: State, x: int, nnn: u16) -> State {
    State { pc: (nnn + s.v[x]) as u16, ..s }
}

/// CXNN: VX := random byte AND NN; `rnd` is whatever byte the generator
/// produced.
pub open spec fn op_cxnn(s: State, x: int, nn: u8, rnd: u8) -> State {
    State { v: s.v.update(x, rnd & nn), ..s }
}

/// EX9E: skip if key VX is currently held.
pub open spec fn op_ex9e(s: State, x: int, key: Option<u8>) -> State {
    op_skip(s, key == Some(s.v[x]))
}

/// EXA1: skip if key VX is not currently held.
pub open spec fn op_exa1(s: State, x: int, key: Option<u8>) -> State {
    op_skip(s, key != Some(s.v[x]))
}

/// FX07: VX := delay timer.
pub open spec fn op_fx07(s: State, x: int) -> State {
    State { v: s.v.update(x, s.delay_timer), ..s }
}

/// FX0A: with no key held, rewind the program counter by 2 so the same
/// instruction refetches next cycle; else VX := the held key.
pub open spec fn op_fx0a(s: State, x: int, key: Option<u8>) -> State {
    match key {
        None => State { pc: (s.pc - 2) as u16, ..s },
        Some(k) => State { v: s.v.update(x, k), ..s },
    }
}

/// FX15: delay timer := VX.
pub open spec fn op_fx15(s: State, x: int) -> State {
    State { delay_timer: s.v[x], ..s }
}

/// FX18: sound timer := VX.
pub open spec fn op_fx18(s: State, x: int) -> State {
    State { sound_timer: s.v[x], ..s }
}

/// FX1E: I := I + VX wrapping at 16 bits; VF := 1 exactly when the sum
/// leaves the 12-bit address range.
pub open spec fn op_fx1e(s: State, x: int) -> State {
    let flag: u8 = if s.i + s.v[x] > 0xFFF {
        1
    } else {
        0
    };
    State { i: wrap_add16(s.i, s.v[x] as u16), v: s.v.update(15, flag), ..s }
}

/// FX29: I := the font-table address of the sprite for VX's low nibble.
pub open spec fn op_fx29(s: State, x: int) -> State {
    State { i: (FONT_BEGIN_INDEX + (s.v[x] & 0xF) * 5) as u16, ..s }
}

/// FX33: the decimal digits of VX go to memory at I, I+1, I+2.
pub open spec fn op_fx33(s: State, x: int) -> State {
    let value = s.v[x];
    State {
        mem: s.mem
            .update(s.i as int, (value / 100) as u8)
            .update(s.i + 1, ((value / 10) % 10) as u8)
            .update(s.i + 2, (value % 10) as u8),
        ..s
    }
}

/// Memory after the first `cnt` registers are stored at base address `i`.
pub open spec fn store_seq(mem: Seq<u8>, v: Seq<u8>, i: int, cnt: int) -> Seq<u8>
    decreases cnt,
{
    if cnt <= 0 {
        mem
    } else {
        store_seq(mem, v, i, cnt - 1).update(i + cnt - 1, v[cnt - 1])
    }
}

/// Registers after the first `cnt` are loaded from base address `i`.
pub open spec fn load_seq(v: Seq<u8>, mem: Seq<u8>, i: int, cnt: int) -> Seq<u8>
    decreases cnt,
{
    if cnt <= 0 {
        v
    } else {
        load_seq(v, mem, i, cnt - 1).update(cnt - 1, mem[i + cnt - 1])
    }
}

/// I after a register store or load: the Original dialect advances it by
/// X+1 as a side effect, the New dialect leaves it alone.
pub open spec fn index_after_regs(s: State, x: int) -> u16 {
    if s.compatibility is Original {
        (s.i + x + 1) as u16
    } else {
        s.i
    }
}

/// FX55: store V0..VX to memory starting at I.
pub open spec fn op_fx55(s: State, x: int) -> State {
    State { mem: store_seq(s.mem, s.v, s.i as int, x + 1), i: index_after_regs(s, x), ..s }
}

/// FX65: load V0..VX from memory starting at I.
pub open spec fn op_fx65(s: State, x: int) -> State {
    State { v: load_seq(s.v, s.mem, s.i as int, x + 1), i: index_after_regs(s, x), ..s }
}

/// The bit of a sprite byte shown at column `col` (bit 7 first).
pub open spec fn sprite_row_bit(b: u8, col: int) -> u8 {
    (b >> ((7 - col) as u8)) & 1
}

/// One pixel of a draw: XOR the sprite bit in, note a lit-to-unlit
/// transition; indices outside the framebuffer are dropped.
pub open spec fn draw_cell(gfx: Seq<u8>, flag: bool, sb: u8, idx: int) -> (Seq<u8>, bool) {
    if 0 <= idx < GFX_SIZE {
        (gfx.update(idx, gfx[idx] ^ sb), flag || (gfx[idx] == 1 && (gfx[idx] ^ sb) == 0))
    } else {
        (gfx, flag)
    }
}

/// The first `ncols` pixels of one sprite row, applied left to right.
pub open spec fn draw_cells(
    gfx: Seq<u8>,
    flag: bool,
    sprite: u8,
    sy: int,
    sx: int,
    row: int,
    ncols: int,
) -> (Seq<u8>, bool)
    decreases ncols,
{
    if ncols <= 0 {
        (gfx, flag)
    } else {
        let col = ncols - 1;
        let prev = draw_cells(gfx, flag, sprite, sy, sx, row, col);
        draw_cell(prev.0, prev.1, sprite_row_bit(sprite, col), (sy + row) * 64 + sx + col)
    }
}

/// The first `nrows` sprite rows, applied top to bottom; row `r` comes
/// from memory at I + r.
pub open spec fn draw_rows(
    gfx: Seq<u8>,
    flag: bool,
    mem: Seq<u8>,
    i: int,
    sy: int,
    sx: int,
    nrows: int,
) -> (Seq<u8>, bool)
    decreases nrows,
{
    if nrows <= 0 {
        (gfx, flag)
    } else {
        let prev = draw_rows(gfx, flag, mem, i, sy, sx, nrows - 1);
        draw_cells(prev.0, prev.1, mem[i + nrows - 1], sy, sx, nrows - 1, 8)
    }
}

/// Position of pixel `p` relative to the sprite's top-left corner, as a
/// flat offset: row times 64 plus column.
pub open spec fn sprite_offset(sy: int, sx: int, p: int) -> int {
    p - (sy * 64 + sx)
}

/// Whether pixel `p` is touched by an `n`-row sprite drawn at (`sx`,
/// `sy`): it lies in the framebuffer, on one of the drawn rows, within
/// the eight drawn columns.
pub open spec fn sprite_hits(sy: int, sx: int, n: int, p: int) -> bool {
    let d = sprite_offset(sy, sx, p);
    &&& 0 <= p < GFX_SIZE
    &&& 0 <= d
    &&& d / 64 < n
    &&& d % 64 < 8
}

/// The sprite bit XORed onto pixel `p` by a draw from memory address `i`.
pub open spec fn sprite_bit_at(mem: Seq<u8>, i: int, sy: int, sx: int, p: int) -> u8 {
    let d = sprite_offset(sy, sx, p);
    sprite_row_bit(mem[i + d / 64], d % 64)
}

/// DXYN: draw the N-row sprite at memory address I to the framebuffer at
/// (VX mod 64, VY mod 64); VF := 1 exactly when a pixel went out.
/// Pixels that would land past the framebuffer's last row are dropped.
pub open spec fn op_dxyn(s: State, x: int, y: int, n: int) -> State {
    let sx = (s.v[x] % 64) as int;
    let sy = (s.v[y] % 64) as int;
    let drawn = draw_rows(s.gfx, false, s.mem, s.i as int, sy, sx, n);
    State {
        gfx: drawn.0,
        v: s.v.update(15, if drawn.1 {
            1u8
        } else {
            0u8
        }),
        ..s
    }
}

/// The instruction's opcode family: its top four bits.
pub open spec fn decode_family(instruction: u16) -> u16 {
    (instruction & 0xF000) >> 12u16
}

/// The instruction's low twelve bits.
pub open spec fn decode_rest(instruction: u16) -> u16 {
    instruction & 0x0FFF
}

/// The raw instruction reassembled from its decoded halves.
pub open spec fn recompose(first: u16, rest: u16) -> u16 {
    (first << 12u16) | rest
}

/// What one dispatch does to the machine, given the decoded instruction,
/// the byte `rnd` the random generator produced, and the held key. Errors
/// leave the state alone.
pub open spec fn step(s: State, first: u16, rest: u16, rnd: u8, key: Option<u8>) -> Result<
    State,
    EmuError,
> {
    let x = ((rest >> 8u16) & 0xF) as int;
    let y = ((rest >> 4u16) & 0xF) as int;
    let n = (rest & 0xF) as int;
    let nn = (rest & 0xFF) as u8;
    let nnn = rest;
    if first == 0x0 {
        if rest == 0x0E0 {
            Ok(op_00e0(s))
        } else if rest == 0x0EE {
            if s.stack.len() == 0 {
                Err(EmuError::StackUnderflow)
            } else {
                Ok(op_00ee(s))
            }
        } else {
            Err(EmuError::UnknownOpcode(recompose(first, rest)))
        }
    } else if first == 0x1 {
        Ok(op_1nnn(s, nnn))
    } else if first == 0x2 {
        if s.stack.len() >= STACK_LIMIT {
            Err(EmuError::StackOverflow)
        } else {
            Ok(op_2nnn(s, nnn))
        }
    } else if first == 0x3 {
        Ok(op_3xnn(s, x, nn))
    } else if first == 0x4 {
        Ok(op_4xnn(s, x, nn))
    } else if first == 0x5 {
        Ok(op_5xy0(s, x, y))
    } else if first == 0x6 {
        Ok(op_6xnn(s, x, nn))
    } else if first == 0x7 {
        Ok(op_7xnn(s, x, nn))
    } else if first == 0x8 {
        let sel = rest & 0xF;
        if sel == 0x0 {
            Ok(op_8xy0(s, x, y))
        } else if sel == 0x1 {
            Ok(op_8xy1(s, x, y))
        } else if sel == 0x2 {
            Ok(op_8xy2(s, x, y))
        } else if sel == 0x3 {
            Ok(op_8xy3(s, x, y))
        } else if sel == 0x4 {
            Ok(op_8xy4(s, x, y))
        } else if sel == 0x5 {
            Ok(op_8xy5(s, x, y))
        } else if sel == 0x6 {
            Ok(op_8xy6(s, x, y))
        } else if sel == 0x7 {
            Ok(op_8xy7(s, x, y))
        } else if sel == 0xE {
            Ok(op_8xye(s, x, y))
        } else {
            Err(EmuError::UnknownOpcode(recompose(first, rest)))
        }
    } else if first == 0x9 {
        Ok(op_9xy0(s, x, y))
    } else if first == 0xA {
        Ok(op_annn(s, nnn))
    } else if first == 0xB {
        if s.compatibility is Original {
            Ok(op_bnnn(s, nnn))
        } else {
            Ok(op_bxnn(s, x, nnn))
        }
    } else if first == 0xC {
        Ok(op_cxnn(s, x, nn, rnd))
    } else if first == 0xD {
        Ok(op_dxyn(s, x, y, n))
    } else if first == 0xE {
        let sel = rest & 0xFF;
        if sel == 0x9E {
            Ok(op_ex9e(s, x, key))
        } else if sel == 0xA1 {
            Ok(op_exa1(s, x, key))
        } else {
            Err(EmuError::UnknownOpcode(recompose(first, rest)))
        }
    } else if first == 0xF {
        let sel = rest & 0xFF;
        if sel == 0x07 {
            Ok(op_fx07(s, x))
        } else if sel == 0x0A {
            Ok(op_fx0a(s, x, key))
        } else if sel == 0x15 {
            Ok(op_fx15(s, x))
        } else if sel == 0x18 {
            Ok(op_fx18(s, x))
        } else if sel == 0x1E {
            Ok(op_fx1e(s, x))
        } else if sel == 0x29 {
            Ok(op_fx29(s, x))
        } else if sel == 0x33 {
            Ok(op_fx33(s, x))
        } else if sel == 0x55 {
            Ok(op_fx55(s, x))
        } else if sel == 0x65 {
            Ok(op_fx65(s, x))
        } else {
            Err(EmuError::UnknownOpcode(recompose(first, rest)))
        }
    } else {
        Err(EmuError::UnknownOpcode(recompose(first, rest)))
    }
}

/// Whether a dispatch from `pre` ended in `post` with result `r`, as
/// [`step`] dictates for the generator byte `rnd` and held key `key`: a
/// reported error leaves the state alone.
pub open spec fn step_matches(
    pre: State,
    post: State,
    r: Result<(), EmuError>,
    first: u16,
    rest: u16,
    rnd: u8,
    key: Option<u8>,
) -> bool {
    match step(pre, first, rest, rnd, key) {
        Ok(s2) => r == Ok::<(), EmuError>(()) && post == s2,
        Err(e) => r == Err::<(), EmuError>(e) && post == pre,
    }
}

/// What the dispatcher may assume of the machine: every memory or counter
/// access the decoded instruction makes stays in range. The processor is
/// responsible for this; the host checks it before driving a cycle.
pub open spec fn execute_pre(s: State, first: u16, rest: u16) -> bool {
    let x = ((rest >> 8u16) & 0xF) as int;
    let n = (rest & 0xF) as int;
    let sel = rest & 0xFF;
    &&& (first == 0x3 || first == 0x4 || first == 0x5 || first == 0x9 || first == 0xE) ==> s.pc + 2
        <= u16::MAX
    &&& first == 0xD ==> s.i + n <= MEMORY_SIZE
    &&& (first == 0xF && sel == 0x0A) ==> s.pc >= 2
    &&& (first == 0xF && sel == 0x33) ==> s.i + 3 <= MEMORY_SIZE
    &&& (first == 0xF && (sel == 0x55 || sel == 0x65)) ==> s.i + x + 1 <= MEMORY_SIZE
}

/// The instruction fetched at the program counter, big-endian.
pub open spec fn fetched(s: State) -> u16 {
    ((s.mem[s.pc as int] as u16) << 8u16) | (s.mem[s.pc + 1] as u16)
}

/// The state right after a fetch: the program counter has moved past the
/// instruction.
pub open spec fn advanced(s: State) -> State {
    State { pc: (s.pc + 2) as u16, ..s }
}

/// What the host may assume before driving one cycle: the fetch stays in
/// memory and the fetched instruction meets the dispatcher's bounds.
pub open spec fn cycle_pre(s: State) -> bool {
    &&& s.pc + 2 <= MEMORY_SIZE
    &&& execute_pre(advanced(s), decode_family(fetched(s)), decode_rest(fetched(s)))
}

/// One whole cycle: fetch, advance, dispatch, then apply the `ticks`
/// whole 60 Hz timer ticks the host reports as elapsed. An unknown
/// opcode or a stack fault is reported while the advanced counter and the
/// timers keep their new values.
pub open spec fn cycle_spec(s: State, rnd: u8, key: Option<u8>, ticks: u64) -> (
    State,
    Option<EmuError>,
) {
    let ins = fetched(s);
    match step(advanced(s), decode_family(ins), decode_rest(ins), rnd, key) {
        Ok(s2) => (ticked(s2, ticks), None),
        Err(e) => (ticked(advanced(s), ticks), Some(e)),
    }
}

/// The result a cycle hands back for a given reported fault.
pub open spec fn cycle_result(e: Option<EmuError>) -> Result<(), EmuError> {
    match e {
        None => Ok(()),
        Some(err) => Err(err),
    }
}

} // verus!
