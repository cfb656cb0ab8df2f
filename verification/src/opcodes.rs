//! One handler per opcode. Each `execute` carries the exact bit-level
//! contract of its instruction over the ghost machine state.

use vstd::prelude::*;

use crate::keypad::Keypad;
use crate::memory::FONT_BEGIN_INDEX;
use crate::memory::MEMORY_SIZE;
use crate::processor::Processor;
use crate::state::{
    op_00e0, op_00ee, op_1nnn, op_2nnn, op_3xnn, op_4xnn, op_5xy0, op_6xnn, op_7xnn, op_8xy0,
    op_8xy1, op_8xy2, op_8xy3, op_8xy4, op_8xy5, op_8xy6, op_8xy7, op_8xye, op_9xy0, op_annn,
    op_bnnn, op_bxnn, op_cxnn, op_dxyn, op_ex9e, op_exa1, op_fx07, op_fx0a, op_fx15, op_fx18,
    op_fx1e, op_fx29, op_fx33, op_fx55, op_fx65, store_seq, load_seq, draw_rows, draw_cells,
    sprite_row_bit, Compatibility, State, GFX_SIZE, STACK_LIMIT,
};

verus! {

pub struct OpCode00E0 {}

pub struct OpCode00EE {}

pub struct OpCode1NNN {}

pub struct OpCode2NNN {}

pub struct OpCode3XNN {}

pub struct OpCode4XNN {}

pub struct OpCode5XY0 {}

pub struct OpCode6XNN {}

pub struct OpCode7XNN {}

pub struct OpCode8XY0 {}

pub struct OpCode8XY1 {}

pub struct OpCode8XY2 {}

pub struct OpCode8XY3 {}

pub struct OpCode8XY4 {}

pub struct OpCode8XY5 {}

pub struct OpCode8XY6 {}

pub struct OpCode8XY7 {}

pub struct OpCode8XYE {}

pub struct OpCode9XY0 {}

pub struct OpCodeANNN {}

pub struct OpCodeBNNN {}

pub struct OpCodeBXNN {}

pub struct OpCodeCXNN {}

pub struct OpCodeDXYN {}

pub struct OpCodeEX9E {}

pub struct OpCodeEXA1 {}

pub struct OpCodeFX07 {}

pub struct OpCodeFX0A {}

pub struct OpCodeFX15 {}

pub struct OpCodeFX18 {}

pub struct OpCodeFX29 {}

pub struct OpCodeFX33 {}

pub struct OpCodeFX1E {}

pub struct OpCodeFX55 {}

pub struct OpCodeFX65 {}

/// Relies on rand::random: a byte from the thread-local generator;
/// nothing is assumed of its value.
pub assume_specification<T>[ rand::random::<T> ]() -> (r: T)
    where
        rand::distributions::Standard: rand::distributions::Distribution<T>,
;

impl OpCode00E0 {
    /// Clears the framebuffer.
    pub fn execute(processor: &mut Processor)
        requires
            old(processor)@.wf(),
        ensures
            final(processor)@ == op_00e0(old(processor)@),
            final(processor)@.wf(),
    {
        let mut k: usize = 0;
        while k < GFX_SIZE
            invariant
                k <= GFX_SIZE,
                processor.gfx@.len() == GFX_SIZE,
                forall|p: int| 0 <= p < k ==> processor.gfx@[p] == 0u8,
                processor@ == (State { gfx: processor.gfx@, ..old(processor)@ }),
            decreases GFX_SIZE - k,
        {
            processor.gfx.set(k, 0);
            k = k + 1;
        }
        proof {
            assert(processor.gfx@ =~= Seq::new(old(processor)@.gfx.len(), |p: int| 0u8));
        }
    }
}

impl OpCode00EE {
    /// Pops the return address into the program counter.
    pub fn execute(processor: &mut Processor)
        requires
            old(processor)@.wf(),
            old(processor)@.stack.len() > 0,
        ensures
            final(processor)@ == op_00ee(old(processor)@),
            final(processor)@.wf(),
    {
        let return_address = processor.stack.pop().unwrap();
        processor.pc = return_address;
    }
}

impl OpCode1NNN {
    /// Jumps to NNN.
    pub fn execute(processor: &mut Processor, nnn: u16)
        requires
            old(processor)@.wf(),
        ensures
            final(processor)@ == op_1nnn(old(processor)@, nnn),
            final(processor)@.wf(),
    {
        processor.pc = nnn;
    }
}

impl OpCode2NNN {
    /// Pushes the program counter and jumps to NNN.
    pub fn execute(processor: &mut Processor, nnn: u16)
        requires
            old(processor)@.wf(),
            old(processor)@.stack.len() < STACK_LIMIT,
        ensures
            final(processor)@ == op_2nnn(old(processor)@, nnn),
            final(processor)@.wf(),
    {
        let pc = processor.pc;
        processor.stack.push(pc);
        processor.pc = nnn;
    }
}

impl OpCode3XNN {
    /// Skips the next instruction if VX equals NN.
    pub fn execute(processor: &mut Processor, x: u16, nn: u16)
        requires
            old(processor)@.wf(),
            x < 16,
            nn <= 0xFF,
            old(processor)@.pc + 2 <= u16::MAX,
        ensures
            final(processor)@ == op_3xnn(old(processor)@, x as int, nn as u8),
            final(processor)@.wf(),
    {
        if processor.v[x as usize] == nn as u8 {
            processor.pc = processor.pc + 2;
        }
    }
}

impl OpCode4XNN {
    /// Skips the next instruction if VX differs from NN.
    pub fn execute(processor: &mut Processor, x: u16, nn: u16)
        requires
            old(processor)@.wf(),
            x < 16,
            nn <= 0xFF,
            old(processor)@.pc + 2 <= u16::MAX,
        ensures
            final(processor)@ == op_4xnn(old(processor)@, x as int, nn as u8),
            final(processor)@.wf(),
    {
        if processor.v[x as usize] != nn as u8 {
            processor.pc = processor.pc + 2;
        }
    }
}

impl OpCode5XY0 {
    /// Skips the next instruction if VX equals VY.
    pub fn execute(processor: &mut Processor, x: u16, y: u16)
        requires
            old(processor)@.wf(),
            x < 16,
            y < 16,
            old(processor)@.pc + 2 <= u16::MAX,
        ensures
            final(processor)@ == op_5xy0(old(processor)@, x as int, y as int),
            final(processor)@.wf(),
    {
        if processor.v[x as usize] == processor.v[y as usize] {
            processor.pc = processor.pc + 2;
        }
    }
}

impl OpCode9XY0 {
    /// Skips the next instruction if VX differs from VY.
    pub fn execute(processor: &mut Processor, x: u16, y: u16)
        requires
            old(processor)@.wf(),
            x < 16,
            y < 16,
            old(processor)@.pc + 2 <= u16::MAX,
        ensures
            final(processor)@ == op_9xy0(old(processor)@, x as int, y as int),
            final(processor)@.wf(),
    {
        if processor.v[x as usize] != processor.v[y as usize] {
            processor.pc = processor.pc + 2;
        }
    }
}

impl OpCode6XNN {
    /// VX := NN.
    pub fn execute(processor: &mut Processor, x: u16, nn: u16)
        requires
            old(processor)@.wf(),
            x < 16,
            nn <= 0xFF,
        ensures
            final(processor)@ == op_6xnn(old(processor)@, x as int, nn as u8),
            final(processor)@.wf(),
    {
        processor.v.set(x as usize, nn as u8);
    }
}

impl OpCode7XNN {
    /// VX := VX + NN, wrapping modulo 256; the flag register is untouched.
    pub fn execute(processor: &mut Processor, x: u16, nn: u16)
        requires
            old(processor)@.wf(),
            x < 16,
            nn <= 0xFF,
        ensures
            final(processor)@ == op_7xnn(old(processor)@, x as int, nn as u8),
            final(processor)@.wf(),
    {
        let vx = processor.v[x as usize];
        let sum: u16 = vx as u16 + nn;
        processor.v.set(x as usize, (sum % 256) as u8);
    }
}

impl OpCode8XY0 {
    /// VX := VY.
    pub fn execute(processor: &mut Processor, x: u16, y: u16)
        requires
            old(processor)@.wf(),
            x < 16,
            y < 16,
        ensures
            final(processor)@ == op_8xy0(old(processor)@, x as int, y as int),
            final(processor)@.wf(),
    {
        let vy = processor.v[y as usize];
        processor.v.set(x as usize, vy);
    }
}

impl OpCode8XY1 {
    /// VX := VX | VY.
    pub fn execute(processor: &mut Processor, x: u16, y: u16)
        requires
            old(processor)@.wf(),
            x < 16,
            y < 16,
        ensures
            final(processor)@ == op_8xy1(old(processor)@, x as int, y as int),
            final(processor)@.wf(),
    {
        let vx = processor.v[x as usize];
        let vy = processor.v[y as usize];
        processor.v.set(x as usize, vx | vy);
    }
}

impl OpCode8XY2 {
    /// VX := VX & VY.
    pub fn execute(processor: &mut Processor, x: u16, y: u16)
        requires
            old(processor)@.wf(),
            x < 16,
            y < 16,
        ensures
            final(processor)@ == op_8xy2(old(processor)@, x as int, y as int),
            final(processor)@.wf(),
    {
        let vx = processor.v[x as usize];
        let vy = processor.v[y as usize];
        processor.v.set(x as usize, vx & vy);
    }
}

impl OpCode8XY3 {
    /// VX := VX ^ VY.
    pub fn execute(processor: &mut Processor, x: u16, y: u16)
        requires
            old(processor)@.wf(),
            x < 16,
            y < 16,
        ensures
            final(processor)@ == op_8xy3(old(processor)@, x as int, y as int),
            final(processor)@.wf(),
    {
        let vx = processor.v[x as usize];
        let vy = processor.v[y as usize];
        processor.v.set(x as usize, vx ^ vy);
    }
}

impl OpCode8XY4 {
    /// VX := VX + VY wrapping; VF := 1 exactly when the sum exceeded 255.
    pub fn execute(processor: &mut Processor, x: u16, y: u16)
        requires
            old(processor)@.wf(),
            x < 16,
            y < 16,
        ensures
            final(processor)@ == op_8xy4(old(processor)@, x as int, y as int),
            final(processor)@.wf(),
    {
        let vx = processor.v[x as usize];
        let vy = processor.v[y as usize];
        let sum: u16 = vx as u16 + vy as u16;
        let carry: u8 = if sum > 255 {
            1
        } else {
            0
        };
        processor.v.set(x as usize, (sum % 256) as u8);
        processor.v.set(15, carry);
    }
}

impl OpCode8XY5 {
    /// VX := VX - VY wrapping; VF := 1 exactly when no borrow occurred.
    pub fn execute(processor: &mut Processor, x: u16, y: u16)
        requires
            old(processor)@.wf(),
            x < 16,
            y < 16,
        ensures
            final(processor)@ == op_8xy5(old(processor)@, x as int, y as int),
            final(processor)@.wf(),
    {
        let vx = processor.v[x as usize];
        let vy = processor.v[y as usize];
        let no_borrow: u8 = if vx >= vy {
            1
        } else {
            0
        };
        processor.v.set(x as usize, vx.wrapping_sub(vy));
        processor.v.set(15, no_borrow);
    }
}

impl OpCode8XY7 {
    /// VX := VY - VX wrapping; VF := 1 exactly when no borrow occurred.
    pub fn execute(processor: &mut Processor, x: u16, y: u16)
        requires
            old(processor)@.wf(),
            x < 16,
            y < 16,
        ensures
            final(processor)@ == op_8xy7(old(processor)@, x as int, y as int),
            final(processor)@.wf(),
    {
        let vx = processor.v[x as usize];
        let vy = processor.v[y as usize];
        let no_borrow: u8 = if vy >= vx {
            1
        } else {
            0
        };
        processor.v.set(x as usize, vy.wrapping_sub(vx));
        processor.v.set(15, no_borrow);
    }
}

impl OpCode8XY6 {
    /// Shift right: the source is VY in the Original dialect and VX in
    /// the New one; VX := source >> 1, then VF := the bit shifted out.
    pub fn execute(processor: &mut Processor, x: u16, y: u16)
        requires
            old(processor)@.wf(),
            x < 16,
            y < 16,
        ensures
            final(processor)@ == op_8xy6(old(processor)@, x as int, y as int),
            final(processor)@.wf(),
    {
        let src = if processor.compatibility == Compatibility::Original {
            processor.v[y as usize]
        } else {
            processor.v[x as usize]
        };
        processor.v.set(x as usize, src >> 1u8);
        processor.v.set(15, src & 0x1);
    }
}

impl OpCode8XYE {
    /// Shift left: the same dialect split as the right shift; VX :=
    /// source << 1, then VF := the source's high bit.
    pub fn execute(processor: &mut Processor, x: u16, y: u16)
        requires
            old(processor)@.wf(),
            x < 16,
            y < 16,
        ensures
            final(processor)@ == op_8xye(old(processor)@, x as int, y as int),
            final(processor)@.wf(),
    {
        let src = if processor.compatibility == Compatibility::Original {
            processor.v[y as usize]
        } else {
            processor.v[x as usize]
        };
        processor.v.set(x as usize, src << 1u8);
        processor.v.set(15, (src & 0x80) >> 7u8);
    }
}

impl OpCodeANNN {
    /// I := NNN.
    pub fn execute(processor: &mut Processor, nnn: u16)
        requires
            old(processor)@.wf(),
        ensures
            final(processor)@ == op_annn(old(processor)@, nnn),
            final(processor)@.wf(),
    {
        processor.i = nnn;
    }
}

impl OpCodeBNNN {
    /// Jump with offset, Original dialect: PC := NNN + V0.
    pub fn execute(processor: &mut Processor, nnn: u16)
        requires
            old(processor)@.wf(),
            old(processor)@.compatibility is Original,
            nnn <= 0xFFF,
        ensures
            final(processor)@ == op_bnnn(old(processor)@, nnn),
            final(processor)@.wf(),
    {
        let v0 = processor.v[0];
        processor.pc = nnn + v0 as u16;
    }
}

impl OpCodeBXNN {
    /// Jump with offset, New dialect: PC := NNN (the full twelve bits,
    /// X included) + VX.
    pub fn execute(processor: &mut Processor, x: u16, nnn: u16)
        requires
            old(processor)@.wf(),
            old(processor)@.compatibility is New,
            x < 16,
            nnn <= 0xFFF,
        ensures
            final(processor)@ == op_bxnn(old(processor)@, x as int, nnn),
            final(processor)@.wf(),
    {
        let vx = processor.v[x as usize];
        processor.pc = nnn + vx as u16;
    }
}

impl OpCodeCXNN {
    /// VX := random byte AND NN. The byte comes from the host's generator;
    /// nothing relates two draws.
    pub fn execute(processor: &mut Processor, x: u16, nn: u16)
        requires
            old(processor)@.wf(),
            x < 16,
            nn <= 0xFF,
        ensures
            exists|rnd: u8|
                final(processor)@ == #[trigger] op_cxnn(old(processor)@, x as int, nn as u8, rnd),
            final(processor)@.wf(),
    {
        let rnd = rand::random::<u8>();
        Self::execute_with(processor, x, nn, rnd);
        proof {
            assert(processor@ == op_cxnn(old(processor)@, x as int, nn as u8, rnd));
        }
    }

    /// The masking step on a byte already drawn: VX := `rnd` AND NN.
    pub fn execute_with(processor: &mut Processor, x: u16, nn: u16, rnd: u8)
        requires
            old(processor)@.wf(),
            x < 16,
            nn <= 0xFF,
        ensures
            final(processor)@ == op_cxnn(old(processor)@, x as int, nn as u8, rnd),
            final(processor)@.wf(),
    {
        processor.v.set(x as usize, rnd & nn as u8);
    }
}

impl OpCodeEX9E {
    /// Skips the next instruction if key VX is currently held.
    pub fn execute(processor: &mut Processor, keypad: &Keypad, x: u16)
        requires
            old(processor)@.wf(),
            x < 16,
            old(processor)@.pc + 2 <= u16::MAX,
        ensures
            final(processor)@ == op_ex9e(old(processor)@, x as int, keypad@),
            final(processor)@.wf(),
    {
        if keypad.is_key_pressed() && processor.v[x as usize] == keypad.get_current_key() {
            processor.pc = processor.pc + 2;
        }
    }
}

impl OpCodeEXA1 {
    /// Skips the next instruction if key VX is not currently held.
    pub fn execute(processor: &mut Processor, keypad: &Keypad, x: u16)
        requires
            old(processor)@.wf(),
            x < 16,
            old(processor)@.pc + 2 <= u16::MAX,
        ensures
            final(processor)@ == op_exa1(old(processor)@, x as int, keypad@),
            final(processor)@.wf(),
    {
        let pressed = keypad.is_key_pressed();
        if (pressed && processor.v[x as usize] != keypad.get_current_key()) || !pressed {
            processor.pc = processor.pc + 2;
        }
    }
}

impl OpCodeFX07 {
    /// VX := delay timer.
    pub fn execute(processor: &mut Processor, x: u16)
        requires
            old(processor)@.wf(),
            x < 16,
        ensures
            final(processor)@ == op_fx07(old(processor)@, x as int),
            final(processor)@.wf(),
    {
        let t = processor.delay_timer;
        processor.v.set(x as usize, t);
    }
}

impl OpCodeFX0A {
    /// Waits for a key: with none held the program counter rewinds by 2,
    /// so the instruction refetches next cycle; else VX := the held key.
    pub fn execute(processor: &mut Processor, keypad: &Keypad, x: u16)
        requires
            old(processor)@.wf(),
            x < 16,
            old(processor)@.pc >= 2,
        ensures
            final(processor)@ == op_fx0a(old(processor)@, x as int, keypad@),
            final(processor)@.wf(),
    {
        if !keypad.is_key_pressed() {
            processor.pc = processor.pc - 2;
        } else {
            let k = keypad.get_current_key();
            processor.v.set(x as usize, k);
        }
    }
}

impl OpCodeFX15 {
    /// Delay timer := VX.
    pub fn execute(processor: &mut Processor, x: u16)
        requires
            old(processor)@.wf(),
            x < 16,
        ensures
            final(processor)@ == op_fx15(old(processor)@, x as int),
            final(processor)@.wf(),
    {
        processor.delay_timer = processor.v[x as usize];
    }
}

impl OpCodeFX18 {
    /// Sound timer := VX.
    pub fn execute(processor: &mut Processor, x: u16)
        requires
            old(processor)@.wf(),
            x < 16,
        ensures
            final(processor)@ == op_fx18(old(processor)@, x as int),
            final(processor)@.wf(),
    {
        processor.sound_timer = processor.v[x as usize];
    }
}

impl OpCodeFX1E {
    /// I := I + VX wrapping at 16 bits; VF := 1 exactly when the sum
    /// leaves the 12-bit address range.
    pub fn execute(processor: &mut Processor, x: u16)
        requires
            old(processor)@.wf(),
            x < 16,
        ensures
            final(processor)@ == op_fx1e(old(processor)@, x as int),
            final(processor)@.wf(),
    {
        let vx = processor.v[x as usize];
        let sum: u32 = processor.i as u32 + vx as u32;
        let flag: u8 = if sum > 0xFFF {
            1
        } else {
            0
        };
        processor.i = (sum % 0x10000) as u16;
        processor.v.set(15, flag);
    }
}

impl OpCodeFX29 {
    /// I := the font-table address of the sprite for VX's low nibble.
    pub fn execute(processor: &mut Processor, x: u16)
        requires
            old(processor)@.wf(),
            x < 16,
        ensures
            final(processor)@ == op_fx29(old(processor)@, x as int),
            final(processor)@.wf(),
    {
        let digit = processor.v[x as usize] & 0xF;
        processor.i = (FONT_BEGIN_INDEX + (digit as usize) * 5) as u16;
    }
}

impl OpCodeFX33 {
    /// Stores VX's decimal hundreds, tens and ones digits at I, I+1, I+2.
    pub fn execute(processor: &mut Processor, x: u16)
        requires
            old(processor)@.wf(),
            x < 16,
            old(processor)@.i + 3 <= MEMORY_SIZE,
        ensures
            final(processor)@ == op_fx33(old(processor)@, x as int),
            final(processor)@.wf(),
    {
        let value = processor.v[x as usize];

        let ones = value % 10;
        let tens = (value / 10) % 10;
        let hundreds = value / 100;

        let base = processor.i as usize;
        processor.memory.data.set(base, hundreds);
        processor.memory.data.set(base + 1, tens);
        processor.memory.data.set(base + 2, ones);
    }
}

/// Draws `n` sprite rows read from `mem` at `i` onto `gfx` at (`sx`, `sy`),
/// exactly as [`draw_rows`] describes; the result reports a lit-to-unlit
/// transition.
fn draw_sprite(gfx: &mut Vec<u8>, mem: &Vec<u8>, i: usize, sx: usize, sy: usize, n: usize) -> (flag:
    bool)
    requires
        old(gfx)@.len() == GFX_SIZE,
        forall|p: int| 0 <= p < GFX_SIZE ==> old(gfx)@[p] == 0 || old(gfx)@[p] == 1,
        mem@.len() == MEMORY_SIZE,
        i + n <= MEMORY_SIZE,
        sx < 64,
        sy < 64,
        n <= 15,
    ensures
        (final(gfx)@, flag) == draw_rows(
            old(gfx)@,
            false,
            mem@,
            i as int,
            sy as int,
            sx as int,
            n as int,
        ),
        final(gfx)@.len() == GFX_SIZE,
        forall|p: int| 0 <= p < GFX_SIZE ==> final(gfx)@[p] == 0 || final(gfx)@[p] == 1,
{
    let mut flag = false;
    let mut row: usize = 0;
    while row < n
        invariant
            row <= n,
            n <= 15,
            sx < 64,
            sy < 64,
            i + n <= MEMORY_SIZE,
            mem@.len() == MEMORY_SIZE,
            gfx@.len() == GFX_SIZE,
            forall|p: int| 0 <= p < GFX_SIZE ==> gfx@[p] == 0 || gfx@[p] == 1,
            (gfx@, flag) == draw_rows(
                old(gfx)@,
                false,
                mem@,
                i as int,
                sy as int,
                sx as int,
                row as int,
            ),
        decreases n - row,
    {
        let sprite = mem[i + row];
        let ghost rows_prev = draw_rows(
            old(gfx)@,
            false,
            mem@,
            i as int,
            sy as int,
            sx as int,
            row as int,
        );
        let mut col: usize = 0;
        while col < 8
            invariant
                col <= 8,
                row < n,
                n <= 15,
                sx < 64,
                sy < 64,
                i + n <= MEMORY_SIZE,
                mem@.len() == MEMORY_SIZE,
                gfx@.len() == GFX_SIZE,
                forall|p: int| 0 <= p < GFX_SIZE ==> gfx@[p] == 0 || gfx@[p] == 1,
                sprite == mem@[i + row],
                rows_prev == draw_rows(
                    old(gfx)@,
                    false,
                    mem@,
                    i as int,
                    sy as int,
                    sx as int,
                    row as int,
                ),
                (gfx@, flag) == draw_cells(
                    rows_prev.0,
                    rows_prev.1,
                    sprite,
                    sy as int,
                    sx as int,
                    row as int,
                    col as int,
                ),
            decreases 8 - col,
        {
            let bit = (sprite >> ((7 - col) as u8)) & 1;
            proof {
                assert(bit == sprite_row_bit(sprite, col as int));
                assert(bit == 0 || bit == 1) by {
                    let sh = (7 - col) as u8;
                    assert((sprite >> sh) & 1 == 0 || (sprite >> sh) & 1 == 1) by (bit_vector);
                }
            }
            let gi = (sy + row) * 64 + (sx + col);
            if gi < GFX_SIZE {
                let prev = gfx[gi];
                gfx.set(gi, prev ^ bit);
                proof {
                    assert(prev < 2 && bit < 2 ==> (prev ^ bit) < 2) by (bit_vector);
                }
                if prev == 1 && (prev ^ bit) == 0 {
                    flag = true;
                }
            }
            col = col + 1;
        }
        row = row + 1;
    }
    flag
}

impl OpCodeDXYN {
    /// Draws the 8-wide, N-tall sprite at memory address I to the
    /// framebuffer at (VX mod 64, VY mod 64), XOR-combined pixel by
    /// pixel; VF := 1 exactly when a pixel went from lit to unlit. Rows
    /// past the framebuffer's last row are dropped, not wrapped; a row
    /// continues at the next row's start when it runs past the right
    /// edge, as the flat pixel indexing dictates.
    pub fn execute(processor: &mut Processor, x: u16, y: u16, n: u16)
        requires
            old(processor)@.wf(),
            x < 16,
            y < 16,
            n <= 0xF,
            old(processor)@.i + n <= MEMORY_SIZE,
        ensures
            final(processor)@ == op_dxyn(old(processor)@, x as int, y as int, n as int),
            final(processor)@.wf(),
    {
        let sx = (processor.v[x as usize] % 64) as usize;
        let sy = (processor.v[y as usize] % 64) as usize;
        let i = processor.i as usize;
        let flag = draw_sprite(&mut processor.gfx, &processor.memory.data, i, sx, sy, n as usize);
        processor.v.set(15, if flag {
            1
        } else {
            0
        });
    }
}

impl OpCodeFX55 {
    /// Stores V0..VX to memory starting at I; the Original dialect then
    /// advances I by X+1, the New dialect leaves it unchanged.
    pub fn execute(processor: &mut Processor, x: u16)
        requires
            old(processor)@.wf(),
            x < 16,
            old(processor)@.i + x + 1 <= MEMORY_SIZE,
        ensures
            final(processor)@ == op_fx55(old(processor)@, x as int),
            final(processor)@.wf(),
    {
        let base = processor.i as usize;
        let count = x as usize + 1;
        let mut k: usize = 0;
        while k < count
            invariant
                k <= count,
                count == x + 1,
                x < 16,
                base == old(processor)@.i,
                base + count <= MEMORY_SIZE,
                old(processor)@.wf(),
                processor@ == (State {
                    mem: store_seq(
                        old(processor)@.mem,
                        old(processor)@.v,
                        base as int,
                        k as int,
                    ),
                    ..old(processor)@
                }),
                processor@.mem.len() == MEMORY_SIZE,
            decreases count - k,
        {
            let val = processor.v[k];
            processor.memory.data.set(base + k, val);
            k = k + 1;
        }
        if processor.compatibility == Compatibility::Original {
            processor.i = processor.i + (x + 1);
        }
    }
}

impl OpCodeFX65 {
    /// Loads V0..VX from memory starting at I; the Original dialect then
    /// advances I by X+1, the New dialect leaves it unchanged.
    pub fn execute(processor: &mut Processor, x: u16)
        requires
            old(processor)@.wf(),
            x < 16,
            old(processor)@.i + x + 1 <= MEMORY_SIZE,
        ensures
            final(processor)@ == op_fx65(old(processor)@, x as int),
            final(processor)@.wf(),
    {
        let base = processor.i as usize;
        let count = x as usize + 1;
        let mut k: usize = 0;
        while k < count
            invariant
                k <= count,
                count == x + 1,
                x < 16,
                base == old(processor)@.i,
                base + count <= MEMORY_SIZE,
                old(processor)@.wf(),
                processor@ == (State {
                    v: load_seq(old(processor)@.v, old(processor)@.mem, base as int, k as int),
                    ..old(processor)@
                }),
                processor@.v.len() == 16,
            decreases count - k,
        {
            let val = processor.memory.data[base + k];
            processor.v.set(k, val);
            k = k + 1;
        }
        if processor.compatibility == Compatibility::Original {
            processor.i = processor.i + (x + 1);
        }
    }
}

} // verus!
