//! The fetch/decode/execute engine and its registers.

use vstd::prelude::*;

use crate::keypad::Keypad;
use crate::memory::Memory;
use crate::memory::MEMORY_SIZE;
use crate::memory::ROM_BEGIN_INDEX;
use crate::opcodes::{
    OpCode00E0, OpCode00EE, OpCode1NNN, OpCode2NNN, OpCode3XNN, OpCode4XNN, OpCode5XY0,
    OpCode6XNN, OpCode7XNN, OpCode8XY0, OpCode8XY1, OpCode8XY2, OpCode8XY3, OpCode8XY4,
    OpCode8XY5, OpCode8XY6, OpCode8XY7, OpCode8XYE, OpCode9XY0, OpCodeANNN, OpCodeBNNN,
    OpCodeBXNN, OpCodeCXNN, OpCodeDXYN, OpCodeEX9E, OpCodeEXA1, OpCodeFX07, OpCodeFX0A,
    OpCodeFX15, OpCodeFX18, OpCodeFX1E, OpCodeFX29, OpCodeFX33, OpCodeFX55, OpCodeFX65,
};
use crate::state::{
    advanced, cycle_pre, cycle_result, cycle_spec, decode_family, decode_rest, execute_pre,
    fetched, init_mem, init_state, op_cxnn, step_matches, ticked, Compatibility, EmuError, State,
    GFX_SIZE, STACK_LIMIT,
};

verus! {

/// The machine: registers, call stack, timers, memory and framebuffer.
/// Its view is the ghost [`State`] the opcode semantics are written over.
#[derive(Debug)]
pub struct Processor {
    /// Program counter: address of the next instruction.
    pub pc: u16,
    /// Index register: the memory address sprites and register files use.
    pub i: u16,
    /// Return addresses of the calls in flight.
    pub stack: Vec<u16>,
    /// Decremented once per 60 Hz timer tick until it reaches zero.
    pub delay_timer: u8,
    /// Like the delay timer; sound plays while it is nonzero.
    pub sound_timer: u8,
    /// The sixteen general registers V0..VF; VF doubles as the flag.
    pub v: Vec<u8>,
    /// The dialect fixed at construction.
    pub compatibility: Compatibility,
    /// The 4096-byte memory.
    pub memory: Memory,
    /// The 64x32 framebuffer, row-major, one byte per pixel, 0 or 1.
    pub gfx: Vec<u8>,
}

impl View for Processor {
    type V = State;

    open spec fn view(&self) -> State {
        State {
            pc: self.pc,
            i: self.i,
            stack: self.stack@,
            delay_timer: self.delay_timer,
            sound_timer: self.sound_timer,
            v: self.v@,
            compatibility: self.compatibility,
            mem: self.memory@,
            gfx: self.gfx@,
        }
    }
}

/// One second in nanoseconds.
pub const NANOS_PER_SECOND: u64 = 1_000_000_000;

/// Splits host clock progress into the whole 60 Hz timer ticks now due.
/// `carry` is the fraction of the next tick already elapsed, measured as
/// nanoseconds times 60; `elapsed_nanos` is the clock time since the
/// last call. The result pairs the due ticks with the new fraction to
/// carry forward, so no fraction of a tick is ever lost and the timers
/// track the clock whatever the instruction rate is.
pub fn elapsed_timer_ticks(carry: u64, elapsed_nanos: u64) -> (r: (u64, u64))
    requires
        carry < NANOS_PER_SECOND,
    ensures
        r.0 == (carry + elapsed_nanos * 60) / (NANOS_PER_SECOND as int),
        r.1 == (carry + elapsed_nanos * 60) % (NANOS_PER_SECOND as int),
        r.1 < NANOS_PER_SECOND,
{
    let total: u128 = carry as u128 + (elapsed_nanos as u128) * 60;
    let ticks = total / (NANOS_PER_SECOND as u128);
    let rem = total % (NANOS_PER_SECOND as u128);
    (ticks as u64, rem as u64)
}

/// A vector of `n` zero bytes.
fn zero_bytes(n: usize) -> (v: Vec<u8>)
    ensures
        v@ == Seq::new(n as nat, |j: int| 0u8),
{
    let mut v: Vec<u8> = Vec::new();
    let mut k: usize = 0;
    while k < n
        invariant
            k <= n,
            v@.len() == k,
            forall|j: int| 0 <= j < k ==> v@[j] == 0u8,
        decreases n - k,
    {
        v.push(0);
        k = k + 1;
    }
    proof {
        assert(v@ =~= Seq::new(n as nat, |j: int| 0u8));
    }
    v
}

impl Processor {
    /// A machine in the Original dialect: counters cleared, program
    /// counter at the program base, fonts loaded.
    pub fn init() -> (p: Processor)
        ensures
            p@ == init_state(Compatibility::Original),
            p@.wf(),
    {
        Processor::init_compat(Compatibility::Original)
    }

    /// A machine in the New dialect.
    pub fn init_newer() -> (p: Processor)
        ensures
            p@ == init_state(Compatibility::New),
            p@.wf(),
    {
        Processor::init_compat(Compatibility::New)
    }

    /// A machine in the given dialect.
    pub fn init_compat(compatibility: Compatibility) -> (p: Processor)
        ensures
            p@ == init_state(compatibility),
            p@.wf(),
    {
        let mut memory = Memory::init();
        memory.load_fonts();
        let p = Processor {
            pc: ROM_BEGIN_INDEX as u16,
            i: 0,
            stack: Vec::new(),
            delay_timer: 0,
            sound_timer: 0,
            v: zero_bytes(16),
            compatibility,
            memory,
            gfx: zero_bytes(GFX_SIZE),
        };
        proof {
            assert(p@.mem =~= init_mem());
            assert(p@.stack =~= Seq::<u16>::empty());
            assert(p@ =~= init_state(compatibility));
        }
        p
    }

    /// Reads the two bytes at the program counter as one big-endian
    /// instruction.
    pub fn fetch(&self) -> (instruction: u16)
        requires
            self@.wf(),
            self@.pc + 2 <= MEMORY_SIZE,
        ensures
            instruction == fetched(self@),
    {
        let first_half = self.memory.data[self.pc as usize] as u16;
        let second_half = self.memory.data[self.pc as usize + 1] as u16;

        (first_half << 8) | second_half
    }

    /// Splits an instruction into its opcode family and its low twelve
    /// bits.
    pub fn decode(&self, instruction: u16) -> (r: (u16, u16))
        ensures
            r.0 == decode_family(instruction),
            r.1 == decode_rest(instruction),
            r.0 <= 0xF,
            r.1 <= 0xFFF,
    {
        let first = (instruction & 0xF000) >> 12;
        let rest = instruction & 0x0FFF;
        proof {
            assert((instruction & 0xF000) >> 12u16 <= 0xF && instruction & 0x0FFF <= 0xFFF)
                by (bit_vector);
        }
        (first, rest)
    }

    /// Applies `ticks` whole 60 Hz timer ticks: both timers decrement
    /// that many times, stopping at zero. The tick count comes from the
    /// host's clock, never from the instruction rate.
    fn update_timers(&mut self, ticks: u64)
        requires
            old(self)@.wf(),
        ensures
            final(self)@ == ticked(old(self)@, ticks),
            final(self)@.wf(),
    {
        self.delay_timer = if (self.delay_timer as u64) > ticks {
            (self.delay_timer as u64 - ticks) as u8
        } else {
            0
        };
        self.sound_timer = if (self.sound_timer as u64) > ticks {
            (self.sound_timer as u64 - ticks) as u8
        } else {
            0
        };
    }

    /// Dispatches one decoded instruction to its handler. An unknown
    /// opcode, a return on an empty stack or a call on a full stack is
    /// reported and leaves the machine alone; every other instruction
    /// transforms the machine exactly as [`step`] dictates.
    pub fn execute(&mut self, first: u16, rest: u16, keypad: &Keypad) -> (r: Result<
        (),
        EmuError,
    >)
        requires
            old(self)@.wf(),
            rest <= 0xFFF,
            execute_pre(old(self)@, first, rest),
        ensures
            exists|rnd: u8| #[trigger] step_matches(
                old(self)@,
                final(self)@,
                r,
                first,
                rest,
                rnd,
                keypad@,
            ),
            final(self)@.wf(),
    {
        let x = (rest >> 8) & 0xF;
        let y = (rest >> 4) & 0xF;
        let n = rest & 0xF;
        let nn = rest & 0xFF;
        let nnn = rest;
        proof {
            assert(((rest >> 8u16) & 0xF) < 16 && ((rest >> 4u16) & 0xF) < 16 && (rest & 0xF)
                < 16 && (rest & 0xFF) <= 0xFF) by (bit_vector);
        }
        let ghost pre = old(self)@;
        let r: Result<(), EmuError> = match first {
            0x0 => {
                if rest == 0x0E0 {
                    OpCode00E0::execute(self);
                    Ok(())
                } else if rest == 0x0EE {
                    if self.stack.len() == 0 {
                        Err(EmuError::StackUnderflow)
                    } else {
                        OpCode00EE::execute(self);
                        Ok(())
                    }
                } else {
                    Err(EmuError::UnknownOpcode((first << 12) | rest))
                }
            },
            0x1 => {
                OpCode1NNN::execute(self, nnn);
                Ok(())
            },
            0x2 => {
                if self.stack.len() >= STACK_LIMIT {
                    Err(EmuError::StackOverflow)
                } else {
                    OpCode2NNN::execute(self, nnn);
                    Ok(())
                }
            },
            0x3 => {
                OpCode3XNN::execute(self, x, nn);
                Ok(())
            },
            0x4 => {
                OpCode4XNN::execute(self, x, nn);
                Ok(())
            },
            0x5 => {
                OpCode5XY0::execute(self, x, y);
                Ok(())
            },
            0x6 => {
                OpCode6XNN::execute(self, x, nn);
                Ok(())
            },
            0x7 => {
                OpCode7XNN::execute(self, x, nn);
                Ok(())
            },
            0x8 => {
                let sel = rest & 0xF;
                match sel {
                    0x0 => {
                        OpCode8XY0::execute(self, x, y);
                        Ok(())
                    },
                    0x1 => {
                        OpCode8XY1::execute(self, x, y);
                        Ok(())
                    },
                    0x2 => {
                        OpCode8XY2::execute(self, x, y);
                        Ok(())
                    },
                    0x3 => {
                        OpCode8XY3::execute(self, x, y);
                        Ok(())
                    },
                    0x4 => {
                        OpCode8XY4::execute(self, x, y);
                        Ok(())
                    },
                    0x5 => {
                        OpCode8XY5::execute(self, x, y);
                        Ok(())
                    },
                    0x6 => {
                        OpCode8XY6::execute(self, x, y);
                        Ok(())
                    },
                    0x7 => {
                        OpCode8XY7::execute(self, x, y);
                        Ok(())
                    },
                    0xE => {
                        OpCode8XYE::execute(self, x, y);
                        Ok(())
                    },
                    _ => Err(EmuError::UnknownOpcode((first << 12) | rest)),
                }
            },
            0x9 => {
                OpCode9XY0::execute(self, x, y);
                Ok(())
            },
            0xA => {
                OpCodeANNN::execute(self, nnn);
                Ok(())
            },
            0xB => {
                if self.compatibility == Compatibility::Original {
                    OpCodeBNNN::execute(self, nnn);
                } else {
                    OpCodeBXNN::execute(self, x, nnn);
                }
                Ok(())
            },
            0xC => {
                OpCodeCXNN::execute(self, x, nn);
                Ok(())
            },
            0xD => {
                OpCodeDXYN::execute(self, x, y, n);
                Ok(())
            },
            0xE => {
                let sel = rest & 0xFF;
                match sel {
                    0x9E => {
                        OpCodeEX9E::execute(self, keypad, x);
                        Ok(())
                    },
                    0xA1 => {
                        OpCodeEXA1::execute(self, keypad, x);
                        Ok(())
                    },
                    _ => Err(EmuError::UnknownOpcode((first << 12) | rest)),
                }
            },
            0xF => {
                let sel = rest & 0xFF;
                match sel {
                    0x07 => {
                        OpCodeFX07::execute(self, x);
                        Ok(())
                    },
                    0x0A => {
                        OpCodeFX0A::execute(self, keypad, x);
                        Ok(())
                    },
                    0x15 => {
                        OpCodeFX15::execute(self, x);
                        Ok(())
                    },
                    0x18 => {
                        OpCodeFX18::execute(self, x);
                        Ok(())
                    },
                    0x1E => {
                        OpCodeFX1E::execute(self, x);
                        Ok(())
                    },
                    0x29 => {
                        OpCodeFX29::execute(self, x);
                        Ok(())
                    },
                    0x33 => {
                        OpCodeFX33::execute(self, x);
                        Ok(())
                    },
                    0x55 => {
                        OpCodeFX55::execute(self, x);
                        Ok(())
                    },
                    0x65 => {
                        OpCodeFX65::execute(self, x);
                        Ok(())
                    },
                    _ => Err(EmuError::UnknownOpcode((first << 12) | rest)),
                }
            },
            _ => Err(EmuError::UnknownOpcode((first << 12) | rest)),
        };
        proof {
            if first == 0xC {
                let rnd = choose|rnd: u8|
                    self@ == #[trigger] op_cxnn(
                        pre,
                        ((rest >> 8u16) & 0xF) as int,
                        (rest & 0xFF) as u8,
                        rnd,
                    );
                assert(step_matches(pre, self@, r, first, rest, rnd, keypad@));
            } else {
                assert(step_matches(pre, self@, r, first, rest, 0u8, keypad@));
            }
        }
        r
    }

    /// One machine cycle: fetch the instruction at the program counter,
    /// advance past it, dispatch, then apply the 60 Hz timer ticks the
    /// host reports as elapsed since the last cycle (the host carries the
    /// fractional tick, so the timers track its clock whatever the
    /// instruction rate is). A reported fault still leaves the counter
    /// advanced and the timers ticked.
    pub fn cycle(&mut self, keypad: &Keypad, elapsed_ticks: u64) -> (r: Result<(), EmuError>)
        requires
            old(self)@.wf(),
            cycle_pre(old(self)@),
        ensures
            exists|rnd: u8|
                {
                    let c = #[trigger] cycle_spec(old(self)@, rnd, keypad@, elapsed_ticks);
                    final(self)@ == c.0 && r == cycle_result(c.1)
                },
            final(self)@.wf(),
    {
        let instruction = self.fetch();
        self.pc = self.pc + 2;
        let (first, rest) = self.decode(instruction);
        let result = self.execute(first, rest, keypad);
        let ghost mid = self@;
        self.update_timers(elapsed_ticks);
        proof {
            let rnd = choose|rnd: u8| #[trigger] step_matches(
                advanced(old(self)@),
                mid,
                result,
                first,
                rest,
                rnd,
                keypad@,
            );
            assert(step_matches(advanced(old(self)@), mid, result, first, rest, rnd, keypad@));
            assert(self@ == cycle_spec(old(self)@, rnd, keypad@, elapsed_ticks).0 && result
                == cycle_result(cycle_spec(old(self)@, rnd, keypad@, elapsed_ticks).1));
        }
        result
    }
}

} // verus!
