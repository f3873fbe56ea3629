//! The machine as a mathematical value, and what each instruction, the
//! timers and a whole step make of it.

use vstd::prelude::*;
use crate::decode::{decoded, Opcode};
use crate::screen::{blank, collides, drawn, is_grid};

verus! {

/// Where a program is loaded and where the program counter starts.
pub const PROGRAM_START: u16 = 0x200;

/// Where the built-in glyphs start.
pub const FONT_START: u16 = 0x50;

/// The slots of the return stack, and so the calls that can be open at a
/// time.
pub const STACK_DEPTH: u8 = 16;

/// Nanoseconds between two decrements of the timers: a sixtieth of a second.
pub const FRAME_NANOS: u64 = 16_666_667;

/// Why an instruction cannot run. An instruction that cannot run changes
/// nothing; a step on it still lets the time pass for the timers.
#[derive(Clone, Copy, Debug, PartialEq, Eq, Structural)]
pub enum Fault {
    /// The program counter is above 4094: no whole word is left to fetch.
    FetchOutOfRange,
    /// A call with sixteen calls already open.
    StackOverflow,
    /// A return with no call open.
    StackUnderflow,
    /// A sprite, the decimal digits or a block of registers would reach
    /// beyond the last byte of memory.
    MemoryOutOfRange,
    /// A key instruction with a register that holds 16 or more.
    KeyOutOfRange,
}

/// The state of the machine.
pub struct Machine {
    /// The 4096 bytes of memory.
    pub memory: Seq<u8>,
    /// The registers `V0` to `VF`.
    pub registers: Seq<u8>,
    /// The address of the next instruction.
    pub pc: u16,
    /// The number of calls that are open. The return address of the `k`-th
    /// of them, counted from 1, stands in slot `k - 1` of the stack, so the
    /// stack pointer names the next free slot.
    pub sp: u8,
    /// The sixteen slots of the return stack; those from `sp` on are free.
    pub stack: Seq<u16>,
    /// The address register `I`.
    pub index: u16,
    /// The framebuffer, 32 rows of 64 pixels.
    pub display: Seq<Seq<bool>>,
    /// Nanoseconds between two steps.
    pub period: u64,
    /// Nanoseconds until the timers next go down.
    pub countdown: u64,
    /// The delay timer.
    pub delay: u8,
    /// The sound timer.
    pub sound: u8,
}

/// Some key is down.
pub open spec fn any_down(keys: Seq<bool>) -> bool {
    exists|k: int| 0 <= k < keys.len() && keys[k]
}

/// `k` is the lowest key that is down.
pub open spec fn is_lowest_down(keys: Seq<bool>, k: int) -> bool {
    &&& 0 <= k < keys.len()
    &&& keys[k]
    &&& forall|j: int| 0 <= j < k ==> !keys[j]
}

/// The lowest key that is down, where one is.
pub open spec fn lowest_down(keys: Seq<bool>) -> int {
    choose|k: int| is_lowest_down(keys, k)
}

/// A timer one tick later: one less, and never below zero.
pub open spec fn wound_down(t: u8) -> u8 {
    if t > 0 {
        (t - 1) as u8
    } else {
        0
    }
}

/// The address two bytes after `pc`, around the end of memory.
pub open spec fn next_word(pc: u16) -> u16 {
    ((pc + 2) % 4096) as u16
}

/// The program counter after a skip: two more, in sixteen bits.
pub open spec fn skipped(pc: u16) -> u16 {
    ((pc + 2) % 0x1_0000) as u16
}

/// The address two bytes before `pc`; from the first two bytes of memory
/// back around to its last two.
pub open spec fn rewound(pc: u16) -> u16 {
    if pc >= 2 {
        (pc - 2) as u16
    } else {
        (pc + 4094) as u16
    }
}

/// The flag value of a condition.
pub open spec fn flag(b: bool) -> u8 {
    if b {
        1
    } else {
        0
    }
}

impl Machine {
    /// The shapes are right, the stack pointer is within the stack and the
    /// countdown is running.
    pub open spec fn wf(self) -> bool {
        &&& self.memory.len() == 4096
        &&& self.registers.len() == 16
        &&& self.stack.len() == 16
        &&& is_grid(self.display)
        &&& self.sp <= STACK_DEPTH
        &&& 0 < self.countdown <= FRAME_NANOS
    }

    /// Register `Vx`.
    pub open spec fn v(self, x: u8) -> u8 {
        self.registers[x as int]
    }

    /// With `Vx` set to `value`.
    pub open spec fn with_register(self, x: u8, value: u8) -> Machine {
        Machine { registers: self.registers.update(x as int, value), ..self }
    }

    /// With `Vx` set to `value` and then `VF` to `carry`: where `x` is the
    /// flag register, the flag is what stays.
    pub open spec fn with_result(self, x: u8, value: u8, carry: u8) -> Machine {
        Machine { registers: self.registers.update(x as int, value).update(0xF, carry), ..self }
    }

    /// With the next instruction skipped where `cond` holds.
    pub open spec fn skip_if(self, cond: bool) -> Machine {
        if cond {
            Machine { pc: skipped(self.pc), ..self }
        } else {
            self
        }
    }

    /// The screen column that `Vx` names: its value modulo the width.
    pub open spec fn column(self, x: u8) -> int {
        self.v(x) as int % 64
    }

    /// The screen row that `Vy` names: its value modulo the height.
    pub open spec fn row(self, y: u8) -> int {
        self.v(y) as int % 32
    }

    /// The `n` bytes of memory from `I` on.
    pub open spec fn sprite(self, n: u8) -> Seq<u8> {
        self.memory.subrange(self.index as int, self.index + n)
    }

    /// The timers after one step's worth of time: the period comes off the
    /// countdown, which stops at zero; at zero each timer that is not zero
    /// goes down by one and the countdown starts again at a sixtieth of a
    /// second.
    pub open spec fn ticked(self) -> Machine {
        if self.countdown > self.period {
            Machine { countdown: (self.countdown - self.period) as u64, ..self }
        } else {
            Machine {
                countdown: FRAME_NANOS,
                delay: wound_down(self.delay),
                sound: wound_down(self.sound),
                ..self
            }
        }
    }

    /// The instruction word at the program counter.
    pub open spec fn word(self) -> (u8, u8) {
        (self.memory[self.pc as int], self.memory[self.pc + 1])
    }

    /// The instruction at the program counter.
    pub open spec fn current(self) -> Opcode {
        decoded(self.word().0, self.word().1)
    }

    /// With the program counter on the next word.
    pub open spec fn advanced(self) -> Machine {
        Machine { pc: next_word(self.pc), ..self }
    }

    /// Why `op` cannot run on this machine, if it cannot.
    pub open spec fn fault(self, op: Opcode, keys: Seq<bool>) -> Option<Fault> {
        match op {
            Opcode::Return => if self.sp == 0 {
                Some(Fault::StackUnderflow)
            } else {
                None
            },
            Opcode::Call { nnn } => if self.sp >= STACK_DEPTH {
                Some(Fault::StackOverflow)
            } else {
                None
            },
            Opcode::Draw { x, y, n } => if self.index + n > 4096 {
                Some(Fault::MemoryOutOfRange)
            } else {
                None
            },
            Opcode::SkipIfKey { x } | Opcode::SkipUnlessKey { x } => if self.v(x) >= 16 {
                Some(Fault::KeyOutOfRange)
            } else {
                None
            },
            Opcode::Decimal { x } => if self.index + 3 > 4096 {
                Some(Fault::MemoryOutOfRange)
            } else {
                None
            },
            Opcode::Store { x } | Opcode::Fill { x } => if self.index + x + 1 > 4096 {
                Some(Fault::MemoryOutOfRange)
            } else {
                None
            },
            _ => None,
        }
    }

    /// The machine after `op`, where `op` can run. `chance` is the random
    /// byte that `Cxkk` draws.
    pub open spec fn applied(self, op: Opcode, keys: Seq<bool>, chance: u8) -> Machine {
        match op {
            Opcode::Idle | Opcode::Unknown => self,
            Opcode::Clear => Machine { display: blank(), ..self },
            Opcode::Return => Machine {
                pc: self.stack[self.sp - 1],
                sp: (self.sp - 1) as u8,
                ..self
            },
            Opcode::Jump { nnn } => Machine { pc: nnn, ..self },
            Opcode::Call { nnn } => Machine {
                sp: (self.sp + 1) as u8,
                stack: self.stack.update(self.sp as int, self.pc),
                pc: nnn,
                ..self
            },
            Opcode::SkipIfByte { x, kk } => self.skip_if(self.v(x) == kk),
            Opcode::SkipUnlessByte { x, kk } => self.skip_if(self.v(x) != kk),
            Opcode::SkipIfSame { x, y } => self.skip_if(self.v(x) == self.v(y)),
            Opcode::SkipUnlessSame { x, y } => self.skip_if(self.v(x) != self.v(y)),
            Opcode::SetByte { x, kk } => self.with_register(x, kk),
            Opcode::AddByte { x, kk } => self.with_register(x, ((self.v(x) + kk) % 256) as u8),
            Opcode::Assign { x, y } => self.with_register(x, self.v(y)),
            Opcode::Or { x, y } => self.with_register(x, self.v(x) | self.v(y)),
            Opcode::And { x, y } => self.with_register(x, self.v(x) & self.v(y)),
            Opcode::Xor { x, y } => self.with_register(x, self.v(x) ^ self.v(y)),
            Opcode::Add { x, y } => self.with_result(
                x,
                ((self.v(x) + self.v(y)) % 256) as u8,
                flag(self.v(x) + self.v(y) > 255),
            ),
            Opcode::Sub { x, y } => self.with_result(
                x,
                ((self.v(x) - self.v(y)) % 256) as u8,
                flag(!(self.v(x) < self.v(y))),
            ),
            Opcode::SubFrom { x, y } => self.with_result(
                x,
                ((self.v(y) - self.v(x)) % 256) as u8,
                flag(!(self.v(y) < self.v(x))),
            ),
            Opcode::ShiftRight { x } => self.with_result(x, self.v(x) / 2, self.v(x) % 2),
            Opcode::ShiftLeft { x } => self.with_result(
                x,
                ((self.v(x) * 2) % 256) as u8,
                self.v(x) / 128,
            ),
            Opcode::SetIndex { nnn } => Machine { index: nnn, ..self },
            Opcode::JumpOffset { nnn } => Machine { pc: (nnn + self.v(0)) as u16, ..self },
            Opcode::Random { x, kk } => self.with_register(x, chance & kk),
            Opcode::Draw { x, y, n } => Machine {
                display: drawn(self.display, self.sprite(n), self.column(x), self.row(y)),
                registers: self.registers.update(
                    0xF,
                    flag(collides(self.display, self.sprite(n), self.column(x), self.row(y))),
                ),
                ..self
            },
            Opcode::SkipIfKey { x } => self.skip_if(keys[self.v(x) as int]),
            Opcode::SkipUnlessKey { x } => self.skip_if(!keys[self.v(x) as int]),
            Opcode::ReadDelay { x } => self.with_register(x, self.delay),
            Opcode::WaitKey { x } => if any_down(keys) {
                self.with_register(x, lowest_down(keys) as u8)
            } else {
                Machine { pc: rewound(self.pc), ..self }
            },
            Opcode::SetDelay { x } => Machine { delay: self.v(x), ..self },
            Opcode::SetSound { x } => Machine { sound: self.v(x), ..self },
            Opcode::AddIndex { x } => Machine {
                index: ((self.index + self.v(x)) % 0x1_0000) as u16,
                registers: self.registers.update(
                    0xF,
                    flag(
                        self.index + self.v(x) > 0xFFFF || (self.index + self.v(x)) % 0x1_0000
                            > 0x0FFF,
                    ),
                ),
                ..self
            },
            Opcode::Glyph { x } => Machine { index: (FONT_START + 5 * self.v(x)) as u16, ..self },
            Opcode::Decimal { x } => Machine {
                memory: self.memory.update(self.index as int, self.v(x) / 100).update(
                    self.index + 1,
                    (self.v(x) / 10) % 10,
                ).update(self.index + 2, self.v(x) % 10),
                ..self
            },
            Opcode::Store { x } => Machine {
                memory: Seq::new(
                    4096,
                    |a: int|
                        if self.index <= a <= self.index + x {
                            self.registers[a - self.index]
                        } else {
                            self.memory[a]
                        },
                ),
                ..self
            },
            Opcode::Fill { x } => Machine {
                registers: Seq::new(
                    16,
                    |r: int|
                        if r <= x {
                            self.memory[self.index + r]
                        } else {
                            self.registers[r]
                        },
                ),
                ..self
            },
        }
    }

    /// Why this machine cannot take a step, if it cannot: no word is left to
    /// fetch, or the instruction at the program counter cannot run.
    pub open spec fn step_fault(self, keys: Seq<bool>) -> Option<Fault> {
        if self.pc > 4094 {
            Some(Fault::FetchOutOfRange)
        } else {
            self.fault(self.current(), keys)
        }
    }

    /// The machine after a step that it cannot take: the timers have ticked,
    /// as in every step, the program counter stands where it stood and no
    /// instruction has run.
    pub open spec fn refused(self) -> Machine {
        self.ticked()
    }

    /// The machine one step later, where it can take one: the timers tick,
    /// the program counter moves to the next word, and then the instruction
    /// that was fetched runs.
    pub open spec fn stepped(self, keys: Seq<bool>, chance: u8) -> Machine {
        self.ticked().advanced().applied(self.current(), keys, chance)
    }
}

/// The host has to repaint after `op`.
pub open spec fn redraws(op: Opcode) -> bool {
    op is Clear || op is Draw
}

/// The result of `op` depends on the random byte.
pub open spec fn draws_lot(op: Opcode) -> bool {
    op is Random
}

/// The sixteen built-in glyphs, five bytes each, for the digits `0` to `F`.
pub const FONT: [u8; 80] = [
    0xF0, 0x90, 0x90, 0x90, 0xF0,
    0x20, 0x60, 0x20, 0x20, 0x70,
    0xF0, 0x10, 0xF0, 0x80, 0xF0,
    0xF0, 0x10, 0xF0, 0x10, 0xF0,
    0x90, 0x90, 0xF0, 0x10, 0x10,
    0xF0, 0x80, 0xF0, 0x10, 0xF0,
    0xF0, 0x80, 0xF0, 0x90, 0xF0,
    0xF0, 0x10, 0x20, 0x40, 0x40,
    0xF0, 0x90, 0xF0, 0x90, 0xF0,
    0xF0, 0x90, 0xF0, 0x10, 0xF0,
    0xF0, 0x90, 0xF0, 0x90, 0x90,
    0xE0, 0x90, 0xE0, 0x90, 0xE0,
    0xF0, 0x80, 0x80, 0x80, 0xF0,
    0xE0, 0x90, 0x90, 0x90, 0xE0,
    0xF0, 0x80, 0xF0, 0x80, 0xF0,
    0xF0, 0x80, 0xF0, 0x80, 0x80,
];

/// The whole number nearest to `1_000_000_000 / freq`; of two that are
/// equally near, the even one.
pub open spec fn period_nanos(freq: u32) -> u64
    recommends
        freq > 0,
{
    let q = 1_000_000_000int / (freq as int);
    let r = 1_000_000_000int % (freq as int);
    if 2 * r > freq || (2 * r == freq && q % 2 == 1) {
        (q + 1) as u64
    } else {
        q as u64
    }
}

/// The machine as it is made: the glyphs in place, all else zero, the
/// program counter at the start of the program and a full countdown.
pub open spec fn fresh(period: u64) -> Machine {
    Machine {
        memory: Seq::new(
            4096,
            |a: int|
                if FONT_START <= a < FONT_START + 80 {
                    FONT@[a - FONT_START]
                } else {
                    0u8
                },
        ),
        registers: Seq::new(16, |r: int| 0u8),
        pc: PROGRAM_START,
        sp: 0,
        stack: Seq::new(16, |s: int| 0u16),
        index: 0,
        display: blank(),
        period,
        countdown: FRAME_NANOS,
        delay: 0,
        sound: 0,
    }
}

/// The machine with `rom` copied to memory from the start of the program on.
pub open spec fn loaded(m: Machine, rom: Seq<u8>) -> Machine {
    Machine {
        memory: Seq::new(
            4096,
            |a: int|
                if PROGRAM_START <= a < PROGRAM_START + rom.len() {
                    rom[a - PROGRAM_START]
                } else {
                    m.memory[a]
                },
        ),
        ..m
    }
}

} // verus!
