//! The machine itself: its state in fixed arrays, and the operations that
//! make, load and drive it.

use vstd::prelude::*;
use crate::chance::random_byte;
use crate::decode::{decode, decoded, Opcode};
use crate::model::{
    draws_lot, fresh, is_lowest_down, loaded, lowest_down, period_nanos, redraws, Fault, Machine,
    FONT, FONT_START, FRAME_NANOS, PROGRAM_START, STACK_DEPTH,
};
use crate::screen::{blank_display, draw_sprite, grid, Display};

verus! {

/// The sixteen keys, each down (`true`) or up.
pub type Keys = [bool; 16];

/// A CHIP-8 machine.
pub struct VMState {
    memory: [u8; 4096],
    registers: [u8; 16],
    program_counter: u16,
    stack_pointer: u8,
    stack: [u16; 16],
    index: u16,
    display: Display,
    speed: u64,
    decrement_timer: u64,
    delay_timer: u8,
    sound_timer: u8,
}

impl View for VMState {
    type V = Machine;

    closed spec fn view(&self) -> Machine {
        Machine {
            memory: self.memory@,
            registers: self.registers@,
            pc: self.program_counter,
            sp: self.stack_pointer,
            stack: self.stack@,
            index: self.index,
            display: grid(self.display),
            period: self.speed,
            countdown: self.decrement_timer,
            delay: self.delay_timer,
            sound: self.sound_timer,
        }
    }
}

impl VMState {
    /// The machine is in a state that `new` and the operations reach.
    pub open spec fn wf(&self) -> bool {
        self@.wf()
    }

    /// A machine that runs `freq` instructions a second, with the glyphs in
    /// memory and nothing loaded. The time between two steps is a whole
    /// number of nanoseconds, the one nearest to a second divided by `freq`.
    pub fn new(freq: u32) -> (vm: VMState)
        requires
            freq > 0,
        ensures
            vm.wf(),
            vm@ == fresh(period_nanos(freq)),
    {
        let q: u64 = 1_000_000_000 / (freq as u64);
        let r: u64 = 1_000_000_000 % (freq as u64);
        let speed: u64 = if 2 * r > freq as u64 || (2 * r == freq as u64 && q % 2 == 1) {
            q + 1
        } else {
            q
        };
        let mut m: [u8; 4096] = [0; 4096];
        let mut fi: usize = 0;
        while fi < 80
            invariant
                fi <= 80,
                forall|a: int|
                    0 <= a < 4096 ==> m@[a] == if FONT_START <= a < FONT_START + fi {
                        FONT@[a - FONT_START]
                    } else {
                        0u8
                    },
            decreases 80 - fi,
        {
            m[FONT_START as usize + fi] = FONT[fi];
            fi += 1;
        }
        let vm = VMState {
            memory: m,
            registers: [0; 16],
            program_counter: PROGRAM_START,
            stack_pointer: 0,
            stack: [0; 16],
            index: 0,
            display: blank_display(),
            speed,
            decrement_timer: FRAME_NANOS,
            delay_timer: 0,
            sound_timer: 0,
        };
        proof {
            let f = fresh(period_nanos(freq));
            assert(vm@.memory =~= f.memory);
            assert(vm@.registers =~= f.registers);
            assert(vm@.stack =~= f.stack);
        }
        vm
    }

    /// Copies `rom` into memory from address `0x200` on.
    pub fn load(&mut self, rom: &Vec<u8>)
        requires
            old(self).wf(),
            rom.len() <= 4096 - 0x200,
        ensures
            final(self).wf(),
            final(self)@ == loaded(old(self)@, rom@),
    {
        let mut i: usize = 0;
        proof {
            assert(self@.memory =~= loaded(old(self)@, rom@.take(0)).memory);
        }
        while i < rom.len()
            invariant
                i <= rom.len(),
                rom.len() <= 4096 - 0x200,
                self@ == loaded(old(self)@, rom@.take(i as int)),
            decreases rom.len() - i,
        {
            self.memory[0x200 + i] = rom[i];
            i += 1;
            proof {
                assert(self@.memory =~= loaded(old(self)@, rom@.take(i as int)).memory);
            }
        }
        proof {
            assert(rom@.take(i as int) =~= rom@);
            assert(self@.memory =~= loaded(old(self)@, rom@).memory);
        }
    }
}

impl VMState {
    /// The instruction word at the program counter, where a whole word is
    /// left there.
    pub fn fetch(&self) -> (word: Result<(u8, u8), Fault>)
        ensures
            self@.pc <= 4094 ==> word == Ok::<(u8, u8), Fault>(self@.word()),
            self@.pc > 4094 ==> word == Err::<(u8, u8), Fault>(Fault::FetchOutOfRange),
    {
        if self.program_counter > 4094 {
            return Err(Fault::FetchOutOfRange);
        }
        let ind: usize = self.program_counter as usize;
        Ok((self.memory[ind], self.memory[ind + 1]))
    }

    /// Lets one step's worth of time pass for the timers.
    fn tick(&mut self)
        requires
            old(self).wf(),
        ensures
            final(self).wf(),
            final(self)@ == old(self)@.ticked(),
    {
        if self.decrement_timer > self.speed {
            self.decrement_timer = self.decrement_timer - self.speed;
        } else {
            if self.delay_timer > 0 {
                self.delay_timer -= 1;
            }
            if self.sound_timer > 0 {
                self.sound_timer -= 1;
            }
            self.decrement_timer = FRAME_NANOS;
        }
    }

    /// Moves the program counter to the next word.
    fn advance(&mut self)
        requires
            old(self).wf(),
            old(self)@.pc <= 4094,
        ensures
            final(self).wf(),
            final(self)@ == old(self)@.advanced(),
    {
        self.program_counter = (self.program_counter + 2) % 4096;
    }

    /// Why `op` cannot run now, if it cannot.
    fn check(&self, op: Opcode, keys: &Keys) -> (fault: Option<Fault>)
        requires
            self.wf(),
            op.well_formed(),
        ensures
            fault == self@.fault(op, keys@),
    {
        match op {
            Opcode::Return => if self.stack_pointer == 0 {
                Some(Fault::StackUnderflow)
            } else {
                None
            },
            Opcode::Call { nnn } => if self.stack_pointer >= STACK_DEPTH {
                Some(Fault::StackOverflow)
            } else {
                None
            },
            Opcode::Draw { x, y, n } => if self.index as usize + n as usize > 4096 {
                Some(Fault::MemoryOutOfRange)
            } else {
                None
            },
            Opcode::SkipIfKey { x } | Opcode::SkipUnlessKey { x } => if self.registers[x as usize]
                >= 16 {
                Some(Fault::KeyOutOfRange)
            } else {
                None
            },
            Opcode::Decimal { x } => if self.index as usize + 3 > 4096 {
                Some(Fault::MemoryOutOfRange)
            } else {
                None
            },
            Opcode::Store { x } | Opcode::Fill { x } => if self.index as usize + x as usize + 1
                > 4096 {
                Some(Fault::MemoryOutOfRange)
            } else {
                None
            },
            _ => None,
        }
    }

    /// Skips the next instruction where `cond` holds.
    fn skip_when(&mut self, cond: bool)
        requires
            old(self).wf(),
        ensures
            final(self).wf(),
            final(self)@ == old(self)@.skip_if(cond),
    {
        if cond {
            self.program_counter = self.program_counter.wrapping_add(2);
        }
    }

    /// Sets `Vx`.
    fn set_register(&mut self, x: u8, value: u8)
        requires
            old(self).wf(),
            x < 16,
        ensures
            final(self).wf(),
            final(self)@ == old(self)@.with_register(x, value),
    {
        self.registers[x as usize] = value;
    }

    /// Sets `Vx` and then the flag register.
    fn set_result(&mut self, x: u8, value: u8, carry: u8)
        requires
            old(self).wf(),
            x < 16,
        ensures
            final(self).wf(),
            final(self)@ == old(self)@.with_result(x, value, carry),
    {
        self.registers[x as usize] = value;
        self.registers[0xF] = carry;
    }
}

impl VMState {
    /// `8xy4`, `8xy5` and `8xy7`: the sum or the difference, wrapped to a
    /// byte, and its flag.
    fn arithmetic(&mut self, op: Opcode)
        requires
            old(self).wf(),
            op.well_formed(),
            op is Add || op is Sub || op is SubFrom,
        ensures
            final(self).wf(),
            final(self)@ == old(self)@.applied(op, Seq::empty(), 0),
    {
        match op {
            Opcode::Add { x, y } => {
                let sum: u16 = self.registers[x as usize] as u16 + self.registers[y as usize] as u16;
                self.set_result(x, (sum % 256) as u8, if sum > 255 { 1 } else { 0 });
            },
            Opcode::Sub { x, y } => {
                let vx: u8 = self.registers[x as usize];
                let vy: u8 = self.registers[y as usize];
                self.set_result(x, vx.wrapping_sub(vy), if vx < vy { 0 } else { 1 });
            },
            Opcode::SubFrom { x, y } => {
                let vx: u8 = self.registers[x as usize];
                let vy: u8 = self.registers[y as usize];
                self.set_result(x, vy.wrapping_sub(vx), if vy < vx { 0 } else { 1 });
            },
            _ => {},
        }
    }

    /// `8xy6` and `8xyE`: the shifted value goes to `Vx`, then the bit that
    /// fell out to the flag register, which so holds the bit also where `Vx`
    /// is the flag register itself.
    fn shift(&mut self, op: Opcode)
        requires
            old(self).wf(),
            op.well_formed(),
            op is ShiftRight || op is ShiftLeft,
        ensures
            final(self).wf(),
            final(self)@ == old(self)@.applied(op, Seq::empty(), 0),
    {
        match op {
            Opcode::ShiftRight { x } => {
                let vx: u8 = self.registers[x as usize];
                assert(vx & 0x1 == vx % 2 && vx >> 1 == vx / 2) by (bit_vector);
                self.set_result(x, vx >> 1, vx & 0x1);
            },
            Opcode::ShiftLeft { x } => {
                let vx: u8 = self.registers[x as usize];
                assert(vx >> 7 == vx / 128 && vx << 1 == (vx * 2) % 256) by (bit_vector);
                self.set_result(x, vx << 1, vx >> 7);
            },
            _ => {},
        }
    }

    /// `Fx1E`: adds `Vx` to `I` in sixteen bits and flags a result beyond
    /// the twelve bits of an address.
    fn add_index(&mut self, x: u8)
        requires
            old(self).wf(),
            x < 16,
        ensures
            final(self).wf(),
            final(self)@ == old(self)@.applied(Opcode::AddIndex { x }, Seq::empty(), 0),
    {
        let sum: u32 = self.index as u32 + self.registers[x as usize] as u32;
        let carry: bool = sum > 0xFFFF;
        self.index = (sum % 0x1_0000) as u16;
        self.registers[0xF] = if carry || self.index > 0x0FFF { 1 } else { 0 };
    }

    /// `Fx33`: the hundreds, tens and ones of `Vx` to memory at `I`.
    fn decimal(&mut self, x: u8)
        requires
            old(self).wf(),
            x < 16,
            old(self)@.index + 3 <= 4096,
        ensures
            final(self).wf(),
            final(self)@ == old(self)@.applied(Opcode::Decimal { x }, Seq::empty(), 0),
    {
        let vx: u8 = self.registers[x as usize];
        let ind: usize = self.index as usize;
        self.memory[ind] = vx / 100;
        self.memory[ind + 1] = (vx / 10) % 10;
        self.memory[ind + 2] = vx % 10;
    }

    /// `Fx55`: `V0..=Vx` to memory at `I`.
    fn store(&mut self, x: u8)
        requires
            old(self).wf(),
            x < 16,
            old(self)@.index + x + 1 <= 4096,
        ensures
            final(self).wf(),
            final(self)@ == old(self)@.applied(Opcode::Store { x }, Seq::empty(), 0),
    {
        let ind: usize = self.index as usize;
        let end: usize = x as usize;
        let mut i: usize = 0;
        while i <= end
            invariant
                i <= end + 1,
                end == x,
                x < 16,
                ind == old(self)@.index,
                ind + end + 1 <= 4096,
                self.wf(),
                self@ == (Machine { memory: self@.memory, ..old(self)@ }),
                forall|a: int|
                    0 <= a < 4096 ==> self@.memory[a] == if ind <= a < ind + i {
                        old(self)@.registers[a - ind]
                    } else {
                        old(self)@.memory[a]
                    },
            decreases end + 1 - i,
        {
            self.memory[ind + i] = self.registers[i];
            i += 1;
        }
        proof {
            assert(self@.memory =~= old(self)@.applied(
                Opcode::Store { x },
                Seq::empty(),
                0,
            ).memory);
        }
    }

    /// `Fx65`: `V0..=Vx` from memory at `I`.
    fn fill(&mut self, x: u8)
        requires
            old(self).wf(),
            x < 16,
            old(self)@.index + x + 1 <= 4096,
        ensures
            final(self).wf(),
            final(self)@ == old(self)@.applied(Opcode::Fill { x }, Seq::empty(), 0),
    {
        let ind: usize = self.index as usize;
        let end: usize = x as usize;
        let mut i: usize = 0;
        while i <= end
            invariant
                i <= end + 1,
                end == x,
                x < 16,
                ind == old(self)@.index,
                ind + end + 1 <= 4096,
                self.wf(),
                self@ == (Machine { registers: self@.registers, ..old(self)@ }),
                forall|r: int|
                    0 <= r < 16 ==> self@.registers[r] == if r < i {
                        old(self)@.memory[ind + r]
                    } else {
                        old(self)@.registers[r]
                    },
            decreases end + 1 - i,
        {
            self.registers[i] = self.memory[ind + i];
            i += 1;
        }
        proof {
            assert(self@.registers =~= old(self)@.applied(
                Opcode::Fill { x },
                Seq::empty(),
                0,
            ).registers);
        }
    }

    /// `Fx0A`: with a key down, its number goes to `Vx`; with none, the
    /// program counter goes back to this instruction.
    fn wait_key(&mut self, x: u8, keys: &Keys)
        requires
            old(self).wf(),
            x < 16,
        ensures
            final(self).wf(),
            final(self)@ == old(self)@.applied(Opcode::WaitKey { x }, keys@, 0),
    {
        let mut k: usize = 0;
        while k < 16 && !keys[k]
            invariant
                k <= 16,
                forall|j: int| 0 <= j < k ==> !keys@[j],
            decreases 16 - k,
        {
            k += 1;
        }
        if k < 16 {
            proof {
                assert(is_lowest_down(keys@, k as int));
                let c = lowest_down(keys@);
                assert(is_lowest_down(keys@, c));
                assert(c == k);
            }
            self.set_register(x, k as u8);
        } else {
            if self.program_counter >= 2 {
                self.program_counter -= 2;
            } else {
                self.program_counter += 4094;
            }
        }
    }

    /// `Dxyn`: the sprite at `I` goes to the screen at `(Vx, Vy)`, and the
    /// flag register says whether a pixel went off.
    fn draw(&mut self, x: u8, y: u8, n: u8)
        requires
            old(self).wf(),
            x < 16,
            y < 16,
            old(self)@.index + n <= 4096,
        ensures
            final(self).wf(),
            final(self)@ == old(self)@.applied(Opcode::Draw { x, y, n }, Seq::empty(), 0),
    {
        let left: u8 = self.registers[x as usize] % 64;
        let top: u8 = self.registers[y as usize] % 32;
        let hit: bool = draw_sprite(
            &mut self.display,
            &self.memory,
            self.index as usize,
            n as usize,
            left,
            top,
        );
        self.registers[0xF] = if hit { 1 } else { 0 };
    }
}

/// What a step hands to the host is right for `op` and the machine `m` that
/// it left: the framebuffer after an instruction that paints, nothing after
/// any other.
pub open spec fn shows(out: Option<Display>, op: Opcode, m: Machine) -> bool {
    match out {
        Some(d) => redraws(op) && grid(d) == m.display,
        None => !redraws(op),
    }
}

impl VMState {
    /// The jumps, the call and the return.
    fn jump(&mut self, op: Opcode)
        requires
            old(self).wf(),
            op.well_formed(),
            op is Return || op is Jump || op is Call || op is JumpOffset,
            old(self)@.fault(op, Seq::empty()) is None,
        ensures
            final(self).wf(),
            final(self)@ == old(self)@.applied(op, Seq::empty(), 0),
    {
        match op {
            Opcode::Return => {
                self.stack_pointer -= 1;
                self.program_counter = self.stack[self.stack_pointer as usize];
            },
            Opcode::Jump { nnn } => {
                self.program_counter = nnn;
            },
            Opcode::Call { nnn } => {
                self.stack_pointer += 1;
                self.stack[self.stack_pointer as usize - 1] = self.program_counter;
                self.program_counter = nnn;
            },
            Opcode::JumpOffset { nnn } => {
                self.program_counter = nnn + self.registers[0] as u16;
            },
            _ => {},
        }
    }

    /// The skips on a register's value.
    fn skip_on_value(&mut self, op: Opcode)
        requires
            old(self).wf(),
            op.well_formed(),
            op is SkipIfByte || op is SkipUnlessByte || op is SkipIfSame || op is SkipUnlessSame,
        ensures
            final(self).wf(),
            final(self)@ == old(self)@.applied(op, Seq::empty(), 0),
    {
        let hit: bool = match op {
            Opcode::SkipIfByte { x, kk } => self.registers[x as usize] == kk,
            Opcode::SkipUnlessByte { x, kk } => self.registers[x as usize] != kk,
            Opcode::SkipIfSame { x, y } => self.registers[x as usize] == self.registers[y as usize],
            Opcode::SkipUnlessSame { x, y } => self.registers[x as usize]
                != self.registers[y as usize],
            _ => false,
        };
        self.skip_when(hit);
    }

    /// The skips on a key.
    fn skip_on_key(&mut self, op: Opcode, keys: &Keys)
        requires
            old(self).wf(),
            op.well_formed(),
            op is SkipIfKey || op is SkipUnlessKey,
            old(self)@.fault(op, keys@) is None,
        ensures
            final(self).wf(),
            final(self)@ == old(self)@.applied(op, keys@, 0),
    {
        match op {
            Opcode::SkipIfKey { x } => {
                let down: bool = keys[self.registers[x as usize] as usize];
                self.skip_when(down);
            },
            Opcode::SkipUnlessKey { x } => {
                let down: bool = keys[self.registers[x as usize] as usize];
                self.skip_when(!down);
            },
            _ => {},
        }
    }

    /// The instructions that set one register and no flag.
    fn assign(&mut self, op: Opcode, chance: u8)
        requires
            old(self).wf(),
            op.well_formed(),
            op is SetByte || op is AddByte || op is Assign || op is Or || op is And || op is Xor
                || op is Random || op is ReadDelay,
        ensures
            final(self).wf(),
            final(self)@ == old(self)@.applied(op, Seq::empty(), chance),
    {
        match op {
            Opcode::SetByte { x, kk } => {
                self.set_register(x, kk);
            },
            Opcode::AddByte { x, kk } => {
                let sum: u8 = self.registers[x as usize].wrapping_add(kk);
                self.set_register(x, sum);
            },
            Opcode::Assign { x, y } => {
                let value: u8 = self.registers[y as usize];
                self.set_register(x, value);
            },
            Opcode::Or { x, y } => {
                let value: u8 = self.registers[x as usize] | self.registers[y as usize];
                self.set_register(x, value);
            },
            Opcode::And { x, y } => {
                let value: u8 = self.registers[x as usize] & self.registers[y as usize];
                self.set_register(x, value);
            },
            Opcode::Xor { x, y } => {
                let value: u8 = self.registers[x as usize] ^ self.registers[y as usize];
                self.set_register(x, value);
            },
            Opcode::Random { x, kk } => {
                self.set_register(x, chance & kk);
            },
            Opcode::ReadDelay { x } => {
                let value: u8 = self.delay_timer;
                self.set_register(x, value);
            },
            _ => {},
        }
    }

    /// The instructions that set a timer or the address register.
    fn set_special(&mut self, op: Opcode)
        requires
            old(self).wf(),
            op.well_formed(),
            op is SetIndex || op is SetDelay || op is SetSound || op is AddIndex || op is Glyph,
        ensures
            final(self).wf(),
            final(self)@ == old(self)@.applied(op, Seq::empty(), 0),
    {
        match op {
            Opcode::SetIndex { nnn } => {
                self.index = nnn;
            },
            Opcode::SetDelay { x } => {
                self.delay_timer = self.registers[x as usize];
            },
            Opcode::SetSound { x } => {
                self.sound_timer = self.registers[x as usize];
            },
            Opcode::AddIndex { x } => {
                self.add_index(x);
            },
            Opcode::Glyph { x } => {
                self.index = FONT_START + 5 * (self.registers[x as usize] as u16);
            },
            _ => {},
        }
    }

    /// The instructions that write memory or read registers from it.
    fn move_block(&mut self, op: Opcode)
        requires
            old(self).wf(),
            op.well_formed(),
            op is Decimal || op is Store || op is Fill,
            old(self)@.fault(op, Seq::empty()) is None,
        ensures
            final(self).wf(),
            final(self)@ == old(self)@.applied(op, Seq::empty(), 0),
    {
        match op {
            Opcode::Decimal { x } => {
                self.decimal(x);
            },
            Opcode::Store { x } => {
                self.store(x);
            },
            Opcode::Fill { x } => {
                self.fill(x);
            },
            _ => {},
        }
    }

    /// The instructions that paint; hands out the new framebuffer.
    fn paint(&mut self, op: Opcode) -> (shown: Display)
        requires
            old(self).wf(),
            op.well_formed(),
            op is Clear || op is Draw,
            old(self)@.fault(op, Seq::empty()) is None,
        ensures
            final(self).wf(),
            final(self)@ == old(self)@.applied(op, Seq::empty(), 0),
            grid(shown) == final(self)@.display,
    {
        match op {
            Opcode::Draw { x, y, n } => {
                self.draw(x, y, n);
            },
            _ => {
                self.display = blank_display();
            },
        }
        self.display
    }

    /// Runs `op`, which can run.
    fn apply(&mut self, op: Opcode, keys: &Keys, chance: u8) -> (out: Option<Display>)
        requires
            old(self).wf(),
            op.well_formed(),
            old(self)@.fault(op, keys@) is None,
        ensures
            final(self).wf(),
            final(self)@ == old(self)@.applied(op, keys@, chance),
            shows(out, op, final(self)@),
    {
        match op {
            Opcode::Idle | Opcode::Unknown => {},
            Opcode::Clear | Opcode::Draw { .. } => {
                return Some(self.paint(op));
            },
            Opcode::Return
            | Opcode::Jump { .. }
            | Opcode::Call { .. }
            | Opcode::JumpOffset { .. } => {
                self.jump(op);
            },
            Opcode::SkipIfByte { .. }
            | Opcode::SkipUnlessByte { .. }
            | Opcode::SkipIfSame { .. }
            | Opcode::SkipUnlessSame { .. } => {
                self.skip_on_value(op);
            },
            Opcode::SkipIfKey { .. } | Opcode::SkipUnlessKey { .. } => {
                self.skip_on_key(op, keys);
            },
            Opcode::SetByte { .. }
            | Opcode::AddByte { .. }
            | Opcode::Assign { .. }
            | Opcode::Or { .. }
            | Opcode::And { .. }
            | Opcode::Xor { .. }
            | Opcode::Random { .. }
            | Opcode::ReadDelay { .. } => {
                self.assign(op, chance);
            },
            Opcode::Add { .. } | Opcode::Sub { .. } | Opcode::SubFrom { .. } => {
                self.arithmetic(op);
            },
            Opcode::ShiftRight { .. } | Opcode::ShiftLeft { .. } => {
                self.shift(op);
            },
            Opcode::WaitKey { x } => {
                self.wait_key(x, keys);
            },
            Opcode::SetIndex { .. }
            | Opcode::SetDelay { .. }
            | Opcode::SetSound { .. }
            | Opcode::AddIndex { .. }
            | Opcode::Glyph { .. } => {
                self.set_special(op);
            },
            Opcode::Decimal { .. } | Opcode::Store { .. } | Opcode::Fill { .. } => {
                self.move_block(op);
            },
        }
        None
    }
}

impl VMState {
    /// Decodes the word `i` and runs it, with `chance` as the random byte
    /// for `Cxkk`. An instruction that cannot run leaves the machine as it
    /// was and comes back as its fault.
    pub fn execute_with(&mut self, i: (u8, u8), keys: &Keys, chance: u8) -> (out: Result<
        Option<Display>,
        Fault,
    >)
        requires
            old(self).wf(),
        ensures
            final(self).wf(),
            match out {
                Ok(shown) => {
                    &&& old(self)@.fault(decoded(i.0, i.1), keys@) is None
                    &&& final(self)@ == old(self)@.applied(decoded(i.0, i.1), keys@, chance)
                    &&& shows(shown, decoded(i.0, i.1), final(self)@)
                },
                Err(fault) => {
                    &&& old(self)@.fault(decoded(i.0, i.1), keys@) == Some(fault)
                    &&& final(self)@ == old(self)@
                },
            },
    {
        let op: Opcode = decode(i);
        match self.check(op, keys) {
            Some(fault) => Err(fault),
            None => Ok(self.apply(op, keys, chance)),
        }
    }

    /// Decodes the word `i` and runs it. `Cxkk` draws its byte from the
    /// random generator, so of that instruction the result is known only up
    /// to the byte; every other instruction has one result.
    pub fn execute(&mut self, i: (u8, u8), keys: &Keys) -> (out: Result<Option<Display>, Fault>)
        requires
            old(self).wf(),
        ensures
            final(self).wf(),
            match out {
                Ok(shown) => {
                    &&& old(self)@.fault(decoded(i.0, i.1), keys@) is None
                    &&& exists|chance: u8|
                        final(self)@ == #[trigger] old(self)@.applied(
                            decoded(i.0, i.1),
                            keys@,
                            chance,
                        )
                    &&& !draws_lot(decoded(i.0, i.1)) ==> final(self)@ == old(self)@.applied(
                        decoded(i.0, i.1),
                        keys@,
                        0,
                    )
                    &&& shows(shown, decoded(i.0, i.1), final(self)@)
                },
                Err(fault) => {
                    &&& old(self)@.fault(decoded(i.0, i.1), keys@) == Some(fault)
                    &&& final(self)@ == old(self)@
                },
            },
    {
        let op: Opcode = decode(i);
        let chance: u8 = match op {
            Opcode::Random { .. } => random_byte(),
            _ => 0,
        };
        self.execute_with(i, keys, chance)
    }
}

impl VMState {
    /// One step with `chance` as the random byte for `Cxkk`: the timers
    /// tick, the word at the program counter is fetched, the program
    /// counter moves on and the word runs. Where no word can be fetched or
    /// the word cannot run, the step comes back as its fault: the timers
    /// have ticked, all else is as it was, and the next step meets the same
    /// word.
    pub fn step_with(&mut self, keys: &Keys, chance: u8) -> (out: Result<Option<Display>, Fault>)
        requires
            old(self).wf(),
        ensures
            final(self).wf(),
            match out {
                Ok(shown) => {
                    &&& old(self)@.step_fault(keys@) is None
                    &&& final(self)@ == old(self)@.stepped(keys@, chance)
                    &&& shows(shown, old(self)@.current(), final(self)@)
                },
                Err(fault) => {
                    &&& old(self)@.step_fault(keys@) == Some(fault)
                    &&& final(self)@ == old(self)@.refused()
                },
            },
    {
        self.tick();
        let word: (u8, u8) = match self.fetch() {
            Ok(word) => word,
            Err(fault) => {
                return Err(fault);
            },
        };
        let op: Opcode = decode(word);
        match self.check(op, keys) {
            Some(fault) => Err(fault),
            None => {
                self.advance();
                Ok(self.apply(op, keys, chance))
            },
        }
    }

    /// One step. `Cxkk` draws its byte from the random generator, so of a
    /// step that runs it the result is known only up to the byte; every
    /// other step has one result. A step that cannot be taken comes back as
    /// its fault, with the timers ticked and all else as it was.
    pub fn step(&mut self, keys: &Keys) -> (out: Result<Option<Display>, Fault>)
        requires
            old(self).wf(),
        ensures
            final(self).wf(),
            match out {
                Ok(shown) => {
                    &&& old(self)@.step_fault(keys@) is None
                    &&& exists|chance: u8|
                        final(self)@ == #[trigger] old(self)@.stepped(keys@, chance)
                    &&& !draws_lot(old(self)@.current()) ==> final(self)@ == old(self)@.stepped(
                        keys@,
                        0,
                    )
                    &&& shows(shown, old(self)@.current(), final(self)@)
                },
                Err(fault) => {
                    &&& old(self)@.step_fault(keys@) == Some(fault)
                    &&& final(self)@ == old(self)@.refused()
                },
            },
    {
        let chance: u8 = match self.fetch() {
            Ok(word) => match decode(word) {
                Opcode::Random { .. } => random_byte(),
                _ => 0,
            },
            Err(_) => 0,
        };
        self.step_with(keys, chance)
    }

    /// Nanoseconds between two steps.
    pub fn speed(&self) -> (nanos: u64)
        ensures
            nanos == self@.period,
    {
        self.speed
    }

    /// The buzzer sounds: the sound timer is not zero.
    pub fn buzzer_active(&self) -> (active: bool)
        ensures
            active == (self@.sound > 0),
    {
        self.sound_timer > 0
    }

    /// Register `Vx`.
    pub fn register(&self, x: u8) -> (value: u8)
        requires
            x < 16,
        ensures
            value == self@.v(x),
    {
        self.registers[x as usize]
    }

    /// The byte of memory at `address`.
    pub fn memory_at(&self, address: u16) -> (value: u8)
        requires
            address < 4096,
        ensures
            value == self@.memory[address as int],
    {
        self.memory[address as usize]
    }

    /// The address of the next instruction.
    pub fn program_counter(&self) -> (pc: u16)
        ensures
            pc == self@.pc,
    {
        self.program_counter
    }

    /// The address register `I`.
    pub fn index(&self) -> (index: u16)
        ensures
            index == self@.index,
    {
        self.index
    }

    /// The number of calls that are open.
    pub fn stack_pointer(&self) -> (sp: u8)
        ensures
            sp == self@.sp,
    {
        self.stack_pointer
    }

    /// The delay timer.
    pub fn delay_timer(&self) -> (value: u8)
        ensures
            value == self@.delay,
    {
        self.delay_timer
    }

    /// The sound timer.
    pub fn sound_timer(&self) -> (value: u8)
        ensures
            value == self@.sound,
    {
        self.sound_timer
    }

    /// The framebuffer as it stands.
    pub fn display(&self) -> (d: Display)
        ensures
            grid(d) == self@.display,
    {
        self.display
    }
}

} // verus!
