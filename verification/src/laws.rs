//! What holds of the instructions, the timers and the step, whatever the
//! state of the machine.

use vstd::prelude::*;
use crate::decode::Opcode;
use crate::model::{
    any_down, flag, is_lowest_down, lowest_down, next_word, period_nanos, redraws, wound_down,
    Fault, Machine, FRAME_NANOS, STACK_DEPTH,
};
use crate::screen::{blank, collides, covers, drawn, is_grid, lemma_grid_ext, lit, on_screen};

verus! {

/// `7xkk` leaves in `Vx` the sum of `Vx` and `kk` modulo 256, and touches
/// no other register, the flag register included.
pub proof fn law_add_byte_wraps(m: Machine, x: u8, kk: u8, keys: Seq<bool>, chance: u8)
    requires
        m.wf(),
        x < 16,
    ensures
        m.fault(Opcode::AddByte { x, kk }, keys) is None,
        m.applied(Opcode::AddByte { x, kk }, keys, chance).v(x) == (m.v(x) + kk) % 256,
        forall|r: u8|
            r < 16 && r != x ==> m.applied(Opcode::AddByte { x, kk }, keys, chance).v(r) == m.v(r),
        m.applied(Opcode::AddByte { x, kk }, keys, chance) == m.with_register(
            x,
            ((m.v(x) + kk) % 256) as u8,
        ),
{
}

/// `8xy4` leaves 1 in the flag register if the sum of the two registers is
/// above 255, and 0 if it is not.
pub proof fn law_add_sets_carry(m: Machine, x: u8, y: u8, keys: Seq<bool>, chance: u8)
    requires
        m.wf(),
        x < 16,
        y < 16,
    ensures
        m.fault(Opcode::Add { x, y }, keys) is None,
        m.applied(Opcode::Add { x, y }, keys, chance).v(0xF) == 1 <==> m.v(x) + m.v(y) > 255,
        m.applied(Opcode::Add { x, y }, keys, chance).v(0xF) == 0 <==> m.v(x) + m.v(y) <= 255,
        x != 0xF ==> m.applied(Opcode::Add { x, y }, keys, chance).v(x) == (m.v(x) + m.v(y)) % 256,
{
}

/// `8xy5` leaves 0 in the flag register if `Vx` is below `Vy`, and 1 if it
/// is not.
pub proof fn law_sub_clears_on_borrow(m: Machine, x: u8, y: u8, keys: Seq<bool>, chance: u8)
    requires
        m.wf(),
        x < 16,
        y < 16,
    ensures
        m.fault(Opcode::Sub { x, y }, keys) is None,
        m.applied(Opcode::Sub { x, y }, keys, chance).v(0xF) == 0 <==> m.v(x) < m.v(y),
        m.applied(Opcode::Sub { x, y }, keys, chance).v(0xF) == 1 <==> m.v(x) >= m.v(y),
        x != 0xF ==> m.applied(Opcode::Sub { x, y }, keys, chance).v(x) == (m.v(x) - m.v(y)) % 256,
{
}

/// `8xy6` and `8xyE` leave in the flag register the bit that fell out of
/// `Vx`, as 0 or 1, also where `Vx` is the flag register; in any other `Vx`
/// they leave the shifted value, and no third register changes.
pub proof fn law_shift_sets_flag(m: Machine, x: u8, keys: Seq<bool>, chance: u8)
    requires
        m.wf(),
        x < 16,
    ensures
        m.fault(Opcode::ShiftRight { x }, keys) is None,
        m.fault(Opcode::ShiftLeft { x }, keys) is None,
        m.applied(Opcode::ShiftRight { x }, keys, chance).v(0xF) == m.v(x) % 2,
        m.applied(Opcode::ShiftLeft { x }, keys, chance).v(0xF) == m.v(x) / 128,
        x != 0xF ==> m.applied(Opcode::ShiftRight { x }, keys, chance).v(x) == m.v(x) / 2,
        x != 0xF ==> m.applied(Opcode::ShiftLeft { x }, keys, chance).v(x) == (m.v(x) * 2) % 256,
        forall|r: u8|
            r < 0xF && r != x ==> m.applied(Opcode::ShiftRight { x }, keys, chance).v(r) == m.v(r)
                && m.applied(Opcode::ShiftLeft { x }, keys, chance).v(r) == m.v(r),
{
}

/// In every instruction that sets the flag register, the flag is written
/// last: with `x` the flag register, what stays there is the flag.
pub proof fn law_flag_is_written_last(m: Machine, y: u8, keys: Seq<bool>, chance: u8)
    requires
        m.wf(),
        y < 16,
    ensures
        m.applied(Opcode::Add { x: 0xF, y }, keys, chance).v(0xF) == flag(
            m.v(0xF) + m.v(y) > 255,
        ),
        m.applied(Opcode::Sub { x: 0xF, y }, keys, chance).v(0xF) == flag(m.v(0xF) >= m.v(y)),
        m.applied(Opcode::SubFrom { x: 0xF, y }, keys, chance).v(0xF) == flag(m.v(y) >= m.v(0xF)),
        m.applied(Opcode::ShiftRight { x: 0xF }, keys, chance).v(0xF) == m.v(0xF) % 2,
        m.applied(Opcode::ShiftLeft { x: 0xF }, keys, chance).v(0xF) == m.v(0xF) / 128,
{
}

/// `00E0`, then any drawing, then `00E0` again: the screen is blank after
/// the first and after the last, and both tell the host to repaint.
pub proof fn law_clear_draw_clear(m: Machine, x: u8, y: u8, n: u8, keys: Seq<bool>, chance: u8)
    requires
        m.wf(),
        x < 16,
        y < 16,
    ensures
        redraws(Opcode::Clear),
        m.fault(Opcode::Clear, keys) is None,
        m.applied(Opcode::Clear, keys, chance).display == blank(),
        m.applied(Opcode::Clear, keys, chance).applied(
            Opcode::Draw { x, y, n },
            keys,
            chance,
        ).applied(Opcode::Clear, keys, chance).display == blank(),
{
}

/// The pixel at `(x, y)` of a drawn screen is the old one, flipped where
/// the sprite has a set bit.
pub proof fn lemma_drawn_pixel(g: Seq<Seq<bool>>, rows: Seq<u8>, left: int, top: int, x: int, y: int)
    requires
        on_screen(x, y),
    ensures
        lit(drawn(g, rows, left, top), x, y) == (lit(g, x, y) != covers(rows, left, top, x, y)),
        is_grid(drawn(g, rows, left, top)),
{
}

/// Drawing a sprite twice at one place gives the screen back as it was, and
/// the second drawing collides exactly if the first switched a pixel on.
pub proof fn law_draw_twice(g: Seq<Seq<bool>>, rows: Seq<u8>, left: int, top: int)
    requires
        is_grid(g),
    ensures
        drawn(drawn(g, rows, left, top), rows, left, top) == g,
        collides(drawn(g, rows, left, top), rows, left, top) <==> exists|x: int, y: int|
            on_screen(x, y) && !lit(g, x, y) && #[trigger] lit(drawn(g, rows, left, top), x, y),
{
    let once = drawn(g, rows, left, top);
    let twice = drawn(once, rows, left, top);
    assert forall|x: int, y: int| on_screen(x, y) implies #[trigger] lit(twice, x, y) == lit(
        g,
        x,
        y,
    ) by {
        lemma_drawn_pixel(g, rows, left, top, x, y);
        lemma_drawn_pixel(once, rows, left, top, x, y);
    }
    lemma_drawn_pixel(once, rows, left, top, 0, 0);
    lemma_grid_ext(twice, g);
    if collides(once, rows, left, top) {
        let (x, y) = choose|x: int, y: int|
            on_screen(x, y) && #[trigger] lit(once, x, y) && covers(rows, left, top, x, y);
        lemma_drawn_pixel(g, rows, left, top, x, y);
        assert(on_screen(x, y) && !lit(g, x, y) && lit(once, x, y));
    }
    if exists|x: int, y: int| on_screen(x, y) && !lit(g, x, y) && #[trigger] lit(once, x, y) {
        let (x, y) = choose|x: int, y: int|
            on_screen(x, y) && !lit(g, x, y) && #[trigger] lit(once, x, y);
        lemma_drawn_pixel(g, rows, left, top, x, y);
        assert(on_screen(x, y) && lit(once, x, y) && covers(rows, left, top, x, y));
    }
}

/// `Dxyn` run twice in a row, with neither `x` nor `y` the flag register:
/// the screen is as it was before the first, and the second leaves 1 in the
/// flag register exactly if the first switched a pixel on.
pub proof fn law_draw_instruction_twice(
    m: Machine,
    x: u8,
    y: u8,
    n: u8,
    keys: Seq<bool>,
    chance: u8,
)
    requires
        m.wf(),
        x < 0xF,
        y < 0xF,
        m.fault(Opcode::Draw { x, y, n }, keys) is None,
    ensures
        m.applied(Opcode::Draw { x, y, n }, keys, chance).fault(Opcode::Draw { x, y, n }, keys)
            is None,
        m.applied(Opcode::Draw { x, y, n }, keys, chance).applied(
            Opcode::Draw { x, y, n },
            keys,
            chance,
        ).display == m.display,
        m.applied(Opcode::Draw { x, y, n }, keys, chance).applied(
            Opcode::Draw { x, y, n },
            keys,
            chance,
        ).v(0xF) == flag(
            exists|px: int, py: int|
                on_screen(px, py) && !lit(m.display, px, py) && #[trigger] lit(
                    m.applied(Opcode::Draw { x, y, n }, keys, chance).display,
                    px,
                    py,
                ),
        ),
{
    let op = Opcode::Draw { x, y, n };
    let once = m.applied(op, keys, chance);
    assert(once.sprite(n) == m.sprite(n));
    assert(once.column(x) == m.column(x));
    assert(once.row(y) == m.row(y));
    law_draw_twice(m.display, m.sprite(n), m.column(x), m.row(y));
}

/// A step on `Fx0A` with no key down moves nothing but the timers: the
/// program counter stays, so the next step meets the same instruction.
pub proof fn law_wait_key_idles(m: Machine, x: u8, keys: Seq<bool>, chance: u8)
    requires
        m.wf(),
        m.pc <= 4094,
        m.current() == (Opcode::WaitKey { x }),
        !any_down(keys),
    ensures
        m.step_fault(keys) is None,
        m.stepped(keys, chance) == m.ticked(),
        m.stepped(keys, chance).pc == m.pc,
        m.stepped(keys, chance).current() == m.current(),
{
}

/// A step on `Fx0A` with exactly one key down moves on to the next word
/// and leaves that key's number in `Vx`.
pub proof fn law_wait_key_takes(m: Machine, x: u8, keys: Seq<bool>, key: int, chance: u8)
    requires
        m.wf(),
        m.pc <= 4094,
        x < 16,
        m.current() == (Opcode::WaitKey { x }),
        keys.len() == 16,
        0 <= key < 16,
        forall|k: int| 0 <= k < 16 ==> (keys[k] <==> k == key),
    ensures
        m.step_fault(keys) is None,
        m.stepped(keys, chance).pc == next_word(m.pc),
        m.stepped(keys, chance).v(x) == key,
        m.stepped(keys, chance) == m.ticked().advanced().with_register(x, key as u8),
{
    assert(keys[key]);
    assert(is_lowest_down(keys, key));
    assert(is_lowest_down(keys, lowest_down(keys)));
}

/// The machine after `n` steps' worth of time, with nothing else done to it.
pub open spec fn after_ticks(m: Machine, n: nat) -> Machine
    decreases n,
{
    if n == 0 {
        m
    } else {
        after_ticks(m, (n - 1) as nat).ticked()
    }
}

/// While less than the countdown has passed, the timers stand still and the
/// countdown has gone down by the time that passed.
pub proof fn lemma_before_the_tick(m: Machine, n: nat)
    requires
        m.wf(),
        n * m.period < m.countdown,
    ensures
        after_ticks(m, n) == (Machine { countdown: (m.countdown - n * m.period) as u64, ..m }),
    decreases n,
{
    if n > 0 {
        assert((n - 1) * m.period <= n * m.period) by (nonlinear_arith)
            requires
                n >= 1,
                m.period >= 0,
        ;
        assert(n * m.period == (n - 1) * m.period + m.period) by (nonlinear_arith);
        lemma_before_the_tick(m, (n - 1) as nat);
        let before = after_ticks(m, (n - 1) as nat);
        assert(before.countdown == m.countdown - (n - 1) * m.period);
        assert(before.countdown > before.period);
        assert(after_ticks(m, n) == before.ticked());
    } else {
        assert(n * m.period == 0) by (nonlinear_arith)
            requires
                n == 0,
        ;
    }
}

/// The timers go down once for each sixtieth of a second of step time: if
/// `n` steps are the first to add up to the countdown, the timers stand
/// still for `n - 1` of them, and with the `n`-th each timer that is not
/// zero goes down by exactly one, none goes below zero, and the countdown
/// starts again from a sixtieth of a second.
pub proof fn law_timer_cadence(m: Machine, n: nat)
    requires
        m.wf(),
        n >= 1,
        (n - 1) * m.period < m.countdown <= n * m.period,
    ensures
        forall|j: nat|
            j < n ==> (#[trigger] after_ticks(m, j)).delay == m.delay && after_ticks(m, j).sound
                == m.sound,
        after_ticks(m, n).delay == wound_down(m.delay),
        after_ticks(m, n).sound == wound_down(m.sound),
        after_ticks(m, n).countdown == FRAME_NANOS,
        wound_down(m.delay) == if m.delay > 0 {
            m.delay - 1
        } else {
            0
        },
{
    assert forall|j: nat| j < n implies (#[trigger] after_ticks(m, j)).delay == m.delay
        && after_ticks(m, j).sound == m.sound by {
        assert(j * m.period <= (n - 1) * m.period) by (nonlinear_arith)
            requires
                j <= n - 1,
                m.period >= 0,
        ;
        lemma_before_the_tick(m, j);
    }
    lemma_before_the_tick(m, (n - 1) as nat);
    assert(n * m.period == (n - 1) * m.period + m.period) by (nonlinear_arith);
}

/// Time moves nothing but the timers and their countdown, and leaves the
/// machine well formed.
pub proof fn lemma_ticks_keep(m: Machine, n: nat)
    requires
        m.wf(),
    ensures
        after_ticks(m, n).wf(),
        after_ticks(m, n) == (Machine {
            countdown: after_ticks(m, n).countdown,
            delay: after_ticks(m, n).delay,
            sound: after_ticks(m, n).sound,
            ..m
        }),
    decreases n,
{
    if n > 0 {
        lemma_ticks_keep(m, (n - 1) as nat);
    }
}

/// `a + b` steps' worth of time is `a` and then `b`.
pub proof fn lemma_ticks_add(m: Machine, a: nat, b: nat)
    ensures
        after_ticks(m, a + b) == after_ticks(after_ticks(m, a), b),
    decreases b,
{
    if b > 0 {
        lemma_ticks_add(m, a, (b - 1) as nat);
        assert(a + b - 1 == a + (b - 1));
    }
}

/// A timer `k` ticks later: `k` less, and never below zero.
pub open spec fn wound_down_by(t: u8, k: nat) -> u8 {
    if t >= k {
        (t - k) as u8
    } else {
        0
    }
}

/// The timers run at sixty to the second whatever the frequency of the
/// steps: if `n` steps are the first to add up to a sixtieth of a second,
/// then from a full countdown `k * n` steps take each timer down by `k`,
/// none below zero, and leave the countdown full again.
pub proof fn law_timer_frames(m: Machine, n: nat, k: nat)
    requires
        m.wf(),
        m.countdown == FRAME_NANOS,
        n >= 1,
        (n - 1) * m.period < FRAME_NANOS <= n * m.period,
    ensures
        after_ticks(m, k * n).delay == wound_down_by(m.delay, k),
        after_ticks(m, k * n).sound == wound_down_by(m.sound, k),
        after_ticks(m, k * n).countdown == FRAME_NANOS,
    decreases k,
{
    if k == 0 {
        assert(k * n == 0) by (nonlinear_arith)
            requires
                k == 0,
        ;
    } else {
        let before = (k - 1) as nat;
        assert(k * n == before * n + n) by (nonlinear_arith)
            requires
                before == k - 1,
        ;
        law_timer_frames(m, n, before);
        let m1 = after_ticks(m, before * n);
        lemma_ticks_keep(m, before * n);
        lemma_ticks_add(m, before * n, n);
        law_timer_cadence(m1, n);
    }
}

/// The machine after a step, taken or refused.
pub open spec fn after_step(m: Machine, keys: Seq<bool>, chance: u8) -> Machine {
    if m.step_fault(keys) is None {
        m.stepped(keys, chance)
    } else {
        m.refused()
    }
}

/// Every step lets the time pass, whether its instruction runs or not: the
/// countdown is the ticked one, the period stays, and each timer is the
/// ticked one unless the instruction that ran has set it.
pub proof fn law_every_step_ticks(m: Machine, keys: Seq<bool>, chance: u8)
    requires
        m.wf(),
    ensures
        after_step(m, keys, chance).countdown == m.ticked().countdown,
        after_step(m, keys, chance).period == m.period,
        !(m.step_fault(keys) is None && m.current() is SetDelay) ==> after_step(
            m,
            keys,
            chance,
        ).delay == m.ticked().delay,
        !(m.step_fault(keys) is None && m.current() is SetSound) ==> after_step(
            m,
            keys,
            chance,
        ).sound == m.ticked().sound,
        m.ticked().delay <= m.delay,
        m.ticked().sound <= m.sound,
{
}

/// A step that is refused moves nothing but the timers, and is refused
/// again for the same reason as long as the keys on which it rests stay.
pub proof fn law_refused_step_stays(m: Machine, keys: Seq<bool>)
    requires
        m.wf(),
        m.step_fault(keys) is Some,
    ensures
        m.refused().wf(),
        m.refused().pc == m.pc,
        m.refused().memory == m.memory,
        m.refused().registers == m.registers,
        m.refused().stack == m.stack,
        m.refused().sp == m.sp,
        m.refused().index == m.index,
        m.refused().display == m.display,
        m.refused().step_fault(keys) == m.step_fault(keys),
{
}

/// A call can run with up to fifteen calls open, so sixteen can be open at
/// a time; it is refused exactly with sixteen open, and a return exactly
/// with none.
pub proof fn law_stack_faults(m: Machine, nnn: u16, keys: Seq<bool>)
    requires
        m.wf(),
    ensures
        m.sp < 16 <==> m.fault(Opcode::Call { nnn }, keys) is None,
        m.sp == 16 <==> m.fault(Opcode::Call { nnn }, keys) == Some(Fault::StackOverflow),
        m.sp > 0 <==> m.fault(Opcode::Return, keys) is None,
        m.sp == 0 <==> m.fault(Opcode::Return, keys) == Some(Fault::StackUnderflow),
        STACK_DEPTH == 16,
{
}

/// A call opens one call more, puts the program counter in the first free
/// slot of the stack and touches no slot of a call that is open.
pub proof fn law_call_pushes(m: Machine, nnn: u16, keys: Seq<bool>, chance: u8)
    requires
        m.wf(),
        m.sp < 16,
    ensures
        m.applied(Opcode::Call { nnn }, keys, chance).wf(),
        m.applied(Opcode::Call { nnn }, keys, chance).pc == nnn,
        m.applied(Opcode::Call { nnn }, keys, chance).sp == m.sp + 1,
        m.applied(Opcode::Call { nnn }, keys, chance).stack[m.sp as int] == m.pc,
        forall|k: int|
            0 <= k < m.sp ==> m.applied(Opcode::Call { nnn }, keys, chance).stack[k] == m.stack[k],
{
}

/// `2nnn` and then `00EE`, at any depth that takes a call: the program
/// counter and the number of open calls are back where they were, the return
/// addresses of the calls that were open are untouched, and so is all else
/// but the slot that the call used.
pub proof fn law_call_return_balance(m: Machine, nnn: u16, keys: Seq<bool>, chance: u8)
    requires
        m.wf(),
        m.sp < 16,
    ensures
        m.fault(Opcode::Call { nnn }, keys) is None,
        m.applied(Opcode::Call { nnn }, keys, chance).fault(Opcode::Return, keys) is None,
        m.applied(Opcode::Call { nnn }, keys, chance).applied(Opcode::Return, keys, chance) == (
        Machine { stack: m.stack.update(m.sp as int, m.pc), ..m }),
        m.applied(Opcode::Call { nnn }, keys, chance).applied(Opcode::Return, keys, chance).pc
            == m.pc,
        m.applied(Opcode::Call { nnn }, keys, chance).applied(Opcode::Return, keys, chance).sp
            == m.sp,
        forall|k: int|
            0 <= k < m.sp ==> m.applied(Opcode::Call { nnn }, keys, chance).applied(
                Opcode::Return,
                keys,
                chance,
            ).stack[k] == m.stack[k],
{
}

/// A call and the return that follows it at once, in steps: if `2nnn`
/// stands at the program counter and `00EE` at `nnn`, two steps leave the
/// program counter on the word after the `2nnn`, as many calls open as
/// before and their return addresses untouched, at any depth that takes a
/// call.
pub proof fn law_call_then_return(m: Machine, nnn: u16, keys: Seq<bool>, chance: u8)
    requires
        m.wf(),
        m.pc <= 4094,
        nnn <= 4094,
        m.sp < 16,
        m.current() == (Opcode::Call { nnn }),
        m.stepped(keys, chance).current() == Opcode::Return,
    ensures
        m.step_fault(keys) is None,
        m.stepped(keys, chance).pc == nnn,
        m.stepped(keys, chance).sp == m.sp + 1,
        m.stepped(keys, chance).step_fault(keys) is None,
        m.stepped(keys, chance).stepped(keys, chance).pc == next_word(m.pc),
        m.stepped(keys, chance).stepped(keys, chance).sp == m.sp,
        forall|k: int|
            0 <= k < m.sp ==> m.stepped(keys, chance).stepped(keys, chance).stack[k] == m.stack[k],
        m.stepped(keys, chance).stepped(keys, chance).registers == m.registers,
        m.stepped(keys, chance).stepped(keys, chance).memory == m.memory,
        m.stepped(keys, chance).stepped(keys, chance).index == m.index,
        m.stepped(keys, chance).stepped(keys, chance).display == m.display,
{
}

/// The time between two steps is within half a nanosecond of a second
/// divided by the frequency.
pub proof fn law_period_is_nearest(freq: u32)
    requires
        freq > 0,
    ensures
        2 * (period_nanos(freq) * freq - 1_000_000_000) <= freq,
        2 * (1_000_000_000 - period_nanos(freq) * freq) <= freq,
{
    let f = freq as int;
    let q = 1_000_000_000int / f;
    let r = 1_000_000_000int % f;
    assert(1_000_000_000int == q * f + r && 0 <= r < f && 0 <= q <= 1_000_000_000)
        by (nonlinear_arith)
        requires
            f > 0,
            q == 1_000_000_000int / f,
            r == 1_000_000_000int % f,
    ;
    assert((q + 1) * f == q * f + f) by (nonlinear_arith);
}

} // verus!
