use vstd::prelude::*;

use crate::control::{spec_run_control, RunControl};
use crate::emulator::{Emulator, StepResult};
use crate::semantics::{
    add_result, borrow_inverse_flag, carry_flag, cell_index, draw_collision, draw_post, hit_col,
    hit_row, lemma_cell_bijection, px_bit, same_state, sprite_row_byte, step_rel, sub_result,
    wrap8, wrap_col, wrap_row,
};
use crate::timer::{spec_tick, spec_ticks};
use crate::Status;
use vstd::arithmetic::div_mod::lemma_mod_bound;

verus! {

/// For all 8-bit values `a` and `b`: add-with-carry produces
/// `(a + b) mod 256` and sets the carry flag exactly when the unsigned sum
/// exceeds 255.
pub proof fn lemma_add_with_carry(a: u8, b: u8)
    ensures
        add_result(a, b) == (a + b) % 256,
        carry_flag(a, b) == 1 <==> a + b > 255,
        carry_flag(a, b) == 0 <==> a + b <= 255,
{
}

/// For all 8-bit values `a` and `b`: subtraction `a - b` sets the
/// borrow-inverse flag to 1 exactly when `a >= b`, and produces the
/// wrapping difference.
pub proof fn lemma_subtract_borrow(a: u8, b: u8)
    ensures
        sub_result(a, b) == (a - b) % 256,
        a >= b ==> sub_result(a, b) == a - b,
        a < b ==> sub_result(a, b) == a - b + 256,
        borrow_inverse_flag(a, b) == 1 <==> a >= b,
{
}

/// Shift-right always places the pre-shift low bit of the shifted register
/// in the flag register, and shift-left the pre-shift high bit: the flag
/// expressions of the shift semantics are exactly those bits.
pub proof fn lemma_shift_flags(v: u8)
    ensures
        v & 1 == v % 2,
        (if v >= 128 {
            1u8
        } else {
            0u8
        }) == v >> 7u8,
        v >> 1u8 == v / 2,
        wrap8(2 * v) == (2 * v) % 256,
{
    assert(v & 1 == v % 2) by (bit_vector);
    assert(v >> 7u8 == (if v >= 128 {
        1u8
    } else {
        0u8
    })) by (bit_vector);
    assert(v >> 1u8 == v / 2) by (bit_vector);
}

/// Drawing the identical sprite at the identical location twice in a row
/// restores the prior display state, and the second draw reports a
/// collision exactly when the first draw set some pixel that had been
/// clear.
pub proof fn lemma_draw_involution(
    screen: Seq<bool>,
    mem: Seq<u8>,
    base: u16,
    x0: u8,
    y0: u8,
    n: int,
)
    requires
        screen.len() == 2048,
        0 <= n <= 15,
    ensures
        draw_post(draw_post(screen, mem, base, x0, y0, n), mem, base, x0, y0, n) == screen,
        draw_collision(draw_post(screen, mem, base, x0, y0, n), mem, base, x0, y0, n)
            == exists|i: int, c: int|
            0 <= i < n && 0 <= c < 8 && px_bit(sprite_row_byte(mem, base, i), c) && !screen[
                cell_index(wrap_row(y0, i), wrap_col(x0, c))
            ],
{
    let s1 = draw_post(screen, mem, base, x0, y0, n);
    assert forall|p: int| 0 <= p < 2048 implies draw_post(s1, mem, base, x0, y0, n)[p]
        == screen[p] by {
        lemma_mod_bound(p / 64 - y0, 32);
        lemma_mod_bound(p % 64 - x0, 64);
    }
    assert(draw_post(s1, mem, base, x0, y0, n) =~= screen);
    if draw_collision(s1, mem, base, x0, y0, n) {
        let (i0, c0) = choose|i0: int, c0: int|
            0 <= i0 && 0 <= c0 < 8 && (i0 < n || (i0 == n && c0 < 0)) && px_bit(
                sprite_row_byte(mem, base, i0),
                c0,
            ) && s1[cell_index(wrap_row(y0, i0), wrap_col(x0, c0))];
        lemma_cell_bijection(x0, y0, i0, c0);
        let p = cell_index(wrap_row(y0, i0), wrap_col(x0, c0));
        assert(s1[p] == !screen[p]);
        assert(0 <= i0 < n && 0 <= c0 < 8 && px_bit(sprite_row_byte(mem, base, i0), c0)
            && !screen[cell_index(wrap_row(y0, i0), wrap_col(x0, c0))]);
    }
    if exists|i: int, c: int|
        0 <= i < n && 0 <= c < 8 && px_bit(sprite_row_byte(mem, base, i), c) && !screen[cell_index(
            wrap_row(y0, i),
            wrap_col(x0, c),
        )] {
        let (i0, c0) = choose|i0: int, c0: int|
            0 <= i0 < n && 0 <= c0 < 8 && px_bit(sprite_row_byte(mem, base, i0), c0) && !screen[
                cell_index(wrap_row(y0, i0), wrap_col(x0, c0))
            ];
        lemma_cell_bijection(x0, y0, i0, c0);
        let p = cell_index(wrap_row(y0, i0), wrap_col(x0, c0));
        assert(s1[p] == !screen[p]);
        assert(0 <= i0 && 0 <= c0 < 8 && (i0 < n || (i0 == n && c0 < 0)) && px_bit(
            sprite_row_byte(mem, base, i0),
            c0,
        ) && s1[cell_index(wrap_row(y0, i0), wrap_col(x0, c0))]);
        assert(draw_collision(s1, mem, base, x0, y0, n));
    }
}

/// Coordinate wraparound: a draw writes exactly the cells its sprite wraps
/// to — rows `(y0 + i) mod 32` and columns `(x0 + c) mod 64` — XORing each
/// with its sprite pixel, and leaves every other cell of the grid as it
/// was.
pub proof fn lemma_draw_wraparound(
    screen: Seq<bool>,
    mem: Seq<u8>,
    base: u16,
    x0: u8,
    y0: u8,
    n: int,
)
    requires
        screen.len() == 2048,
        0 <= n <= 15,
    ensures
        forall|i: int, c: int|
            0 <= i < n && 0 <= c < 8 ==> draw_post(screen, mem, base, x0, y0, n)[#[trigger] cell_index(
                wrap_row(y0, i),
                wrap_col(x0, c),
            )] == (screen[cell_index(wrap_row(y0, i), wrap_col(x0, c))] != px_bit(
                sprite_row_byte(mem, base, i),
                c,
            )),
        forall|p: int|
            0 <= p < 2048 && (#[trigger] hit_row(y0, p) >= n || #[trigger] hit_col(x0, p) >= 8)
                ==> draw_post(screen, mem, base, x0, y0, n)[p] == screen[p],
{
    assert forall|i: int, c: int|
        0 <= i < n && 0 <= c < 8 implies draw_post(screen, mem, base, x0, y0, n)[#[trigger] cell_index(
        wrap_row(y0, i),
        wrap_col(x0, c),
    )] == (screen[cell_index(wrap_row(y0, i), wrap_col(x0, c))] != px_bit(
        sprite_row_byte(mem, base, i),
        c,
    )) by {
        lemma_cell_bijection(x0, y0, i, c);
    }
    assert forall|p: int|
        0 <= p < 2048 && (#[trigger] hit_row(y0, p) >= n || #[trigger] hit_col(x0, p) >= 8)
            implies draw_post(screen, mem, base, x0, y0, n)[p] == screen[p] by {
        lemma_mod_bound(p / 64 - y0, 32);
        lemma_mod_bound(p % 64 - x0, 64);
    }
}

/// Binary-coded-decimal store writes the decimal digits of the register:
/// the three stored bytes are each below 10 (the first below 3) and
/// recompose to the register value.
pub proof fn lemma_decimal_digits(v: u8)
    ensures
        ((v as int) / 100) * 100 + (((v as int) % 100) / 10) * 10 + ((v as int) % 10) == v,
        0 <= (v as int) / 100 <= 2,
        0 <= ((v as int) % 100) / 10 <= 9,
        0 <= (v as int) % 10 <= 9,
{
}

/// While the machine is Running, a timer set to `value` reaches 0 after
/// `value` ticks, counts down by exactly one per tick until then, and never
/// goes below 0; while Paused, it stays constant across any number of
/// ticks.
pub proof fn lemma_timer_monotonic(value: u8, n: nat)
    ensures
        n >= value ==> spec_ticks(Status::Running, value, n) == 0,
        n < value ==> spec_ticks(Status::Running, value, n) == value - n,
        spec_ticks(Status::Paused, value, n) == value,
    decreases n,
{
    if n > 0 {
        lemma_timer_monotonic(value, (n - 1) as nat);
    }
}

/// Stopped is terminal: the loop decision for Stopped is permanent
/// termination, and a stopped machine's timers are held exactly as they
/// are; no decision of this library maps Stopped to execution or to a
/// decrement.
pub proof fn lemma_stopped_terminal(n: nat)
    ensures
        spec_run_control(Status::Stopped) == RunControl::Terminate,
        forall|v: u8| #[trigger] spec_tick(Status::Stopped, v) == v,
        forall|v: u8| #[trigger] spec_ticks(Status::Stopped, v, n) == v,
    decreases n,
{
    if n > 0 {
        lemma_stopped_terminal((n - 1) as nat);
    }
    assert forall|v: u8| #[trigger] spec_ticks(Status::Stopped, v, n) == v by {
        if n > 0 {
            assert(spec_ticks(Status::Stopped, v, (n - 1) as nat) == v);
            assert(spec_ticks(Status::Stopped, v, n) == spec_tick(
                Status::Stopped,
                spec_ticks(Status::Stopped, v, (n - 1) as nat),
            ));
        }
    }
}

/// A waiting step blocks only its own execution context: when
/// wait-for-key finds no key pressed, the machine is handed back unchanged,
/// so the key vector stays writable by the input collaborator and the
/// timers keep advancing under their own rule while the caller polls.
pub proof fn lemma_wait_key_blocks_only_caller(pre: Emulator, post: Emulator)
    requires
        step_rel(pre, post, StepResult::WaitingForKey),
    ensures
        same_state(pre, post),
        post.keys@ == pre.keys@,
        post.delay_timer == pre.delay_timer,
        post.sound_timer == pre.sound_timer,
{
    assert(same_state(pre, post));
}

} // verus!
