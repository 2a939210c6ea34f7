use vstd::prelude::*;

use crate::decode::{spec_decode, Instruction};
use crate::emulator::{Emulator, ProgramFault, StepResult, Variant};
use vstd::arithmetic::div_mod::{
    lemma_fundamental_div_mod, lemma_fundamental_div_mod_converse, lemma_mod_bound,
    lemma_mod_multiples_vanish, lemma_small_mod,
};

verus! {

// ---------------------------------------------------------------------------
// Small arithmetic helpers
// ---------------------------------------------------------------------------

/// Wrap an integer into an 8-bit register value.
pub open spec fn wrap8(v: int) -> u8 {
    (v % 256) as u8
}

/// Wrap an integer into a 16-bit value.
pub open spec fn wrap16(v: int) -> u16 {
    (v % 65536) as u16
}

/// A memory address formed from the index register and an offset. The index
/// register effectively addresses a 12-bit space, so addresses wrap modulo
/// the memory size.
pub open spec fn wrap_addr(base: u16, off: int) -> int {
    (base + off) % 4096
}

// ---------------------------------------------------------------------------
// The pseudo-random byte source
// ---------------------------------------------------------------------------

/// One step of a 64-bit xorshift generator. A real pseudo-random source for
/// the random instruction; any nonzero state stays nonzero.
pub open spec fn next_rng(s: u64) -> u64 {
    let a = s ^ (s << 13);
    let b = a ^ (a >> 7);
    b ^ (b << 17)
}

/// The byte drawn from one generator step.
pub open spec fn rng_byte(s: u64) -> u8 {
    (next_rng(s) & 0xFF) as u8
}

// ---------------------------------------------------------------------------
// Per-instruction register arithmetic
// ---------------------------------------------------------------------------

/// Wrapping 8-bit sum: add-with-carry produces `(a + b) mod 256`.
pub open spec fn add_result(a: u8, b: u8) -> u8 {
    wrap8(a + b)
}

/// The carry flag of add-with-carry: 1 iff the unsigned sum exceeds 255.
pub open spec fn carry_flag(a: u8, b: u8) -> u8 {
    if a + b > 255 {
        1u8
    } else {
        0u8
    }
}

/// Wrapping 8-bit difference `a - b`.
pub open spec fn sub_result(a: u8, b: u8) -> u8 {
    wrap8(a - b)
}

/// The borrow-inverse flag of subtraction `a - b`: 1 iff `a >= b`, that is,
/// iff no borrow is needed.
pub open spec fn borrow_inverse_flag(a: u8, b: u8) -> u8 {
    if a >= b {
        1u8
    } else {
        0u8
    }
}

/// In the base architecture the logic operations reset the flag register as
/// a side effect; the extended dialects leave it untouched.
pub open spec fn logic_flag_quirk(regs: Seq<u8>, variant: Variant) -> Seq<u8> {
    if variant == Variant::CosmacVip {
        regs.update(15, 0u8)
    } else {
        regs
    }
}

/// The register a shift reads: the base architecture first copies register
/// `y` into register `x` and shifts that; the extended dialects shift
/// register `x` in place.
pub open spec fn shift_source(regs: Seq<u8>, x: u8, y: u8, variant: Variant) -> u8 {
    if variant == Variant::CosmacVip {
        regs[y as int]
    } else {
        regs[x as int]
    }
}

/// The glyph address of a character code: each built-in glyph is 5 bytes.
/// The base architecture masks the code to 4 bits; the extended dialects use
/// it unmasked.
pub open spec fn font_address(code: u8, variant: Variant) -> u16 {
    if variant == Variant::CosmacVip {
        (5 * (code & 0xF)) as u16
    } else {
        (5 * code) as u16
    }
}

// ---------------------------------------------------------------------------
// Key vector
// ---------------------------------------------------------------------------

/// Whether any key of the input vector is pressed.
pub open spec fn any_key_pressed(keys: Seq<bool>) -> bool {
    exists|k: int| 0 <= k < 16 && keys[k]
}

/// The lowest pressed key index at or above `k`, or 16 if none is.
pub open spec fn first_pressed_from(keys: Seq<bool>, k: int) -> int
    decreases 16 - k,
{
    if k < 0 || k >= 16 {
        16
    } else if keys[k] {
        k
    } else {
        first_pressed_from(keys, k + 1)
    }
}

/// The lowest pressed key index, or 16 if no key is pressed.
pub open spec fn first_pressed(keys: Seq<bool>) -> int {
    first_pressed_from(keys, 0)
}

/// Scanning past released keys does not change which key is found first.
pub proof fn lemma_first_pressed_skip(keys: Seq<bool>, j: int, k: int)
    requires
        0 <= j <= k <= 16,
        forall|t: int| j <= t < k ==> !keys[t],
    ensures
        first_pressed_from(keys, j) == first_pressed_from(keys, k),
    decreases k - j,
{
    if j < k {
        assert(!keys[j]);
        lemma_first_pressed_skip(keys, j + 1, k);
    }
}

// ---------------------------------------------------------------------------
// Bulk register transfers
// ---------------------------------------------------------------------------

/// Memory after storing registers `0 .. count` at the index register, one
/// byte per register, addresses wrapping modulo the memory size.
pub open spec fn store_regs_seq(mem: Seq<u8>, regs: Seq<u8>, base: u16, count: int) -> Seq<u8>
    decreases count,
{
    if count <= 0 {
        mem
    } else {
        store_regs_seq(mem, regs, base, count - 1).update(
            wrap_addr(base, count - 1),
            regs[count - 1],
        )
    }
}

/// Registers after loading registers `0 .. count` from memory at the index
/// register.
pub open spec fn load_regs_seq(regs: Seq<u8>, mem: Seq<u8>, base: u16, count: int) -> Seq<u8>
    decreases count,
{
    if count <= 0 {
        regs
    } else {
        load_regs_seq(regs, mem, base, count - 1).update(count - 1, mem[wrap_addr(base, count - 1)])
    }
}

/// Distinct offsets below the memory size wrap to distinct addresses.
pub proof fn lemma_wrap_addr_injective(base: u16, j: int, k: int)
    requires
        0 <= j < 4096,
        0 <= k < 4096,
        j != k,
    ensures
        wrap_addr(base, j) != wrap_addr(base, k),
{
    lemma_wrap_inverse(base as int, j, 4096);
    lemma_wrap_inverse(base as int, k, 4096);
}

/// A bulk store writes register `k` to the `k`-th wrapped address, for
/// every transferred register, and its result keeps the memory size.
pub proof fn lemma_store_regs_bytes(mem: Seq<u8>, regs: Seq<u8>, base: u16, count: int)
    requires
        mem.len() == 4096,
        0 <= count <= 16,
    ensures
        store_regs_seq(mem, regs, base, count).len() == 4096,
        forall|k: int|
            0 <= k < count ==> store_regs_seq(mem, regs, base, count)[wrap_addr(base, k)]
                == regs[k],
    decreases count,
{
    lemma_mod_bound(base + count - 1, 4096);
    if count > 0 {
        lemma_store_regs_bytes(mem, regs, base, count - 1);
        assert forall|k: int|
            0 <= k < count implies store_regs_seq(mem, regs, base, count)[wrap_addr(base, k)]
            == regs[k] by {
            if k < count - 1 {
                lemma_wrap_addr_injective(base, k, count - 1);
            }
        }
    }
}

/// A bulk load fills register `k` from the `k`-th wrapped address and
/// leaves the registers above the transferred range alone.
pub proof fn lemma_load_regs_values(regs: Seq<u8>, mem: Seq<u8>, base: u16, count: int)
    requires
        regs.len() == 16,
        0 <= count <= 16,
    ensures
        load_regs_seq(regs, mem, base, count).len() == 16,
        forall|k: int|
            0 <= k < count ==> load_regs_seq(regs, mem, base, count)[k] == mem[wrap_addr(base, k)],
        forall|j: int| count <= j < 16 ==> load_regs_seq(regs, mem, base, count)[j] == regs[j],
    decreases count,
{
    if count > 0 {
        lemma_load_regs_values(regs, mem, base, count - 1);
    }
}

// ---------------------------------------------------------------------------
// The draw-sprite transformation
// ---------------------------------------------------------------------------

/// Sprite pixel `c` of a sprite row byte, most-significant bit first.
pub open spec fn px_bit(b: u8, c: int) -> bool {
    (b >> ((7 - c) as u8)) & 1 == 1
}

/// The display row a sprite row lands in: coordinates wrap, not clip.
pub open spec fn wrap_row(y0: u8, i: int) -> int {
    (y0 + i) % 32
}

/// The display column a sprite column lands in.
pub open spec fn wrap_col(x0: u8, c: int) -> int {
    (x0 + c) % 64
}

/// Index of a grid cell in the row-major display sequence.
pub open spec fn cell_index(row: int, col: int) -> int {
    row * 64 + col
}

/// Sprite row byte `i`, read from memory at the index register.
pub open spec fn sprite_row_byte(mem: Seq<u8>, base: u16, i: int) -> u8 {
    mem[wrap_addr(base, i)]
}

/// The sprite row that covers grid cell `p` of a sprite starting at row
/// `y0`: the row distance, wrapped.
pub open spec fn hit_row(y0: u8, p: int) -> int {
    (p / 64 - y0) % 32
}

/// The sprite column that covers grid cell `p` of a sprite starting at
/// column `x0`: the column distance, wrapped.
pub open spec fn hit_col(x0: u8, p: int) -> int {
    (p % 64 - x0) % 64
}

/// The display after the sprite rows `0 .. done_row` have been applied in
/// full and, of row `done_row`, the columns `0 .. done_col`. Each applied
/// sprite pixel is XORed into the cell it wraps to; every other cell keeps
/// its prior state.
pub open spec fn partial_draw(
    screen: Seq<bool>,
    mem: Seq<u8>,
    base: u16,
    x0: u8,
    y0: u8,
    done_row: int,
    done_col: int,
) -> Seq<bool> {
    Seq::new(
        2048,
        |p: int|
            {
                let i = hit_row(y0, p);
                let c = hit_col(x0, p);
                if (i < done_row && c < 8) || (i == done_row && c < done_col) {
                    screen[p] != px_bit(sprite_row_byte(mem, base, i), c)
                } else {
                    screen[p]
                }
            },
    )
}

/// The display grid after drawing an `n`-row sprite whose top-left pixel is
/// at `(x0, y0)`.
pub open spec fn draw_post(
    screen: Seq<bool>,
    mem: Seq<u8>,
    base: u16,
    x0: u8,
    y0: u8,
    n: int,
) -> Seq<bool> {
    partial_draw(screen, mem, base, x0, y0, n, 0)
}

/// Whether some already-applied sprite pixel was set and found its target
/// cell already set: the staged collision condition matching `partial_draw`.
pub open spec fn partial_collision(
    screen: Seq<bool>,
    mem: Seq<u8>,
    base: u16,
    x0: u8,
    y0: u8,
    done_row: int,
    done_col: int,
) -> bool {
    exists|i: int, c: int|
        0 <= i && 0 <= c < 8 && (i < done_row || (i == done_row && c < done_col)) && px_bit(
            sprite_row_byte(mem, base, i),
            c,
        ) && screen[cell_index(wrap_row(y0, i), wrap_col(x0, c))]
}

/// Whether drawing an `n`-row sprite at `(x0, y0)` collides: some sprite
/// pixel is 1 and the cell it wraps to is already set.
pub open spec fn draw_collision(
    screen: Seq<bool>,
    mem: Seq<u8>,
    base: u16,
    x0: u8,
    y0: u8,
    n: int,
) -> bool {
    partial_collision(screen, mem, base, x0, y0, n, 0)
}

/// An all-clear display grid.
pub open spec fn blank_screen() -> Seq<bool> {
    Seq::new(2048, |p: int| false)
}

// ---------------------------------------------------------------------------
// Frame predicates: which parts of the machine an instruction leaves alone
// ---------------------------------------------------------------------------

/// No part of the machine moved.
pub open spec fn same_state(pre: Emulator, post: Emulator) -> bool {
    &&& post.registers@ == pre.registers@
    &&& post.i_register == pre.i_register
    &&& post.program_counter == pre.program_counter
    &&& post.stack@ == pre.stack@
    &&& post.memory@ == pre.memory@
    &&& post.display@ == pre.display@
    &&& post.keys@ == pre.keys@
    &&& post.delay_timer == pre.delay_timer
    &&& post.sound_timer == pre.sound_timer
    &&& post.rng_state == pre.rng_state
    &&& post.variant == pre.variant
}

/// Only registers, program counter or index register may have moved.
pub open spec fn frame_core(pre: Emulator, post: Emulator) -> bool {
    &&& post.stack@ == pre.stack@
    &&& post.memory@ == pre.memory@
    &&& post.display@ == pre.display@
    &&& post.keys@ == pre.keys@
    &&& post.delay_timer == pre.delay_timer
    &&& post.sound_timer == pre.sound_timer
    &&& post.rng_state == pre.rng_state
    &&& post.variant == pre.variant
}

/// As `frame_core`, but the call stack may also have moved.
pub open spec fn frame_stack(pre: Emulator, post: Emulator) -> bool {
    &&& post.memory@ == pre.memory@
    &&& post.display@ == pre.display@
    &&& post.keys@ == pre.keys@
    &&& post.delay_timer == pre.delay_timer
    &&& post.sound_timer == pre.sound_timer
    &&& post.rng_state == pre.rng_state
    &&& post.variant == pre.variant
}

/// As `frame_core`, but memory may also have moved.
pub open spec fn frame_memory(pre: Emulator, post: Emulator) -> bool {
    &&& post.stack@ == pre.stack@
    &&& post.display@ == pre.display@
    &&& post.keys@ == pre.keys@
    &&& post.delay_timer == pre.delay_timer
    &&& post.sound_timer == pre.sound_timer
    &&& post.rng_state == pre.rng_state
    &&& post.variant == pre.variant
}

/// As `frame_core`, but the display grid may also have moved.
pub open spec fn frame_display(pre: Emulator, post: Emulator) -> bool {
    &&& post.stack@ == pre.stack@
    &&& post.memory@ == pre.memory@
    &&& post.keys@ == pre.keys@
    &&& post.delay_timer == pre.delay_timer
    &&& post.sound_timer == pre.sound_timer
    &&& post.rng_state == pre.rng_state
    &&& post.variant == pre.variant
}

/// As `frame_core`, but the timers may also have moved.
pub open spec fn frame_timers(pre: Emulator, post: Emulator) -> bool {
    &&& post.stack@ == pre.stack@
    &&& post.memory@ == pre.memory@
    &&& post.display@ == pre.display@
    &&& post.keys@ == pre.keys@
    &&& post.rng_state == pre.rng_state
    &&& post.variant == pre.variant
}

/// As `frame_core`, but the random source may also have advanced.
pub open spec fn frame_rng(pre: Emulator, post: Emulator) -> bool {
    &&& post.stack@ == pre.stack@
    &&& post.memory@ == pre.memory@
    &&& post.display@ == pre.display@
    &&& post.keys@ == pre.keys@
    &&& post.delay_timer == pre.delay_timer
    &&& post.sound_timer == pre.sound_timer
    &&& post.variant == pre.variant
}

// ---------------------------------------------------------------------------
// The step relation
// ---------------------------------------------------------------------------

/// The 16-bit instruction word at the program counter, big-endian.
pub open spec fn spec_fetch(s: Emulator) -> u16 {
    ((s.memory@[s.program_counter as int] as u16) << 8) | (s.memory@[
        s.program_counter as int + 1
    ] as u16)
}

/// The complete transition relation of one execution step: fetch the word at
/// the program counter, advance the counter by 2, then apply the decoded
/// instruction's semantics. A fetch outside memory, a call on a full stack
/// and a return on an empty stack leave the machine unchanged and report the
/// fault.
pub open spec fn step_rel(pre: Emulator, post: Emulator, r: StepResult) -> bool {
    if pre.program_counter as int + 1 >= pre.memory@.len() {
        &&& same_state(pre, post)
        &&& r == (StepResult::Fault { fault: ProgramFault::OutOfBounds })
    } else {
        instr_rel(pre, post, r, spec_fetch(pre))
    }
}

/// The per-opcode semantics, applied after the program counter has already
/// advanced past the fetched word `w`.
pub open spec fn instr_rel(pre: Emulator, post: Emulator, r: StepResult, w: u16) -> bool {
    let pc2 = (pre.program_counter + 2) as u16;
    let regs = pre.registers@;
    match spec_decode(w) {
        Instruction::ClearScreen => {
            &&& frame_display(pre, post)
            &&& post.display@ == blank_screen()
            &&& post.registers@ == regs
            &&& post.i_register == pre.i_register
            &&& post.program_counter == pc2
            &&& r == StepResult::Executed
        },
        Instruction::Return => {
            if pre.stack@.len() == 0 {
                &&& same_state(pre, post)
                &&& r == (StepResult::Fault { fault: ProgramFault::StackUnderflow })
            } else {
                &&& frame_stack(pre, post)
                &&& post.stack@ == pre.stack@.drop_last()
                &&& post.registers@ == regs
                &&& post.i_register == pre.i_register
                &&& post.program_counter == pre.stack@.last()
                &&& r == StepResult::Executed
            }
        },
        Instruction::Jump { nnn } => {
            &&& frame_core(pre, post)
            &&& post.registers@ == regs
            &&& post.i_register == pre.i_register
            &&& post.program_counter == nnn
            &&& r == StepResult::Executed
        },
        Instruction::Call { nnn } => {
            if pre.stack@.len() >= 16 {
                &&& same_state(pre, post)
                &&& r == (StepResult::Fault { fault: ProgramFault::StackOverflow })
            } else {
                &&& frame_stack(pre, post)
                &&& post.stack@ == pre.stack@.push(pc2)
                &&& post.registers@ == regs
                &&& post.i_register == pre.i_register
                &&& post.program_counter == nnn
                &&& r == StepResult::Executed
            }
        },
        Instruction::SkipEqImm { x, kk } => {
            &&& frame_core(pre, post)
            &&& post.registers@ == regs
            &&& post.i_register == pre.i_register
            &&& post.program_counter == (if regs[x as int] == kk {
                (pc2 + 2) as u16
            } else {
                pc2
            })
            &&& r == StepResult::Executed
        },
        Instruction::SkipNeImm { x, kk } => {
            &&& frame_core(pre, post)
            &&& post.registers@ == regs
            &&& post.i_register == pre.i_register
            &&& post.program_counter == (if regs[x as int] != kk {
                (pc2 + 2) as u16
            } else {
                pc2
            })
            &&& r == StepResult::Executed
        },
        Instruction::SkipEqReg { x, y } => {
            &&& frame_core(pre, post)
            &&& post.registers@ == regs
            &&& post.i_register == pre.i_register
            &&& post.program_counter == (if regs[x as int] == regs[y as int] {
                (pc2 + 2) as u16
            } else {
                pc2
            })
            &&& r == StepResult::Executed
        },
        Instruction::LoadImm { x, kk } => {
            &&& frame_core(pre, post)
            &&& post.registers@ == regs.update(x as int, kk)
            &&& post.i_register == pre.i_register
            &&& post.program_counter == pc2
            &&& r == StepResult::Executed
        },
        Instruction::AddImm { x, kk } => {
            &&& frame_core(pre, post)
            &&& post.registers@ == regs.update(x as int, add_result(regs[x as int], kk))
            &&& post.i_register == pre.i_register
            &&& post.program_counter == pc2
            &&& r == StepResult::Executed
        },
        Instruction::Move { x, y } => {
            &&& frame_core(pre, post)
            &&& post.registers@ == regs.update(x as int, regs[y as int])
            &&& post.i_register == pre.i_register
            &&& post.program_counter == pc2
            &&& r == StepResult::Executed
        },
        Instruction::Or { x, y } => {
            &&& frame_core(pre, post)
            &&& post.registers@ == logic_flag_quirk(
                regs.update(x as int, regs[x as int] | regs[y as int]),
                pre.variant,
            )
            &&& post.i_register == pre.i_register
            &&& post.program_counter == pc2
            &&& r == StepResult::Executed
        },
        Instruction::And { x, y } => {
            &&& frame_core(pre, post)
            &&& post.registers@ == logic_flag_quirk(
                regs.update(x as int, regs[x as int] & regs[y as int]),
                pre.variant,
            )
            &&& post.i_register == pre.i_register
            &&& post.program_counter == pc2
            &&& r == StepResult::Executed
        },
        Instruction::Xor { x, y } => {
            &&& frame_core(pre, post)
            &&& post.registers@ == logic_flag_quirk(
                regs.update(x as int, regs[x as int] ^ regs[y as int]),
                pre.variant,
            )
            &&& post.i_register == pre.i_register
            &&& post.program_counter == pc2
            &&& r == StepResult::Executed
        },
        Instruction::AddCarry { x, y } => {
            &&& frame_core(pre, post)
            &&& post.registers@ == regs.update(
                x as int,
                add_result(regs[x as int], regs[y as int]),
            ).update(15, carry_flag(regs[x as int], regs[y as int]))
            &&& post.i_register == pre.i_register
            &&& post.program_counter == pc2
            &&& r == StepResult::Executed
        },
        Instruction::Sub { x, y } => {
            &&& frame_core(pre, post)
            &&& post.registers@ == regs.update(
                x as int,
                sub_result(regs[x as int], regs[y as int]),
            ).update(15, borrow_inverse_flag(regs[x as int], regs[y as int]))
            &&& post.i_register == pre.i_register
            &&& post.program_counter == pc2
            &&& r == StepResult::Executed
        },
        Instruction::ShiftRight { x, y } => {
            let src = shift_source(regs, x, y, pre.variant);
            &&& frame_core(pre, post)
            &&& post.registers@ == regs.update(x as int, src >> 1u8).update(15, src & 1)
            &&& post.i_register == pre.i_register
            &&& post.program_counter == pc2
            &&& r == StepResult::Executed
        },
        Instruction::SubReverse { x, y } => {
            &&& frame_core(pre, post)
            &&& post.registers@ == regs.update(
                x as int,
                sub_result(regs[y as int], regs[x as int]),
            ).update(15, borrow_inverse_flag(regs[y as int], regs[x as int]))
            &&& post.i_register == pre.i_register
            &&& post.program_counter == pc2
            &&& r == StepResult::Executed
        },
        Instruction::ShiftLeft { x, y } => {
            let src = shift_source(regs, x, y, pre.variant);
            &&& frame_core(pre, post)
            &&& post.registers@ == regs.update(x as int, wrap8(2 * src)).update(
                15,
                if src >= 128 {
                    1u8
                } else {
                    0u8
                },
            )
            &&& post.i_register == pre.i_register
            &&& post.program_counter == pc2
            &&& r == StepResult::Executed
        },
        Instruction::SkipNeReg { x, y } => {
            &&& frame_core(pre, post)
            &&& post.registers@ == regs
            &&& post.i_register == pre.i_register
            &&& post.program_counter == (if regs[x as int] != regs[y as int] {
                (pc2 + 2) as u16
            } else {
                pc2
            })
            &&& r == StepResult::Executed
        },
        Instruction::SetIndex { nnn } => {
            &&& frame_core(pre, post)
            &&& post.registers@ == regs
            &&& post.i_register == nnn
            &&& post.program_counter == pc2
            &&& r == StepResult::Executed
        },
        Instruction::JumpIndexed { nnn } => {
            &&& frame_core(pre, post)
            &&& post.registers@ == regs
            &&& post.i_register == pre.i_register
            &&& post.program_counter == wrap16(nnn + regs[0])
            &&& r == StepResult::Executed
        },
        Instruction::Random { x, kk } => {
            &&& frame_rng(pre, post)
            &&& post.rng_state == next_rng(pre.rng_state)
            &&& post.registers@ == regs.update(x as int, rng_byte(pre.rng_state) & kk)
            &&& post.i_register == pre.i_register
            &&& post.program_counter == pc2
            &&& r == StepResult::Executed
        },
        Instruction::Draw { x, y, n } => {
            let coll = draw_collision(
                pre.display@,
                pre.memory@,
                pre.i_register,
                regs[x as int],
                regs[y as int],
                n as int,
            );
            &&& frame_display(pre, post)
            &&& post.display@ == draw_post(
                pre.display@,
                pre.memory@,
                pre.i_register,
                regs[x as int],
                regs[y as int],
                n as int,
            )
            &&& post.registers@ == regs.update(
                15,
                if coll {
                    1u8
                } else {
                    0u8
                },
            )
            &&& post.i_register == pre.i_register
            &&& post.program_counter == pc2
            &&& r == StepResult::Executed
        },
        Instruction::SkipKey { x } => {
            &&& frame_core(pre, post)
            &&& post.registers@ == regs
            &&& post.i_register == pre.i_register
            &&& post.program_counter == (if pre.keys@[(regs[x as int] & 0xF) as int] {
                (pc2 + 2) as u16
            } else {
                pc2
            })
            &&& r == StepResult::Executed
        },
        Instruction::SkipNoKey { x } => {
            &&& frame_core(pre, post)
            &&& post.registers@ == regs
            &&& post.i_register == pre.i_register
            &&& post.program_counter == (if !pre.keys@[(regs[x as int] & 0xF) as int] {
                (pc2 + 2) as u16
            } else {
                pc2
            })
            &&& r == StepResult::Executed
        },
        Instruction::LoadDelay { x } => {
            &&& frame_core(pre, post)
            &&& post.registers@ == regs.update(x as int, pre.delay_timer)
            &&& post.i_register == pre.i_register
            &&& post.program_counter == pc2
            &&& r == StepResult::Executed
        },
        Instruction::WaitKey { x } => {
            if any_key_pressed(pre.keys@) {
                &&& frame_core(pre, post)
                &&& post.registers@ == regs.update(x as int, first_pressed(pre.keys@) as u8)
                &&& post.i_register == pre.i_register
                &&& post.program_counter == pc2
                &&& r == StepResult::Executed
            } else {
                &&& same_state(pre, post)
                &&& r == StepResult::WaitingForKey
            }
        },
        Instruction::SetDelay { x } => {
            &&& frame_timers(pre, post)
            &&& post.delay_timer == regs[x as int]
            &&& post.sound_timer == pre.sound_timer
            &&& post.registers@ == regs
            &&& post.i_register == pre.i_register
            &&& post.program_counter == pc2
            &&& r == StepResult::Executed
        },
        Instruction::SetSound { x } => {
            &&& frame_timers(pre, post)
            &&& post.sound_timer == regs[x as int]
            &&& post.delay_timer == pre.delay_timer
            &&& post.registers@ == regs
            &&& post.i_register == pre.i_register
            &&& post.program_counter == pc2
            &&& r == StepResult::Executed
        },
        Instruction::AddIndex { x } => {
            &&& frame_core(pre, post)
            &&& post.registers@ == regs
            &&& post.i_register == wrap16(pre.i_register + regs[x as int])
            &&& post.program_counter == pc2
            &&& r == StepResult::Executed
        },
        Instruction::FontChar { x } => {
            &&& frame_core(pre, post)
            &&& post.registers@ == regs
            &&& post.i_register == font_address(regs[x as int], pre.variant)
            &&& post.program_counter == pc2
            &&& r == StepResult::Executed
        },
        Instruction::StoreDigits { x } => {
            let v = regs[x as int];
            &&& frame_memory(pre, post)
            &&& post.memory@ == pre.memory@.update(
                wrap_addr(pre.i_register, 0),
                ((v as int) / 100) as u8,
            ).update(wrap_addr(pre.i_register, 1), (((v as int) % 100) / 10) as u8).update(
                wrap_addr(pre.i_register, 2),
                ((v as int) % 10) as u8,
            )
            &&& post.registers@ == regs
            &&& post.i_register == pre.i_register
            &&& post.program_counter == pc2
            &&& r == StepResult::Executed
        },
        Instruction::StoreRegs { x } => {
            &&& frame_memory(pre, post)
            &&& post.memory@ == store_regs_seq(pre.memory@, regs, pre.i_register, x as int + 1)
            &&& post.registers@ == regs
            &&& post.i_register == (if pre.variant == Variant::CosmacVip {
                wrap16(pre.i_register + x + 1)
            } else {
                pre.i_register
            })
            &&& post.program_counter == pc2
            &&& r == StepResult::Executed
        },
        Instruction::LoadRegs { x } => {
            &&& frame_core(pre, post)
            &&& post.registers@ == load_regs_seq(regs, pre.memory@, pre.i_register, x as int + 1)
            &&& post.i_register == (if pre.variant == Variant::CosmacVip {
                wrap16(pre.i_register + x + 1)
            } else {
                pre.i_register
            })
            &&& post.program_counter == pc2
            &&& r == StepResult::Executed
        },
        Instruction::Unknown { word } => {
            &&& frame_core(pre, post)
            &&& post.registers@ == regs
            &&& post.i_register == pre.i_register
            &&& post.program_counter == pc2
            &&& r == (StepResult::UnknownOpcode { word })
        },
    }
}

// ---------------------------------------------------------------------------
// Wraparound coordinate lemmas
// ---------------------------------------------------------------------------

/// An offset below the modulus is recovered from the wrapped coordinate:
/// subtracting the start and wrapping again gives the offset back.
pub proof fn lemma_wrap_inverse(a: int, i: int, m: int)
    requires
        0 < m,
        0 <= i < m,
        0 <= a,
    ensures
        ((a + i) % m - a) % m == i,
{
    let s = (a + i) % m;
    let q = (a + i) / m;
    lemma_fundamental_div_mod(a + i, m);
    assert(s - a == m * (-q) + i) by (nonlinear_arith)
        requires
            a + i == m * q + s,
    ;
    lemma_mod_multiples_vanish(-q, i, m);
    lemma_small_mod(i as nat, m as nat);
}

/// A wrapped coordinate determines the cell: adding the recovered offset to
/// the start and wrapping lands on the coordinate again.
pub proof fn lemma_wrap_determines(a: int, r: int, m: int)
    requires
        0 < m,
        0 <= r < m,
        0 <= a,
    ensures
        (a + ((r - a) % m)) % m == r,
{
    let d = (r - a) % m;
    let q = (r - a) / m;
    lemma_fundamental_div_mod(r - a, m);
    lemma_mod_bound(r - a, m);
    assert(a + d == m * (-q) + r) by (nonlinear_arith)
        requires
            r - a == m * q + d,
    ;
    lemma_mod_multiples_vanish(-q, r, m);
    lemma_small_mod(r as nat, m as nat);
}

/// Sprite coordinates and grid cells correspond one to one: sprite position
/// `(i, c)` wraps to exactly one cell, and that cell decomposes back to
/// `(i, c)` and to no other sprite position.
pub proof fn lemma_cell_bijection(x0: u8, y0: u8, i: int, c: int)
    requires
        0 <= i < 32,
        0 <= c < 64,
    ensures
        ({
            let p = cell_index(wrap_row(y0, i), wrap_col(x0, c));
            &&& 0 <= p < 2048
            &&& p / 64 == wrap_row(y0, i)
            &&& p % 64 == wrap_col(x0, c)
            &&& hit_row(y0, p) == i
            &&& hit_col(x0, p) == c
            &&& forall|q: int|
                0 <= q < 2048 && #[trigger] hit_row(y0, q) == i && #[trigger] hit_col(x0, q) == c
                    ==> q == p
        }),
{
    let row = wrap_row(y0, i);
    let col = wrap_col(x0, c);
    lemma_mod_bound(y0 + i, 32);
    lemma_mod_bound(x0 + c, 64);
    let p = cell_index(row, col);
    lemma_fundamental_div_mod_converse(p, 64, row, col);
    lemma_wrap_inverse(y0 as int, i, 32);
    lemma_wrap_inverse(x0 as int, c, 64);
    assert forall|q: int|
        0 <= q < 2048 && #[trigger] hit_row(y0, q) == i && #[trigger] hit_col(x0, q) == c
            implies q == p by {
        let qr = q / 64;
        let qc = q % 64;
        lemma_fundamental_div_mod(q, 64);
        lemma_mod_bound(q, 64);
        lemma_wrap_determines(y0 as int, qr, 32);
        lemma_wrap_determines(x0 as int, qc, 64);
    }
}

// ---------------------------------------------------------------------------
// Staging lemmas for the draw transformation
// ---------------------------------------------------------------------------

/// Before any sprite pixel is applied, the staged display is the prior
/// display.
pub proof fn lemma_draw_start(screen: Seq<bool>, mem: Seq<u8>, base: u16, x0: u8, y0: u8)
    requires
        screen.len() == 2048,
    ensures
        partial_draw(screen, mem, base, x0, y0, 0, 0) == screen,
        !partial_collision(screen, mem, base, x0, y0, 0, 0),
{
    assert forall|p: int| 0 <= p < 2048 implies partial_draw(screen, mem, base, x0, y0, 0, 0)[p]
        == screen[p] by {
        lemma_mod_bound(p / 64 - y0, 32);
        lemma_mod_bound(p % 64 - x0, 64);
    }
    assert(partial_draw(screen, mem, base, x0, y0, 0, 0) =~= screen);
    if partial_collision(screen, mem, base, x0, y0, 0, 0) {
        let (i0, c0) = choose|i0: int, c0: int|
            0 <= i0 && 0 <= c0 < 8 && (i0 < 0 || (i0 == 0 && c0 < 0)) && px_bit(
                sprite_row_byte(mem, base, i0),
                c0,
            ) && screen[cell_index(wrap_row(y0, i0), wrap_col(x0, c0))];
        assert(false);
    }
}

/// A fully applied sprite row is the same stage as the next row with no
/// columns applied yet.
pub proof fn lemma_draw_row_wrap(
    screen: Seq<bool>,
    mem: Seq<u8>,
    base: u16,
    x0: u8,
    y0: u8,
    i: int,
)
    requires
        0 <= i,
    ensures
        partial_draw(screen, mem, base, x0, y0, i + 1, 0) == partial_draw(
            screen,
            mem,
            base,
            x0,
            y0,
            i,
            8,
        ),
        partial_collision(screen, mem, base, x0, y0, i + 1, 0) == partial_collision(
            screen,
            mem,
            base,
            x0,
            y0,
            i,
            8,
        ),
{
    let a = partial_draw(screen, mem, base, x0, y0, i + 1, 0);
    let b = partial_draw(screen, mem, base, x0, y0, i, 8);
    assert forall|p: int| 0 <= p < 2048 implies a[p] == b[p] by {
        lemma_mod_bound(p / 64 - y0, 32);
        lemma_mod_bound(p % 64 - x0, 64);
    }
    assert(a =~= b);
    if partial_collision(screen, mem, base, x0, y0, i + 1, 0) {
        let (i0, c0) = choose|i0: int, c0: int|
            0 <= i0 && 0 <= c0 < 8 && (i0 < i + 1 || (i0 == i + 1 && c0 < 0)) && px_bit(
                sprite_row_byte(mem, base, i0),
                c0,
            ) && screen[cell_index(wrap_row(y0, i0), wrap_col(x0, c0))];
        assert(i0 < i || (i0 == i && c0 < 8));
        assert(partial_collision(screen, mem, base, x0, y0, i, 8));
    }
    if partial_collision(screen, mem, base, x0, y0, i, 8) {
        let (i0, c0) = choose|i0: int, c0: int|
            0 <= i0 && 0 <= c0 < 8 && (i0 < i || (i0 == i && c0 < 8)) && px_bit(
                sprite_row_byte(mem, base, i0),
                c0,
            ) && screen[cell_index(wrap_row(y0, i0), wrap_col(x0, c0))];
        assert(i0 < i + 1 || (i0 == i + 1 && c0 < 0));
        assert(partial_collision(screen, mem, base, x0, y0, i + 1, 0));
    }
}

/// Applying one more sprite pixel extends the staged collision condition by
/// exactly that pixel's contribution.
pub proof fn lemma_collision_extend(
    screen: Seq<bool>,
    mem: Seq<u8>,
    base: u16,
    x0: u8,
    y0: u8,
    i: int,
    c: int,
)
    requires
        0 <= i,
        0 <= c < 8,
    ensures
        partial_collision(screen, mem, base, x0, y0, i, c + 1) == (partial_collision(
            screen,
            mem,
            base,
            x0,
            y0,
            i,
            c,
        ) || (px_bit(sprite_row_byte(mem, base, i), c) && screen[cell_index(
            wrap_row(y0, i),
            wrap_col(x0, c),
        )])),
{
    if partial_collision(screen, mem, base, x0, y0, i, c + 1) {
        let (i0, c0) = choose|i0: int, c0: int|
            0 <= i0 && 0 <= c0 < 8 && (i0 < i || (i0 == i && c0 < c + 1)) && px_bit(
                sprite_row_byte(mem, base, i0),
                c0,
            ) && screen[cell_index(wrap_row(y0, i0), wrap_col(x0, c0))];
        if i0 < i || (i0 == i && c0 < c) {
            assert(partial_collision(screen, mem, base, x0, y0, i, c));
        } else {
            assert(i0 == i && c0 == c);
        }
    }
    if partial_collision(screen, mem, base, x0, y0, i, c) {
        let (i0, c0) = choose|i0: int, c0: int|
            0 <= i0 && 0 <= c0 < 8 && (i0 < i || (i0 == i && c0 < c)) && px_bit(
                sprite_row_byte(mem, base, i0),
                c0,
            ) && screen[cell_index(wrap_row(y0, i0), wrap_col(x0, c0))];
        assert(partial_collision(screen, mem, base, x0, y0, i, c + 1));
    }
    if px_bit(sprite_row_byte(mem, base, i), c) && screen[cell_index(
        wrap_row(y0, i),
        wrap_col(x0, c),
    )] {
        assert(0 <= i && 0 <= c < 8 && (i < i || (i == i && c < c + 1)) && px_bit(
            sprite_row_byte(mem, base, i),
            c,
        ) && screen[cell_index(wrap_row(y0, i), wrap_col(x0, c))]);
        assert(partial_collision(screen, mem, base, x0, y0, i, c + 1));
    }
}

} // verus!
