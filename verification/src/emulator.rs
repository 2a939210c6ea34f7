use vstd::prelude::*;

use crate::decode::{decode, lemma_fields_bounded, Instruction};
use crate::semantics;

verus! {

/// Behavioral dialect of the instruction set. Selected once, at load time,
/// and immutable for the life of one machine instance.
///
/// The dialects differ in a small fixed set of quirks: flag reset on the
/// logic operations, the source register of the shifts, masking of the font
/// character code, and whether a bulk register transfer advances the index
/// register.
#[derive(Clone, Copy, PartialEq, Eq, Structural, Debug)]
pub enum Variant {
    CosmacVip,
    SuperChip,
    SuperChipExtended,
}

/// A fatal condition of the running machine instance. The execution loop
/// terminates cleanly instead of corrupting state.
#[derive(Clone, Copy, PartialEq, Eq, Structural, Debug)]
pub enum ProgramFault {
    /// A subroutine call found the call stack already full.
    StackOverflow,
    /// A subroutine return found the call stack empty.
    StackUnderflow,
    /// The program counter would dereference outside the memory bounds.
    OutOfBounds,
}

/// The outcome of executing one instruction.
#[derive(Clone, Copy, PartialEq, Eq, Structural, Debug)]
pub enum StepResult {
    /// The instruction executed and the machine advanced.
    Executed,
    /// The word matched no defined handler: a reported no-op; execution
    /// continues.
    UnknownOpcode { word: u16 },
    /// A wait-for-key instruction found no key pressed. The machine is
    /// unchanged; the caller should sample the key vector again after a
    /// bounded pause.
    WaitingForKey,
    /// A fatal condition: the machine is unchanged and must be stopped.
    Fault { fault: ProgramFault },
}

/// Bytes of addressable memory.
pub const MEMORY_SIZE: usize = 4096;

/// Width of the display grid in pixels.
pub const GRID_WIDTH: usize = 64;

/// Height of the display grid in pixels.
pub const GRID_HEIGHT: usize = 32;

/// Number of cells of the display grid.
pub const GRID_CELLS: usize = 64 * 32;

/// Number of general-purpose registers.
pub const NUM_REGISTERS: usize = 16;

/// Number of keys of the input vector.
pub const NUM_KEYS: usize = 16;

/// Capacity of the call stack.
pub const STACK_CAPACITY: usize = 16;

/// Offset at which the program image is placed and execution begins.
pub const PROGRAM_START: u16 = 0x200;

/// Largest program image that fits between the load offset and the end of
/// memory.
pub const MAX_PROGRAM_BYTES: usize = 4096 - 0x200;

/// The whole mutable state of one virtual machine instance.
///
/// The state is plain data: instruction execution, timer ticks and key
/// updates are explicit calls, so a driver may share one value behind a
/// reader/writer lock and give each concurrent task the scoped access the
/// concurrency contract asks for.
pub struct Emulator {
    /// 16 general-purpose 8-bit registers; register 15 is the flag register.
    pub registers: Vec<u8>,
    /// The 16-bit index register, addressing a 12-bit memory space.
    pub i_register: u16,
    /// Offset into memory of the next instruction to fetch.
    pub program_counter: u16,
    /// Return addresses of active subroutine calls, most recent last.
    pub stack: Vec<u16>,
    /// Addressable memory: glyph table, then the program image at 0x200.
    pub memory: Vec<u8>,
    /// The monochrome pixel grid, row-major, `row * 64 + col`.
    pub display: Vec<bool>,
    /// The 16-entry key vector, written by an external input collaborator.
    pub keys: Vec<bool>,
    /// Delay timer counter, decremented once per tick while running.
    pub delay_timer: u8,
    /// Sound timer counter; nonzero means "should be sounding".
    pub sound_timer: u8,
    /// State of the pseudo-random byte source.
    pub rng_state: u64,
    /// The architecture dialect this instance executes.
    pub variant: Variant,
}

impl Emulator {
    /// The structural invariant: every fixed-capacity part of the machine
    /// has its architectural size.
    pub open spec fn wf(&self) -> bool {
        &&& self.registers@.len() == 16
        &&& self.stack@.len() <= 16
        &&& self.memory@.len() == 4096
        &&& self.display@.len() == 2048
        &&& self.keys@.len() == 16
    }

    /// A fresh machine: everything zeroed, the program counter at the load
    /// offset, and the random source seeded (a zero seed is replaced by a
    /// fixed odd constant, since an all-zero state would make the generator
    /// degenerate).
    pub fn new(variant: Variant, seed: u64) -> (r: Emulator)
        ensures
            r.wf(),
            forall|i: int| 0 <= i < 16 ==> r.registers@[i] == 0,
            r.i_register == 0,
            r.program_counter == 0x200,
            r.stack@.len() == 0,
            forall|a: int| 0 <= a < 4096 ==> r.memory@[a] == 0,
            forall|p: int| 0 <= p < 2048 ==> r.display@[p] == false,
            forall|k: int| 0 <= k < 16 ==> r.keys@[k] == false,
            r.delay_timer == 0,
            r.sound_timer == 0,
            r.rng_state == (if seed == 0 { 0x9E3779B97F4A7C15u64 } else { seed }),
            r.rng_state != 0,
            r.variant == variant,
    {
        let rng_state: u64 = if seed == 0 { 0x9E3779B97F4A7C15 } else { seed };
        Emulator {
            registers: filled(16, 0u8),
            i_register: 0,
            program_counter: 0x200,
            stack: Vec::new(),
            memory: filled(4096, 0u8),
            display: filled(2048, false),
            keys: filled(16, false),
            delay_timer: 0,
            sound_timer: 0,
            rng_state,
            variant,
        }
    }

    /// Record one key of the input vector as pressed or released. This is
    /// the whole write interface of the external input collaborator; no
    /// other part of the machine moves.
    pub fn set_key(&mut self, key: usize, pressed: bool)
        requires
            old(self).wf(),
            key < 16,
        ensures
            final(self).wf(),
            final(self).keys@ == old(self).keys@.update(key as int, pressed),
            final(self).registers@ == old(self).registers@,
            final(self).i_register == old(self).i_register,
            final(self).program_counter == old(self).program_counter,
            final(self).stack@ == old(self).stack@,
            final(self).memory@ == old(self).memory@,
            final(self).display@ == old(self).display@,
            final(self).delay_timer == old(self).delay_timer,
            final(self).sound_timer == old(self).sound_timer,
            final(self).rng_state == old(self).rng_state,
            final(self).variant == old(self).variant,
    {
        self.keys[key] = pressed;
    }

    /// Zero every cell of the display grid; nothing else moves.
    pub fn clear_screen(&mut self)
        requires
            old(self).wf(),
        ensures
            final(self).wf(),
            final(self).display@ == semantics::blank_screen(),
            semantics::frame_display(*old(self), *final(self)),
            final(self).registers@ == old(self).registers@,
            final(self).i_register == old(self).i_register,
            final(self).program_counter == old(self).program_counter,
    {
        self.display = filled(2048, false);
        proof {
            assert(self.display@ =~= semantics::blank_screen());
        }
    }

    /// Draw an `n`-row sprite read from memory at the index register, at the
    /// coordinates held in registers `reg1` and `reg2`. Each sprite byte is
    /// 8 horizontal pixels, most-significant bit first; coordinates wrap
    /// modulo the grid size; every sprite pixel is XORed into its cell. The
    /// result reports whether any set sprite pixel landed on an already-set
    /// cell.
    pub fn draw_sprite(&mut self, reg1: usize, reg2: usize, n: u16) -> (collision: bool)
        requires
            old(self).wf(),
            reg1 < 16,
            reg2 < 16,
            n <= 15,
        ensures
            final(self).wf(),
            semantics::frame_display(*old(self), *final(self)),
            final(self).registers@ == old(self).registers@,
            final(self).i_register == old(self).i_register,
            final(self).program_counter == old(self).program_counter,
            final(self).display@ == semantics::draw_post(
                old(self).display@,
                old(self).memory@,
                old(self).i_register,
                old(self).registers@[reg1 as int],
                old(self).registers@[reg2 as int],
                n as int,
            ),
            collision == semantics::draw_collision(
                old(self).display@,
                old(self).memory@,
                old(self).i_register,
                old(self).registers@[reg1 as int],
                old(self).registers@[reg2 as int],
                n as int,
            ),
    {
        let x0 = self.registers[reg1];
        let y0 = self.registers[reg2];
        let count = n as usize;
        let ghost screen0 = self.display@;
        let ghost mem0 = self.memory@;
        let ghost base = self.i_register;
        let mut collision = false;
        let mut i: usize = 0;
        proof {
            semantics::lemma_draw_start(screen0, mem0, base, x0, y0);
        }
        while i < count
            invariant
                self.wf(),
                i <= count,
                count == n,
                n <= 15,
                x0 == old(self).registers@[reg1 as int],
                y0 == old(self).registers@[reg2 as int],
                screen0 == old(self).display@,
                mem0 == old(self).memory@,
                base == old(self).i_register,
                semantics::frame_display(*old(self), *self),
                self.registers@ == old(self).registers@,
                self.i_register == old(self).i_register,
                self.program_counter == old(self).program_counter,
                self.display@ == semantics::partial_draw(
                    screen0,
                    mem0,
                    base,
                    x0,
                    y0,
                    i as int,
                    0,
                ),
                collision == semantics::partial_collision(
                    screen0,
                    mem0,
                    base,
                    x0,
                    y0,
                    i as int,
                    0,
                ),
            decreases count - i,
        {
            let addr = (self.i_register as usize + i) % 4096;
            let sprite_line = self.memory[addr];
            proof {
                assert(sprite_line == semantics::sprite_row_byte(mem0, base, i as int));
            }
            let mut c: usize = 0;
            while c < 8
                invariant
                    self.wf(),
                    c <= 8,
                    i < count,
                    count == n,
                    n <= 15,
                    x0 == old(self).registers@[reg1 as int],
                    y0 == old(self).registers@[reg2 as int],
                    screen0 == old(self).display@,
                    mem0 == old(self).memory@,
                    base == old(self).i_register,
                    sprite_line == semantics::sprite_row_byte(mem0, base, i as int),
                    semantics::frame_display(*old(self), *self),
                    self.registers@ == old(self).registers@,
                    self.i_register == old(self).i_register,
                    self.program_counter == old(self).program_counter,
                    self.display@ == semantics::partial_draw(
                        screen0,
                        mem0,
                        base,
                        x0,
                        y0,
                        i as int,
                        c as int,
                    ),
                    collision == semantics::partial_collision(
                        screen0,
                        mem0,
                        base,
                        x0,
                        y0,
                        i as int,
                        c as int,
                    ),
                decreases 8 - c,
            {
                let row = (y0 as usize + i) % 32;
                let col = (x0 as usize + c) % 64;
                let p = row * 64 + col;
                proof {
                    semantics::lemma_cell_bijection(x0, y0, i as int, c as int);
                    assert(row == semantics::wrap_row(y0, i as int));
                    assert(col == semantics::wrap_col(x0, c as int));
                    assert(p == semantics::cell_index(row as int, col as int));
                }
                let bit = ((sprite_line >> ((7 - c) as u8)) & 1) == 1;
                proof {
                    assert(bit == semantics::px_bit(sprite_line, c as int));
                    semantics::lemma_collision_extend(
                        screen0,
                        mem0,
                        base,
                        x0,
                        y0,
                        i as int,
                        c as int,
                    );
                }
                let prior = self.display[p];
                proof {
                    assert(prior == screen0[p as int]);
                }
                if bit {
                    if prior {
                        collision = true;
                    }
                    self.display[p] = !prior;
                }
                proof {
                    let pp = p as int;
                    assert forall|q: int| 0 <= q < 2048 implies self.display@[q]
                        == semantics::partial_draw(
                        screen0,
                        mem0,
                        base,
                        x0,
                        y0,
                        i as int,
                        c as int + 1,
                    )[q] by {
                        if q != pp {
                            assert(!(semantics::hit_row(y0, q) == i as int
                                && semantics::hit_col(x0, q) == c as int));
                        }
                    }
                    assert(self.display@ =~= semantics::partial_draw(
                        screen0,
                        mem0,
                        base,
                        x0,
                        y0,
                        i as int,
                        c as int + 1,
                    ));
                }
                c = c + 1;
            }
            proof {
                semantics::lemma_draw_row_wrap(screen0, mem0, base, x0, y0, i as int);
            }
            i = i + 1;
        }
        collision
    }

    /// Read one cell of the display grid; the read interface of the
    /// external render collaborator.
    pub fn pixel(&self, row: usize, col: usize) -> (r: bool)
        requires
            self.wf(),
            row < 32,
            col < 64,
        ensures
            r == self.display@[row as int * 64 + col as int],
    {
        self.display[row * 64 + col]
    }

    /// Find the lowest pressed key, the observation the wait-for-key
    /// instruction acts on.
    fn scan_keys(&self) -> (r: Option<u8>)
        requires
            self.wf(),
        ensures
            match r {
                Some(k) => {
                    &&& semantics::any_key_pressed(self.keys@)
                    &&& k < 16
                    &&& k as int == semantics::first_pressed(self.keys@)
                },
                None => !semantics::any_key_pressed(self.keys@),
            },
    {
        let mut k: usize = 0;
        while k < 16
            invariant
                self.wf(),
                k <= 16,
                forall|t: int| 0 <= t < k ==> !self.keys@[t],
            decreases 16 - k,
        {
            if self.keys[k] {
                proof {
                    semantics::lemma_first_pressed_skip(self.keys@, 0, k as int);
                }
                return Some(k as u8);
            }
            k = k + 1;
        }
        None
    }

    /// Store registers `0 ..= x` to memory at the index register; in the
    /// base architecture the index register then advances by `x + 1`.
    fn op_store_regs(&mut self, x: u8)
        requires
            old(self).wf(),
            x < 16,
        ensures
            final(self).wf(),
            semantics::frame_memory(*old(self), *final(self)),
            final(self).registers@ == old(self).registers@,
            final(self).program_counter == old(self).program_counter,
            final(self).memory@ == semantics::store_regs_seq(
                old(self).memory@,
                old(self).registers@,
                old(self).i_register,
                x as int + 1,
            ),
            final(self).i_register == (if old(self).variant == Variant::CosmacVip {
                semantics::wrap16(old(self).i_register + x + 1)
            } else {
                old(self).i_register
            }),
    {
        let cnt = x as usize + 1;
        let mut k: usize = 0;
        while k < cnt
            invariant
                self.wf(),
                k <= cnt,
                cnt == x as int + 1,
                x < 16,
                semantics::frame_memory(*old(self), *self),
                self.registers@ == old(self).registers@,
                self.i_register == old(self).i_register,
                self.program_counter == old(self).program_counter,
                self.memory@ == semantics::store_regs_seq(
                    old(self).memory@,
                    old(self).registers@,
                    old(self).i_register,
                    k as int,
                ),
            decreases cnt - k,
        {
            let addr = (self.i_register as usize + k) % 4096;
            let value = self.registers[k];
            self.memory[addr] = value;
            k = k + 1;
        }
        if self.variant == Variant::CosmacVip {
            self.i_register = ((self.i_register as u32 + x as u32 + 1) % 65536) as u16;
        }
    }

    /// Load registers `0 ..= x` from memory at the index register; in the
    /// base architecture the index register then advances by `x + 1`.
    fn op_load_regs(&mut self, x: u8)
        requires
            old(self).wf(),
            x < 16,
        ensures
            final(self).wf(),
            semantics::frame_core(*old(self), *final(self)),
            final(self).program_counter == old(self).program_counter,
            final(self).registers@ == semantics::load_regs_seq(
                old(self).registers@,
                old(self).memory@,
                old(self).i_register,
                x as int + 1,
            ),
            final(self).i_register == (if old(self).variant == Variant::CosmacVip {
                semantics::wrap16(old(self).i_register + x + 1)
            } else {
                old(self).i_register
            }),
    {
        let cnt = x as usize + 1;
        let mut k: usize = 0;
        while k < cnt
            invariant
                self.wf(),
                k <= cnt,
                cnt == x as int + 1,
                x < 16,
                semantics::frame_core(*old(self), *self),
                self.i_register == old(self).i_register,
                self.program_counter == old(self).program_counter,
                self.registers@ == semantics::load_regs_seq(
                    old(self).registers@,
                    old(self).memory@,
                    old(self).i_register,
                    k as int,
                ),
            decreases cnt - k,
        {
            let addr = (self.i_register as usize + k) % 4096;
            let value = self.memory[addr];
            self.registers[k] = value;
            k = k + 1;
        }
        if self.variant == Variant::CosmacVip {
            self.i_register = ((self.i_register as u32 + x as u32 + 1) % 65536) as u16;
        }
    }

    /// Execute one instruction: fetch the big-endian word at the program
    /// counter, advance the counter by 2, then apply the decoded
    /// instruction's state transition. The whole observable behavior is
    /// pinned by the step relation of the semantics module.
    pub fn execute_instruction(&mut self) -> (r: StepResult)
        requires
            old(self).wf(),
        ensures
            final(self).wf(),
            semantics::step_rel(*old(self), *final(self), r),
    {
        if self.program_counter as usize + 1 >= self.memory.len() {
            return StepResult::Fault { fault: ProgramFault::OutOfBounds };
        }
        let pc = self.program_counter as usize;
        let hi = self.memory[pc];
        let lo = self.memory[pc + 1];
        let w: u16 = ((hi as u16) << 8) | (lo as u16);
        proof {
            assert(w == semantics::spec_fetch(*old(self)));
            lemma_fields_bounded(w);
        }
        self.program_counter = self.program_counter + 2;
        let instr = decode(w);
        match instr {
            Instruction::ClearScreen => {
                self.clear_screen();
                StepResult::Executed
            },
            Instruction::Return => {
                if self.stack.len() == 0 {
                    self.program_counter = self.program_counter - 2;
                    StepResult::Fault { fault: ProgramFault::StackUnderflow }
                } else {
                    let target = self.stack[self.stack.len() - 1];
                    self.stack.pop();
                    self.program_counter = target;
                    StepResult::Executed
                }
            },
            Instruction::Jump { nnn } => {
                self.program_counter = nnn;
                StepResult::Executed
            },
            Instruction::Call { nnn } => {
                if self.stack.len() >= 16 {
                    self.program_counter = self.program_counter - 2;
                    StepResult::Fault { fault: ProgramFault::StackOverflow }
                } else {
                    let ret = self.program_counter;
                    self.stack.push(ret);
                    self.program_counter = nnn;
                    StepResult::Executed
                }
            },
            Instruction::SkipEqImm { x, kk } => {
                if self.registers[x as usize] == kk {
                    self.program_counter = self.program_counter + 2;
                }
                StepResult::Executed
            },
            Instruction::SkipNeImm { x, kk } => {
                if self.registers[x as usize] != kk {
                    self.program_counter = self.program_counter + 2;
                }
                StepResult::Executed
            },
            Instruction::SkipEqReg { x, y } => {
                if self.registers[x as usize] == self.registers[y as usize] {
                    self.program_counter = self.program_counter + 2;
                }
                StepResult::Executed
            },
            Instruction::LoadImm { x, kk } => {
                self.registers[x as usize] = kk;
                StepResult::Executed
            },
            Instruction::AddImm { x, kk } => {
                let a = self.registers[x as usize];
                self.registers[x as usize] = ((a as u16 + kk as u16) % 256) as u8;
                StepResult::Executed
            },
            Instruction::Move { x, y } => {
                let vy = self.registers[y as usize];
                self.registers[x as usize] = vy;
                StepResult::Executed
            },
            Instruction::Or { x, y } => {
                let vx = self.registers[x as usize];
                let vy = self.registers[y as usize];
                self.registers[x as usize] = vx | vy;
                if self.variant == Variant::CosmacVip {
                    self.registers[15] = 0;
                }
                StepResult::Executed
            },
            Instruction::And { x, y } => {
                let vx = self.registers[x as usize];
                let vy = self.registers[y as usize];
                self.registers[x as usize] = vx & vy;
                if self.variant == Variant::CosmacVip {
                    self.registers[15] = 0;
                }
                StepResult::Executed
            },
            Instruction::Xor { x, y } => {
                let vx = self.registers[x as usize];
                let vy = self.registers[y as usize];
                self.registers[x as usize] = vx ^ vy;
                if self.variant == Variant::CosmacVip {
                    self.registers[15] = 0;
                }
                StepResult::Executed
            },
            Instruction::AddCarry { x, y } => {
                let a = self.registers[x as usize];
                let b = self.registers[y as usize];
                let flag: u8 = if a as u16 + b as u16 > 255 {
                    1
                } else {
                    0
                };
                self.registers[x as usize] = ((a as u16 + b as u16) % 256) as u8;
                self.registers[15] = flag;
                StepResult::Executed
            },
            Instruction::Sub { x, y } => {
                let a = self.registers[x as usize];
                let b = self.registers[y as usize];
                let flag: u8 = if a >= b {
                    1
                } else {
                    0
                };
                let diff = if a >= b {
                    a - b
                } else {
                    (256 - (b as u16 - a as u16)) as u8
                };
                self.registers[x as usize] = diff;
                self.registers[15] = flag;
                StepResult::Executed
            },
            Instruction::ShiftRight { x, y } => {
                let src = if self.variant == Variant::CosmacVip {
                    self.registers[y as usize]
                } else {
                    self.registers[x as usize]
                };
                let flag = src & 1;
                self.registers[x as usize] = src >> 1u8;
                self.registers[15] = flag;
                StepResult::Executed
            },
            Instruction::SubReverse { x, y } => {
                let a = self.registers[y as usize];
                let b = self.registers[x as usize];
                let flag: u8 = if a >= b {
                    1
                } else {
                    0
                };
                let diff = if a >= b {
                    a - b
                } else {
                    (256 - (b as u16 - a as u16)) as u8
                };
                self.registers[x as usize] = diff;
                self.registers[15] = flag;
                StepResult::Executed
            },
            Instruction::ShiftLeft { x, y } => {
                let src = if self.variant == Variant::CosmacVip {
                    self.registers[y as usize]
                } else {
                    self.registers[x as usize]
                };
                let flag: u8 = if src >= 128 {
                    1
                } else {
                    0
                };
                self.registers[x as usize] = ((2 * src as u16) % 256) as u8;
                self.registers[15] = flag;
                StepResult::Executed
            },
            Instruction::SkipNeReg { x, y } => {
                if self.registers[x as usize] != self.registers[y as usize] {
                    self.program_counter = self.program_counter + 2;
                }
                StepResult::Executed
            },
            Instruction::SetIndex { nnn } => {
                self.i_register = nnn;
                StepResult::Executed
            },
            Instruction::JumpIndexed { nnn } => {
                self.program_counter = ((nnn as u32 + self.registers[0] as u32) % 65536) as u16;
                StepResult::Executed
            },
            Instruction::Random { x, kk } => {
                let s = self.rng_state;
                let a = s ^ (s << 13);
                let b = a ^ (a >> 7);
                let ns = b ^ (b << 17);
                self.rng_state = ns;
                let byte = (ns & 0xFF) as u8;
                self.registers[x as usize] = byte & kk;
                StepResult::Executed
            },
            Instruction::Draw { x, y, n } => {
                let coll = self.draw_sprite(x as usize, y as usize, n as u16);
                if coll {
                    self.registers[15] = 1;
                } else {
                    self.registers[15] = 0;
                }
                StepResult::Executed
            },
            Instruction::SkipKey { x } => {
                let v = self.registers[x as usize];
                let key = (v & 0xF) as usize;
                proof {
                    assert(v & 0xF < 16) by (bit_vector);
                }
                if self.keys[key] {
                    self.program_counter = self.program_counter + 2;
                }
                StepResult::Executed
            },
            Instruction::SkipNoKey { x } => {
                let v = self.registers[x as usize];
                let key = (v & 0xF) as usize;
                proof {
                    assert(v & 0xF < 16) by (bit_vector);
                }
                if !self.keys[key] {
                    self.program_counter = self.program_counter + 2;
                }
                StepResult::Executed
            },
            Instruction::LoadDelay { x } => {
                let t = self.delay_timer;
                self.registers[x as usize] = t;
                StepResult::Executed
            },
            Instruction::WaitKey { x } => {
                match self.scan_keys() {
                    Some(k) => {
                        self.registers[x as usize] = k;
                        StepResult::Executed
                    },
                    None => {
                        self.program_counter = self.program_counter - 2;
                        StepResult::WaitingForKey
                    },
                }
            },
            Instruction::SetDelay { x } => {
                self.delay_timer = self.registers[x as usize];
                StepResult::Executed
            },
            Instruction::SetSound { x } => {
                self.sound_timer = self.registers[x as usize];
                StepResult::Executed
            },
            Instruction::AddIndex { x } => {
                let v = self.registers[x as usize];
                self.i_register = ((self.i_register as u32 + v as u32) % 65536) as u16;
                StepResult::Executed
            },
            Instruction::FontChar { x } => {
                let code = self.registers[x as usize];
                let masked = if self.variant == Variant::CosmacVip {
                    code & 0xF
                } else {
                    code
                };
                self.i_register = 5 * masked as u16;
                StepResult::Executed
            },
            Instruction::StoreDigits { x } => {
                let v = self.registers[x as usize];
                let a0 = self.i_register as usize % 4096;
                let a1 = (self.i_register as usize + 1) % 4096;
                let a2 = (self.i_register as usize + 2) % 4096;
                self.memory[a0] = v / 100;
                self.memory[a1] = v % 100 / 10;
                self.memory[a2] = v % 10;
                StepResult::Executed
            },
            Instruction::StoreRegs { x } => {
                self.op_store_regs(x);
                StepResult::Executed
            },
            Instruction::LoadRegs { x } => {
                self.op_load_regs(x);
                StepResult::Executed
            },
            Instruction::Unknown { word } => {
                StepResult::UnknownOpcode { word }
            },
        }
    }
}

/// A vector of `len` copies of `value`.
pub(crate) fn filled<T: Copy>(len: usize, value: T) -> (r: Vec<T>)
    ensures
        r@.len() == len,
        forall|i: int| 0 <= i < len ==> r@[i] == value,
{
    let mut v: Vec<T> = Vec::new();
    let mut i: usize = 0;
    while i < len
        invariant
            i == v@.len(),
            i <= len,
            forall|j: int| 0 <= j < i ==> v@[j] == value,
        decreases len - i,
    {
        v.push(value);
        i = i + 1;
    }
    v
}

} // verus!
