//! What each instruction does to the machine, and what one tick does.
//!
//! The functions that describe single instructions take the machine as it is
//! once the instruction has been fetched, with the program counter already
//! past it. [`Machine::step`] puts fetch, decode and execute together.

use vstd::prelude::*;
use crate::decode::{addr_of, byte_of, family_of, nibble_of, word_of, x_of, y_of};
use crate::machine::{first_down, first_down_from, toggled, Fault, Machine, Progress};
use crate::rng::{masked, range_draw};

verus! {

impl Machine {
    /// The state is well formed: every part has its size, the stack depth is
    /// within the stack, every framebuffer cell is 0 or 1, and a latched key
    /// is a key number.
    pub open spec fn wf(self) -> bool {
        &&& self.v.len() == 16
        &&& self.stack.len() == 16
        &&& self.mem.len() == 4096
        &&& self.video.len() == 2048
        &&& self.keys.len() == 16
        &&& self.sp <= 16
        &&& forall|p: int| 0 <= p < 2048 ==> #[trigger] self.video[p] <= 1
        &&& (self.wait_for_key matches Some(k) ==> k < 16)
    }

    /// An instruction can be fetched: both of its bytes lie in memory.
    pub open spec fn fetchable(self) -> bool {
        self.pc as int + 1 < 4096
    }

    /// The instruction word at the program counter.
    pub open spec fn opcode(self) -> u16 {
        word_of(self.mem[self.pc as int], self.mem[self.pc as int + 1]) as u16
    }

    /// The machine with the program counter moved by `d`.
    pub open spec fn moved(self, d: int) -> Machine {
        Machine { pc: (self.pc + d) as u16, ..self }
    }

    /// The machine with the next instruction skipped if `c` holds.
    pub open spec fn skip_if(self, c: bool) -> Machine {
        if c {
            self.moved(2)
        } else {
            self
        }
    }

    /// The machine with register `x` set to `b`.
    pub open spec fn with_reg(self, x: int, b: u8) -> Machine {
        Machine { v: self.v.update(x, b), ..self }
    }

    /// The machine with the flag register set to 1 if `c` holds, else to 0.
    pub open spec fn with_flag(self, c: bool) -> Machine {
        self.with_reg(
            15,
            if c {
                1u8
            } else {
                0u8
            },
        )
    }

    /// Every framebuffer cell becomes 0.
    pub open spec fn clear_screen(self) -> Machine {
        Machine { video: Seq::new(2048, |p: int| 0u8), ..self }
    }

    /// The program counter becomes the address on top of the stack, which
    /// is taken off.
    pub open spec fn ret(self) -> Machine {
        Machine { sp: (self.sp - 1) as u8, pc: self.stack[self.sp - 1], ..self }
    }

    /// The program counter becomes `nnn`.
    pub open spec fn jump(self, nnn: u16) -> Machine {
        Machine { pc: nnn, ..self }
    }

    /// The program counter goes onto the stack and becomes `nnn`.
    pub open spec fn call(self, nnn: u16) -> Machine {
        Machine {
            stack: self.stack.update(self.sp as int, self.pc),
            sp: (self.sp + 1) as u8,
            pc: nnn,
            ..self
        }
    }

    /// Register `x` becomes itself plus `kk` modulo 256; the flag is left.
    pub open spec fn add_imm(self, x: int, kk: u8) -> Machine {
        self.with_reg(x, ((self.v[x] + kk) % 256) as u8)
    }

    /// Register `x` becomes the bitwise OR of registers `x` and `y`.
    pub open spec fn or_reg(self, x: int, y: int) -> Machine {
        self.with_reg(x, self.v[x] | self.v[y])
    }

    /// Register `x` becomes the bitwise AND of registers `x` and `y`.
    pub open spec fn and_reg(self, x: int, y: int) -> Machine {
        self.with_reg(x, self.v[x] & self.v[y])
    }

    /// Register `x` becomes the bitwise XOR of registers `x` and `y`.
    pub open spec fn xor_reg(self, x: int, y: int) -> Machine {
        self.with_reg(x, self.v[x] ^ self.v[y])
    }

    /// Register `x` becomes the sum of registers `x` and `y` modulo 256; the
    /// flag is 1 exactly if the sum did not fit.
    pub open spec fn add_reg(self, x: int, y: int) -> Machine {
        self.with_reg(x, ((self.v[x] + self.v[y]) % 256) as u8).with_flag(
            self.v[x] + self.v[y] > 255,
        )
    }

    /// Register `x` becomes register `a` minus register `b` modulo 256; the
    /// flag is 1 exactly if nothing was borrowed.
    pub open spec fn sub_reg(self, x: int, a: int, b: int) -> Machine {
        self.with_reg(x, ((self.v[a] - self.v[b]) % 256) as u8).with_flag(self.v[a] >= self.v[b])
    }

    /// The register that a shift reads.
    pub open spec fn shift_source(self, x: int, y: int) -> u8 {
        if self.legacy {
            self.v[y]
        } else {
            self.v[x]
        }
    }

    /// Register `x` becomes half the source; the flag is the bit shifted out.
    pub open spec fn shift_right(self, x: int, y: int) -> Machine {
        let s = self.shift_source(x, y);
        self.with_reg(x, (s / 2) as u8).with_flag(s % 2 == 1)
    }

    /// Register `x` becomes twice the source modulo 256; the flag is the bit
    /// shifted out.
    pub open spec fn shift_left(self, x: int, y: int) -> Machine {
        let s = self.shift_source(x, y);
        self.with_reg(x, ((s * 2) % 256) as u8).with_flag(s >= 128)
    }

    /// The index register becomes `nnn`.
    pub open spec fn set_index(self, nnn: u16) -> Machine {
        Machine { i: nnn, ..self }
    }

    /// The program counter becomes `nnn` plus register 0.
    pub open spec fn jump_offset(self, nnn: u16) -> Machine {
        Machine { pc: (nnn + self.v[0]) as u16, ..self }
    }

    /// The machine once it has taken in a draw of the generator: register
    /// `x` holds the number drawn, masked with `kk`, and the generator is in
    /// the state that the draw left it in.
    pub open spec fn with_draw(self, x: int, kk: u8, draw: (u32, u64, u64)) -> Machine {
        Machine { v: self.v.update(x, masked(draw.0, kk)), rng: (draw.1, draw.2), ..self }
    }

    /// Register `x` becomes a byte drawn by the generator, masked with `kk`;
    /// the generator moves on.
    pub open spec fn random(self, x: int, kk: u8) -> Machine {
        self.with_draw(x, kk, range_draw(self.rng.0, self.rng.1, 0, 256))
    }

    /// The number of sprite rows, out of `n`, that fit above the lower edge
    /// when the sprite starts in the row that register `y` names.
    pub open spec fn sprite_rows(self, y: int, n: int) -> int {
        let room = 32 - self.v[y] as int % 32;
        if n < room {
            n
        } else {
            room
        }
    }

    /// Whether the sprite at the index register has its pixel on in row `row`
    /// and column `col`, counted from its upper left corner.
    pub open spec fn sprite_bit(self, row: int, col: int) -> bool {
        self.mem[self.i + row] & (0x80u8 >> (col as u8)) != 0
    }

    /// Whether drawing the `n`-row sprite at the place that registers `x` and
    /// `y` name flips cell `p`: the cell lies under the sprite, the sprite is
    /// not clipped there, and its pixel is on.
    pub open spec fn flips(self, x: int, y: int, n: int, p: int) -> bool {
        let left = self.v[x] as int % 64;
        let top = self.v[y] as int % 32;
        &&& 0 <= p < 2048
        &&& top <= p / 64 < top + n
        &&& left <= p % 64 < left + 8
        &&& self.sprite_bit(p / 64 - top, p % 64 - left)
    }

    /// Whether drawing the sprite turns off a cell that was on.
    pub open spec fn collides(self, x: int, y: int, n: int) -> bool {
        exists|p: int| #[trigger] self.flips(x, y, n, p) && self.video[p] == 1
    }

    /// The sprite is XORed onto the framebuffer; the flag tells whether a
    /// cell was turned off.
    pub open spec fn draw(self, x: int, y: int, n: int) -> Machine {
        Machine {
            video: Seq::new(
                2048,
                |p: int|
                    if self.flips(x, y, n, p) {
                        toggled(self.video[p])
                    } else {
                        self.video[p]
                    },
            ),
            ..self
        }.with_flag(self.collides(x, y, n))
    }

    /// The blocking key wait. With no key latched, the lowest key that is
    /// down is latched, if there is one. With a key latched, the instruction
    /// completes once that key is up, and stores its number in register `x`.
    /// Otherwise the program counter goes back to the instruction.
    pub open spec fn wait_key(self, x: int) -> (Machine, Progress) {
        match self.wait_for_key {
            Some(k) => if !self.keys[k as int] {
                (Machine { v: self.v.update(x, k), wait_for_key: None, ..self }, Progress::Completed)
            } else {
                (self.moved(-2), Progress::Retry)
            },
            None => (
                Machine { wait_for_key: first_down(self.keys), ..self }.moved(-2),
                Progress::Retry,
            ),
        }
    }

    /// The index register becomes itself plus register `x` modulo 65536;
    /// the flag is left.
    pub open spec fn add_index(self, x: int) -> Machine {
        Machine { i: ((self.i + self.v[x]) % 0x10000) as u16, ..self }
    }

    /// The index register becomes the address of the glyph of the digit in
    /// register `x`.
    pub open spec fn glyph(self, x: int) -> Machine {
        Machine { i: (self.v[x] * 5) as u16, ..self }
    }

    /// The three decimal digits of register `x` go to memory at the index
    /// register, hundreds first.
    pub open spec fn bcd(self, x: int) -> Machine {
        let n = self.v[x] as int;
        let i = self.i as int;
        Machine {
            mem: self.mem.update(i, (n / 100) as u8).update(i + 1, (n / 10 % 10) as u8).update(
                i + 2,
                (n % 10) as u8,
            ),
            ..self
        }
    }

    /// The index register after a bulk transfer of registers 0 to `x`.
    pub open spec fn index_after_bulk(self, x: int) -> u16 {
        if self.legacy {
            (self.i + x + 1) as u16
        } else {
            self.i
        }
    }

    /// Registers 0 to `x` go to memory at the index register.
    pub open spec fn store_regs(self, x: int) -> Machine {
        Machine {
            mem: Seq::new(
                4096,
                |a: int|
                    if self.i <= a <= self.i + x {
                        self.v[a - self.i]
                    } else {
                        self.mem[a]
                    },
            ),
            i: self.index_after_bulk(x),
            ..self
        }
    }

    /// Registers 0 to `x` are read from memory at the index register.
    pub open spec fn load_regs(self, x: int) -> Machine {
        Machine {
            v: Seq::new(
                16,
                |k: int|
                    if k <= x {
                        self.mem[self.i + k]
                    } else {
                        self.v[k]
                    },
            ),
            i: self.index_after_bulk(x),
            ..self
        }
    }
}

/// The outcome of an instruction that ran to completion.
pub open spec fn completed(m: Machine) -> Result<(Machine, Progress), Fault> {
    Ok((m, Progress::Completed))
}

impl Machine {
    /// Whether drawing `n` sprite rows at the row that register `y` names
    /// would read past the end of memory.
    pub open spec fn sprite_leaves_memory(self, y: int, n: int) -> bool {
        self.sprite_rows(y, n) > 0 && self.i + self.sprite_rows(y, n) > 4096
    }

    /// The arithmetic family, selected by the lowest four bits.
    pub open spec fn execute_arith(self, opcode: u16) -> Result<(Machine, Progress), Fault> {
        let x = x_of(opcode);
        let y = y_of(opcode);
        let n = nibble_of(opcode);
        if n == 0x0 {
            completed(self.with_reg(x, self.v[y]))
        } else if n == 0x1 {
            completed(self.or_reg(x, y))
        } else if n == 0x2 {
            completed(self.and_reg(x, y))
        } else if n == 0x3 {
            completed(self.xor_reg(x, y))
        } else if n == 0x4 {
            completed(self.add_reg(x, y))
        } else if n == 0x5 {
            completed(self.sub_reg(x, x, y))
        } else if n == 0x6 {
            completed(self.shift_right(x, y))
        } else if n == 0x7 {
            completed(self.sub_reg(x, y, x))
        } else if n == 0xE {
            completed(self.shift_left(x, y))
        } else {
            Err(Fault::UnknownInstruction(opcode))
        }
    }

    /// The key-test family, selected by the low byte.
    pub open spec fn execute_keys(self, opcode: u16) -> Result<(Machine, Progress), Fault> {
        let x = x_of(opcode);
        let kk = byte_of(opcode);
        if kk != 0x9E && kk != 0xA1 {
            Err(Fault::UnknownInstruction(opcode))
        } else if self.v[x] >= 16 {
            Err(Fault::KeyOutOfRange)
        } else if kk == 0x9E {
            completed(self.skip_if(self.keys[self.v[x] as int]))
        } else {
            completed(self.skip_if(!self.keys[self.v[x] as int]))
        }
    }

    /// The timer, key-wait, index and memory family, selected by the low byte.
    pub open spec fn execute_misc(self, opcode: u16) -> Result<(Machine, Progress), Fault> {
        let x = x_of(opcode);
        let kk = byte_of(opcode);
        if kk == 0x07 {
            completed(self.with_reg(x, self.delay_t))
        } else if kk == 0x0A {
            Ok(self.wait_key(x))
        } else if kk == 0x15 {
            completed(Machine { delay_t: self.v[x], ..self })
        } else if kk == 0x18 {
            completed(Machine { audio_t: self.v[x], ..self })
        } else if kk == 0x1E {
            completed(self.add_index(x))
        } else if kk == 0x29 {
            completed(self.glyph(x))
        } else if kk == 0x33 {
            if self.i + 2 >= 4096 {
                Err(Fault::AddressOutOfRange)
            } else {
                completed(self.bcd(x))
            }
        } else if kk == 0x55 {
            if self.i + x >= 4096 {
                Err(Fault::AddressOutOfRange)
            } else {
                completed(self.store_regs(x))
            }
        } else if kk == 0x65 {
            if self.i + x >= 4096 {
                Err(Fault::AddressOutOfRange)
            } else {
                completed(self.load_regs(x))
            }
        } else {
            Err(Fault::UnknownInstruction(opcode))
        }
    }

    /// What the instruction `opcode` does to the machine that has just
    /// fetched it, or the fault that stops it.
    pub open spec fn execute(self, opcode: u16) -> Result<(Machine, Progress), Fault> {
        let x = x_of(opcode);
        let y = y_of(opcode);
        let n = nibble_of(opcode);
        let kk = byte_of(opcode) as u8;
        let nnn = addr_of(opcode) as u16;
        let f = family_of(opcode);
        if f == 0x0 {
            if opcode == 0x00E0 {
                completed(self.clear_screen())
            } else if opcode == 0x00EE {
                if self.sp == 0 {
                    Err(Fault::StackUnderflow)
                } else {
                    completed(self.ret())
                }
            } else {
                Ok((self, Progress::Ignored))
            }
        } else if f == 0x1 {
            completed(self.jump(nnn))
        } else if f == 0x2 {
            if self.sp >= 16 {
                Err(Fault::StackOverflow)
            } else {
                completed(self.call(nnn))
            }
        } else if f == 0x3 {
            completed(self.skip_if(self.v[x] == kk))
        } else if f == 0x4 {
            completed(self.skip_if(self.v[x] != kk))
        } else if f == 0x5 {
            completed(self.skip_if(self.v[x] == self.v[y]))
        } else if f == 0x6 {
            completed(self.with_reg(x, kk))
        } else if f == 0x7 {
            completed(self.add_imm(x, kk))
        } else if f == 0x8 {
            self.execute_arith(opcode)
        } else if f == 0x9 {
            completed(self.skip_if(self.v[x] != self.v[y]))
        } else if f == 0xA {
            completed(self.set_index(nnn))
        } else if f == 0xB {
            completed(self.jump_offset(nnn))
        } else if f == 0xC {
            completed(self.random(x, kk))
        } else if f == 0xD {
            if !self.vblank {
                Ok((self.moved(-2), Progress::Retry))
            } else if self.sprite_leaves_memory(y, n) {
                Err(Fault::AddressOutOfRange)
            } else {
                completed(self.draw(x, y, n))
            }
        } else if f == 0xE {
            self.execute_keys(opcode)
        } else {
            self.execute_misc(opcode)
        }
    }

    /// One tick: the instruction at the program counter is fetched, the
    /// program counter moves past it, and the instruction is executed.
    pub open spec fn step(self) -> Result<(Machine, Progress), Fault> {
        if !self.fetchable() {
            Err(Fault::AddressOutOfRange)
        } else {
            self.moved(2).execute(self.opcode())
        }
    }

    /// The machine after a tick: the outcome of [`Machine::step`], or the
    /// machine unchanged where the tick faults.
    pub open spec fn after_step(self) -> Machine {
        match self.step() {
            Ok((m, _)) => m,
            Err(_) => self,
        }
    }
}

/// The first key that is down, if there is one, is a key of the snapshot:
/// it is down, and no key before it is.
pub proof fn lemma_first_down_from(keys: Seq<bool>, k: int)
    requires
        0 <= k,
        keys.len() <= 256,
    ensures
        match first_down_from(keys, k) {
            Some(d) => k <= d < keys.len() && keys[d as int] && forall|j: int|
                k <= j < d ==> !keys[j],
            None => forall|j: int| k <= j < keys.len() ==> !keys[j],
        },
    decreases keys.len() - k,
{
    if k < keys.len() && !keys[k] {
        lemma_first_down_from(keys, k + 1);
    }
}

/// A tick keeps a well-formed machine well formed.
pub proof fn lemma_step_wf(m: Machine)
    requires
        m.wf(),
    ensures
        m.after_step().wf(),
{
    if m.fetchable() {
        let f = m.moved(2);
        let op = m.opcode();
        lemma_first_down_from(f.keys, 0);
        assert(f.wf());
        let x = x_of(op);
        let y = y_of(op);
        let n = nibble_of(op);
        assert(f.draw(x, y, n).wf());
    }
}

} // verus!
