//! The executable machine: its state in fixed-size arrays, and the
//! fetch, decode and execute cycle over it.

use vstd::prelude::*;
use crate::decode::{dec_addr, dec_byte, dec_family, dec_nibble, dec_x, dec_y, join_bytes, split_word};
use crate::machine::{
    bytes_of_words, decayed, first_down, first_down_from, font, toggled, with_program, Fault,
    Machine, Progress, FONT_BYTES_PER_CHAR, FONT_SET, FONT_SIZE, KEYS_SIZE, MEM_SIZE, NUM_REGS,
    ROM_START_ADDR, STACK_SIZE, VIDEO_COLS, VIDEO_ROWS, VIDEO_SIZE,
};
use crate::rng::{masked_byte, rand32_range, rand32_seed, seeded_state};
use crate::semantics::lemma_step_wf;

verus! {

/// One machine: registers, memory, stack, timers, framebuffer and keys.
pub struct Chip8 {
    v: [u8; NUM_REGS],
    i: u16,
    pc: u16,
    sp: u8,
    stack: [u16; STACK_SIZE],
    mem: [u8; MEM_SIZE],
    video: [u8; VIDEO_SIZE],
    keys: [bool; KEYS_SIZE],
    delay_t: u8,
    audio_t: u8,
    wait_for_key: Option<u8>,
    vblank: bool,
    rng: (u64, u64),
    legacy: bool,
}

/// The state of a machine just made: everything zero but the font, which
/// fills the first eighty bytes of memory, and the generator, seeded.
pub open spec fn initial(rng_seed: u64, legacy: bool) -> Machine {
    Machine {
        v: Seq::new(16, |k: int| 0u8),
        i: 0,
        pc: 0,
        sp: 0,
        stack: Seq::new(16, |k: int| 0u16),
        mem: Seq::new(
            4096,
            |a: int|
                if a < 80 {
                    font()[a]
                } else {
                    0u8
                },
        ),
        video: Seq::new(2048, |p: int| 0u8),
        keys: Seq::new(16, |k: int| false),
        delay_t: 0,
        audio_t: 0,
        wait_for_key: None,
        vblank: false,
        rng: seeded_state(rng_seed),
        legacy,
    }
}

impl View for Chip8 {
    type V = Machine;

    closed spec fn view(&self) -> Machine {
        Machine {
            v: self.v@,
            i: self.i,
            pc: self.pc,
            sp: self.sp,
            stack: self.stack@,
            mem: self.mem@,
            video: self.video@,
            keys: self.keys@,
            delay_t: self.delay_t,
            audio_t: self.audio_t,
            wait_for_key: self.wait_for_key,
            vblank: self.vblank,
            rng: self.rng,
            legacy: self.legacy,
        }
    }
}

impl Chip8 {
    /// The machine's state is well formed.
    pub open spec fn wf(&self) -> bool {
        self@.wf()
    }

    /// A machine that shifts in place and leaves the index register alone in
    /// bulk transfers.
    pub fn init(rng_seed: u64) -> (c: Chip8)
        ensures
            c@ == initial(rng_seed, false),
            c.wf(),
    {
        Chip8::init_with(rng_seed, false)
    }

    /// A machine of either family: with `legacy`, shifts read the second
    /// register operand and bulk transfers advance the index register.
    pub fn init_with(rng_seed: u64, legacy: bool) -> (c: Chip8)
        ensures
            c@ == initial(rng_seed, legacy),
            c.wf(),
    {
        let mut mem = [0u8; MEM_SIZE];
        let mut k: usize = 0;
        while k < FONT_SIZE
            invariant
                k <= 80,
                forall|a: int| 0 <= a < k ==> mem@[a] == font()[a],
                forall|a: int| k <= a < 4096 ==> mem@[a] == 0,
            decreases 80 - k,
        {
            mem[k] = FONT_SET[k];
            k += 1;
        }
        let c = Chip8 {
            v: [0u8; NUM_REGS],
            i: 0,
            pc: 0,
            sp: 0,
            stack: [0u16; STACK_SIZE],
            mem,
            video: [0u8; VIDEO_SIZE],
            keys: [false; KEYS_SIZE],
            delay_t: 0,
            audio_t: 0,
            wait_for_key: None,
            vblank: false,
            rng: rand32_seed(rng_seed),
            legacy,
        };
        assert(c@.v =~= initial(rng_seed, legacy).v);
        assert(c@.stack =~= initial(rng_seed, legacy).stack);
        assert(c@.mem =~= initial(rng_seed, legacy).mem);
        assert(c@.video =~= initial(rng_seed, legacy).video);
        assert(c@.keys =~= initial(rng_seed, legacy).keys);
        c
    }
}

impl Chip8 {
    /// The width of the framebuffer in cells.
    pub fn video_cols(&self) -> (cols: usize)
        ensures
            cols == 64,
    {
        VIDEO_COLS
    }

    /// The height of the framebuffer in cells.
    pub fn video_rows(&self) -> (rows: usize)
        ensures
            rows == 32,
    {
        VIDEO_ROWS
    }

    /// The framebuffer, row by row.
    pub fn video(&self) -> (cells: &[u8])
        ensures
            cells@ == self@.video,
    {
        self.video.as_slice()
    }

    /// Whether the sound timer is running.
    pub fn audio(&self) -> (on: bool)
        ensures
            on == (self@.audio_t > 0),
    {
        self.audio_t > 0
    }

    /// The sixteen general registers.
    pub fn registers(&self) -> (v: &[u8])
        ensures
            v@ == self@.v,
    {
        self.v.as_slice()
    }

    /// The whole of memory.
    pub fn memory(&self) -> (mem: &[u8])
        ensures
            mem@ == self@.mem,
    {
        self.mem.as_slice()
    }

    /// The sixteen stack slots, used or not.
    pub fn stack(&self) -> (stack: &[u16])
        ensures
            stack@ == self@.stack,
    {
        self.stack.as_slice()
    }

    /// The index register.
    pub fn index(&self) -> (i: u16)
        ensures
            i == self@.i,
    {
        self.i
    }

    /// The program counter.
    pub fn pc(&self) -> (pc: u16)
        ensures
            pc == self@.pc,
    {
        self.pc
    }

    /// The number of return addresses on the stack.
    pub fn sp(&self) -> (sp: u8)
        ensures
            sp == self@.sp,
    {
        self.sp
    }

    /// The state pair of the pseudo-random generator.
    pub fn rng_state(&self) -> (state: (u64, u64))
        ensures
            state == self@.rng,
    {
        self.rng
    }

    /// Whether the machine is of the family whose shifts read the second
    /// register operand and whose bulk transfers advance the index register.
    pub fn is_legacy(&self) -> (legacy: bool)
        ensures
            legacy == self@.legacy,
    {
        self.legacy
    }

    /// The delay timer.
    pub fn delay_timer(&self) -> (t: u8)
        ensures
            t == self@.delay_t,
    {
        self.delay_t
    }

    /// The sound timer.
    pub fn sound_timer(&self) -> (t: u8)
        ensures
            t == self@.audio_t,
    {
        self.audio_t
    }

    /// Sets general register `x`.
    pub fn set_register(&mut self, x: usize, value: u8)
        requires
            x < 16,
        ensures
            old(self).wf() ==> final(self).wf(),
            final(self)@ == old(self)@.with_reg(x as int, value),
    {
        self.v[x] = value;
    }

    /// Sets the index register.
    pub fn set_index(&mut self, i: u16)
        ensures
            old(self).wf() ==> final(self).wf(),
            final(self)@ == old(self)@.set_index(i),
    {
        self.i = i;
    }

    /// Turns one framebuffer cell on or off.
    pub fn set_pixel(&mut self, pos: usize, on: bool)
        requires
            pos < 2048,
        ensures
            old(self).wf() ==> final(self).wf(),
            final(self)@ == (Machine {
                video: old(self)@.video.update(
                    pos as int,
                    if on {
                        1u8
                    } else {
                        0u8
                    },
                ),
                ..old(self)@
            }),
    {
        self.video[pos] = if on {
            1
        } else {
            0
        };
    }

    /// Replaces the key snapshot by the first sixteen entries of `keys`.
    pub fn write_keys(&mut self, keys: &[bool])
        requires
            keys@.len() >= 16,
        ensures
            old(self).wf() ==> final(self).wf(),
            final(self)@ == (Machine { keys: keys@.subrange(0, 16), ..old(self)@ }),
    {
        let mut k: usize = 0;
        while k < KEYS_SIZE
            invariant
                k <= 16,
                keys@.len() >= 16,
                forall|j: int| 0 <= j < k ==> self.keys@[j] == keys@[j],
                self@ == (Machine { keys: self.keys@, ..old(self)@ }),
            decreases 16 - k,
        {
            self.keys[k] = keys[k];
            k += 1;
        }
        assert(self.keys@ =~= keys@.subrange(0, 16));
    }

    /// Counts both timers down by one; a timer at zero stays there.
    pub fn update_timers(&mut self)
        ensures
            old(self).wf() ==> final(self).wf(),
            final(self)@ == (Machine {
                delay_t: decayed(old(self)@.delay_t),
                audio_t: decayed(old(self)@.audio_t),
                ..old(self)@
            }),
    {
        if self.delay_t > 0 {
            self.delay_t -= 1;
        }
        if self.audio_t > 0 {
            self.audio_t -= 1;
        }
    }

    /// Raises or lowers the frame signal that lets a sprite be drawn.
    pub fn set_vblank(&mut self, vblank: bool)
        ensures
            old(self).wf() ==> final(self).wf(),
            final(self)@ == (Machine { vblank, ..old(self)@ }),
    {
        self.vblank = vblank;
    }

    /// Copies a program to the load address and points the program counter
    /// at it. A program that does not fit is refused and nothing changes.
    pub fn load(&mut self, rom: &[u8]) -> (r: Result<(), Fault>)
        ensures
            old(self).wf() ==> final(self).wf(),
            rom@.len() > 4096 - 0x200 ==> r == Err::<(), Fault>(Fault::ProgramTooLarge) && final(self)@
                == old(self)@,
            rom@.len() <= 4096 - 0x200 ==> r == Ok::<(), Fault>(()) && final(self)@ == (Machine {
                mem: with_program(old(self)@.mem, rom@),
                pc: 0x200,
                ..old(self)@
            }),
    {
        if rom.len() > MEM_SIZE - ROM_START_ADDR {
            return Err(Fault::ProgramTooLarge);
        }
        let mut k: usize = 0;
        while k < rom.len()
            invariant
                k <= rom@.len() <= 4096 - 0x200,
                forall|a: int| 0x200 <= a < 0x200 + k ==> self.mem@[a] == rom@[a - 0x200],
                forall|a: int|
                    0 <= a < 4096 && !(0x200 <= a < 0x200 + k) ==> self.mem@[a] == old(self).mem@[a],
                self@ == (Machine { mem: self.mem@, ..old(self)@ }),
            decreases rom@.len() - k,
        {
            self.mem[ROM_START_ADDR + k] = rom[k];
            k += 1;
        }
        self.pc = 0x200;
        assert(self.mem@ =~= with_program(old(self)@.mem, rom@));
        Ok(())
    }

    /// Loads a program given as instruction words, each stored most
    /// significant byte first.
    pub fn load16(&mut self, rom16: &[u16]) -> (r: Result<(), Fault>)
        ensures
            old(self).wf() ==> final(self).wf(),
            2 * rom16@.len() > 4096 - 0x200 ==> r == Err::<(), Fault>(Fault::ProgramTooLarge)
                && final(self)@ == old(self)@,
            2 * rom16@.len() <= 4096 - 0x200 ==> r == Ok::<(), Fault>(()) && final(self)@ == (Machine {
                mem: with_program(old(self)@.mem, bytes_of_words(rom16@)),
                pc: 0x200,
                ..old(self)@
            }),
    {
        if rom16.len() > (MEM_SIZE - ROM_START_ADDR) / 2 {
            return Err(Fault::ProgramTooLarge);
        }
        let mut rom8: Vec<u8> = Vec::new();
        let mut k: usize = 0;
        while k < rom16.len()
            invariant
                k <= rom16@.len(),
                rom8@.len() == 2 * k,
                forall|j: int| 0 <= j < 2 * k ==> rom8@[j] == bytes_of_words(rom16@)[j],
            decreases rom16@.len() - k,
        {
            let (hi, lo) = split_word(rom16[k]);
            rom8.push(hi);
            rom8.push(lo);
            k += 1;
        }
        assert(rom8@ =~= bytes_of_words(rom16@));
        self.load(rom8.as_slice())
    }
}

impl Chip8 {
    // 00E0: clear the display.
    fn op_00e0(&mut self)
        ensures
            final(self)@ == old(self)@.clear_screen(),
    {
        self.video = [0u8; VIDEO_SIZE];
        assert(self.video@ =~= old(self)@.clear_screen().video);
    }

    // 00EE: return from a subroutine.
    fn op_00ee(&mut self) -> (r: Result<(), Fault>)
        requires
            old(self).wf(),
        ensures
            old(self)@.sp == 0 ==> r == Err::<(), Fault>(Fault::StackUnderflow) && final(self)@
                == old(self)@,
            old(self)@.sp != 0 ==> r == Ok::<(), Fault>(()) && final(self)@ == old(self)@.ret(),
    {
        if self.sp == 0 {
            return Err(Fault::StackUnderflow);
        }
        self.sp -= 1;
        self.pc = self.stack[self.sp as usize];
        Ok(())
    }

    // 1nnn: jump to nnn.
    fn op_1nnn(&mut self, addr: u16)
        ensures
            final(self)@ == old(self)@.jump(addr),
    {
        self.pc = addr;
    }

    // 2nnn: call the subroutine at nnn.
    fn op_2nnn(&mut self, addr: u16) -> (r: Result<(), Fault>)
        ensures
            old(self)@.sp >= 16 ==> r == Err::<(), Fault>(Fault::StackOverflow) && final(self)@
                == old(self)@,
            old(self)@.sp < 16 ==> r == Ok::<(), Fault>(()) && final(self)@ == old(self)@.call(addr),
    {
        if self.sp >= 16 {
            return Err(Fault::StackOverflow);
        }
        self.stack[self.sp as usize] = self.pc;
        self.sp += 1;
        self.pc = addr;
        Ok(())
    }

    // 3xkk: skip the next instruction if Vx = kk.
    fn op_3xkk(&mut self, x: usize, kk: u8)
        requires
            x < 16,
            old(self)@.pc <= 0xFFFD,
        ensures
            final(self)@ == old(self)@.skip_if(old(self)@.v[x as int] == kk),
    {
        if self.v[x] == kk {
            self.pc += 2;
        }
    }

    // 4xkk: skip the next instruction if Vx != kk.
    fn op_4xkk(&mut self, x: usize, kk: u8)
        requires
            x < 16,
            old(self)@.pc <= 0xFFFD,
        ensures
            final(self)@ == old(self)@.skip_if(old(self)@.v[x as int] != kk),
    {
        if self.v[x] != kk {
            self.pc += 2;
        }
    }

    // 5xy0: skip the next instruction if Vx = Vy.
    fn op_5xy0(&mut self, x: usize, y: usize)
        requires
            x < 16,
            y < 16,
            old(self)@.pc <= 0xFFFD,
        ensures
            final(self)@ == old(self)@.skip_if(old(self)@.v[x as int] == old(self)@.v[y as int]),
    {
        if self.v[x] == self.v[y] {
            self.pc += 2;
        }
    }

    // 6xkk: set Vx = kk.
    fn op_6xkk(&mut self, x: usize, kk: u8)
        requires
            x < 16,
        ensures
            final(self)@ == old(self)@.with_reg(x as int, kk),
    {
        self.v[x] = kk;
    }

    // 7xkk: set Vx = Vx + kk.
    fn op_7xkk(&mut self, x: usize, kk: u8)
        requires
            x < 16,
        ensures
            final(self)@ == old(self)@.add_imm(x as int, kk),
    {
        self.v[x] = self.v[x].wrapping_add(kk);
    }

    // 8xy0: set Vx = Vy.
    fn op_8xy0(&mut self, x: usize, y: usize)
        requires
            x < 16,
            y < 16,
        ensures
            final(self)@ == old(self)@.with_reg(x as int, old(self)@.v[y as int]),
    {
        self.v[x] = self.v[y];
    }

    // 8xy1: set Vx = Vx OR Vy.
    fn op_8xy1(&mut self, x: usize, y: usize)
        requires
            x < 16,
            y < 16,
        ensures
            final(self)@ == old(self)@.or_reg(x as int, y as int),
    {
        self.v[x] = self.v[x] | self.v[y];
    }

    // 8xy2: set Vx = Vx AND Vy.
    fn op_8xy2(&mut self, x: usize, y: usize)
        requires
            x < 16,
            y < 16,
        ensures
            final(self)@ == old(self)@.and_reg(x as int, y as int),
    {
        self.v[x] = self.v[x] & self.v[y];
    }

    // 8xy3: set Vx = Vx XOR Vy.
    fn op_8xy3(&mut self, x: usize, y: usize)
        requires
            x < 16,
            y < 16,
        ensures
            final(self)@ == old(self)@.xor_reg(x as int, y as int),
    {
        self.v[x] = self.v[x] ^ self.v[y];
    }

    // 8xy4: set Vx = Vx + Vy, set VF = carry.
    fn op_8xy4(&mut self, x: usize, y: usize)
        requires
            x < 16,
            y < 16,
        ensures
            final(self)@ == old(self)@.add_reg(x as int, y as int),
    {
        let a = self.v[x];
        let b = self.v[y];
        let carry = a > 255 - b;
        self.v[x] = a.wrapping_add(b);
        self.v[0xF] = if carry {
            1
        } else {
            0
        };
    }

    // 8xy5: set Vx = Vx - Vy, set VF = NOT borrow.
    fn op_8xy5(&mut self, x: usize, y: usize)
        requires
            x < 16,
            y < 16,
        ensures
            final(self)@ == old(self)@.sub_reg(x as int, x as int, y as int),
    {
        let a = self.v[x];
        let b = self.v[y];
        self.v[x] = a.wrapping_sub(b);
        self.v[0xF] = if a >= b {
            1
        } else {
            0
        };
    }

    // 8xy6: set Vx = source SHR 1, set VF = the bit shifted out.
    fn op_8xy6(&mut self, x: usize, y: usize)
        requires
            x < 16,
            y < 16,
        ensures
            final(self)@ == old(self)@.shift_right(x as int, y as int),
    {
        let s = if self.legacy {
            self.v[y]
        } else {
            self.v[x]
        };
        assert(s >> 1 == s / 2) by (bit_vector);
        assert(s & 1 == s % 2) by (bit_vector);
        self.v[x] = s >> 1;
        self.v[0xF] = s & 1;
    }

    // 8xy7: set Vx = Vy - Vx, set VF = NOT borrow.
    fn op_8xy7(&mut self, x: usize, y: usize)
        requires
            x < 16,
            y < 16,
        ensures
            final(self)@ == old(self)@.sub_reg(x as int, y as int, x as int),
    {
        let a = self.v[y];
        let b = self.v[x];
        self.v[x] = a.wrapping_sub(b);
        self.v[0xF] = if a >= b {
            1
        } else {
            0
        };
    }

    // 8xyE: set Vx = source SHL 1, set VF = the bit shifted out.
    fn op_8xye(&mut self, x: usize, y: usize)
        requires
            x < 16,
            y < 16,
        ensures
            final(self)@ == old(self)@.shift_left(x as int, y as int),
    {
        let s = if self.legacy {
            self.v[y]
        } else {
            self.v[x]
        };
        assert(s << 1 == (s * 2) % 256) by (bit_vector);
        assert((s >> 7) & 1 == (if s >= 128 { 1u8 } else { 0u8 })) by (bit_vector);
        self.v[x] = s << 1;
        self.v[0xF] = (s >> 7) & 1;
    }

    // 9xy0: skip the next instruction if Vx != Vy.
    fn op_9xy0(&mut self, x: usize, y: usize)
        requires
            x < 16,
            y < 16,
            old(self)@.pc <= 0xFFFD,
        ensures
            final(self)@ == old(self)@.skip_if(old(self)@.v[x as int] != old(self)@.v[y as int]),
    {
        if self.v[x] != self.v[y] {
            self.pc += 2;
        }
    }

    // Annn: set I = nnn.
    fn op_annn(&mut self, addr: u16)
        ensures
            final(self)@ == old(self)@.set_index(addr),
    {
        self.i = addr;
    }

    // Bnnn: jump to nnn + V0.
    fn op_bnnn(&mut self, nnn: u16)
        requires
            nnn < 0x1000,
        ensures
            final(self)@ == old(self)@.jump_offset(nnn),
    {
        self.pc = nnn + self.v[0] as u16;
    }

    // Cxkk: set Vx = random byte AND kk.
    fn op_cxkk(&mut self, x: usize, kk: u8)
        requires
            x < 16,
        ensures
            final(self)@ == old(self)@.random(x as int, kk),
    {
        let draw = rand32_range(self.rng.0, self.rng.1, 0, 256);
        self.take_draw(x, kk, draw);
    }

    /// Takes a draw of the generator into the machine: register `x` gets the
    /// number drawn, masked with `kk`, and the generator's state is replaced
    /// by the one that the draw left.
    pub fn take_draw(&mut self, x: usize, kk: u8, draw: (u32, u64, u64))
        requires
            x < 16,
        ensures
            old(self).wf() ==> final(self).wf(),
            final(self)@ == old(self)@.with_draw(x as int, kk, draw),
    {
        self.rng = (draw.1, draw.2);
        self.v[x] = masked_byte(draw.0, kk);
    }
}

impl Chip8 {
    // Ex9E: skip the next instruction if the key that Vx names is down.
    fn op_ex9e(&mut self, x: usize) -> (r: Result<(), Fault>)
        requires
            x < 16,
            old(self)@.pc <= 0xFFFD,
        ensures
            old(self)@.v[x as int] >= 16 ==> r == Err::<(), Fault>(Fault::KeyOutOfRange) && final(self)@ == old(self)@,
            old(self)@.v[x as int] < 16 ==> r == Ok::<(), Fault>(()) && final(self)@ == old(self)@.skip_if(old(self)@.keys[old(self)@.v[x as int] as int]),
    {
        let vx = self.v[x] as usize;
        if vx >= KEYS_SIZE {
            return Err(Fault::KeyOutOfRange);
        }
        if self.keys[vx] {
            self.pc += 2;
        }
        Ok(())
    }

    // ExA1: skip the next instruction if the key that Vx names is up.
    fn op_exa1(&mut self, x: usize) -> (r: Result<(), Fault>)
        requires
            x < 16,
            old(self)@.pc <= 0xFFFD,
        ensures
            old(self)@.v[x as int] >= 16 ==> r == Err::<(), Fault>(Fault::KeyOutOfRange) && final(self)@ == old(self)@,
            old(self)@.v[x as int] < 16 ==> r == Ok::<(), Fault>(()) && final(self)@ == old(self)@.skip_if(!old(self)@.keys[old(self)@.v[x as int] as int]),
    {
        let vx = self.v[x] as usize;
        if vx >= KEYS_SIZE {
            return Err(Fault::KeyOutOfRange);
        }
        if !self.keys[vx] {
            self.pc += 2;
        }
        Ok(())
    }

    // Fx07: set Vx = delay timer.
    fn op_fx07(&mut self, x: usize)
        requires
            x < 16,
        ensures
            final(self)@ == old(self)@.with_reg(x as int, old(self)@.delay_t),
    {
        self.v[x] = self.delay_t;
    }

    /// The lowest-numbered key that is down in the current snapshot.
    fn first_key_down(&self) -> (r: Option<u8>)
        ensures
            r == first_down(self@.keys),
    {
        let mut k: usize = 0;
        while k < KEYS_SIZE
            invariant
                k <= 16,
                first_down(self@.keys) == first_down_from(self@.keys, k as int),
            decreases 16 - k,
        {
            if self.keys[k] {
                return Some(k as u8);
            }
            k += 1;
        }
        None
    }

    // Fx0A: wait for a key to be pressed and released, store its number in Vx.
    fn op_fx0a(&mut self, x: usize) -> (p: Progress)
        requires
            x < 16,
            old(self).wf(),
            old(self)@.pc >= 2,
        ensures
            (final(self)@, p) == old(self)@.wait_key(x as int),
    {
        match self.wait_for_key {
            Some(key) => {
                if !self.keys[key as usize] {
                    self.v[x] = key;
                    self.wait_for_key = None;
                    return Progress::Completed;
                }
            },
            None => {
                self.wait_for_key = self.first_key_down();
            },
        }
        // Try again.
        self.pc -= 2;
        Progress::Retry
    }

    // Fx15: set delay timer = Vx.
    fn op_fx15(&mut self, x: usize)
        requires
            x < 16,
        ensures
            final(self)@ == (Machine { delay_t: old(self)@.v[x as int], ..old(self)@ }),
    {
        self.delay_t = self.v[x];
    }

    // Fx18: set sound timer = Vx.
    fn op_fx18(&mut self, x: usize)
        requires
            x < 16,
        ensures
            final(self)@ == (Machine { audio_t: old(self)@.v[x as int], ..old(self)@ }),
    {
        self.audio_t = self.v[x];
    }

    // Fx1E: set I = I + Vx.
    fn op_fx1e(&mut self, x: usize)
        requires
            x < 16,
        ensures
            final(self)@ == old(self)@.add_index(x as int),
    {
        self.i = self.i.wrapping_add(self.v[x] as u16);
    }

    // Fx29: set I = the address of the glyph for the digit in Vx.
    fn op_fx29(&mut self, x: usize)
        requires
            x < 16,
        ensures
            final(self)@ == old(self)@.glyph(x as int),
    {
        self.i = self.v[x] as u16 * FONT_BYTES_PER_CHAR;
    }

    // Fx33: store the decimal digits of Vx at I, I+1 and I+2.
    fn op_fx33(&mut self, x: usize) -> (r: Result<(), Fault>)
        requires
            x < 16,
        ensures
            old(self)@.i + 2 >= 4096 ==> r == Err::<(), Fault>(Fault::AddressOutOfRange) && final(self)@ == old(self)@,
            old(self)@.i + 2 < 4096 ==> r == Ok::<(), Fault>(()) && final(self)@ == old(self)@.bcd(
                x as int,
            ),
    {
        let n = self.v[x];
        let i = self.i as usize;
        if i + 2 >= MEM_SIZE {
            return Err(Fault::AddressOutOfRange);
        }
        self.mem[i] = n / 100;
        self.mem[i + 1] = n % 100 / 10;
        self.mem[i + 2] = n % 10;
        Ok(())
    }

    /// Moves the index register past registers 0 to `x` where the machine
    /// is of the family that does so.
    fn advance_index(&mut self, x: usize)
        requires
            x < 16,
            old(self)@.i + x < 4096,
        ensures
            final(self)@ == (Machine { i: old(self)@.index_after_bulk(x as int), ..old(self)@ }),
    {
        if self.legacy {
            self.i = self.i + x as u16 + 1;
        }
    }

    // Fx55: store V0 to Vx in memory from I on.
    fn op_fx55(&mut self, x: usize) -> (r: Result<(), Fault>)
        requires
            x < 16,
        ensures
            old(self)@.i + x >= 4096 ==> r == Err::<(), Fault>(Fault::AddressOutOfRange) && final(self)@ == old(self)@,
            old(self)@.i + x < 4096 ==> r == Ok::<(), Fault>(()) && final(self)@ == old(self)@.store_regs(x as int),
    {
        let base = self.i as usize;
        if base + x >= MEM_SIZE {
            return Err(Fault::AddressOutOfRange);
        }
        let mut k: usize = 0;
        while k <= x
            invariant
                k <= x + 1,
                x < 16,
                base == old(self)@.i,
                base + x < 4096,
                forall|a: int| base <= a < base + k ==> self.mem@[a] == old(self)@.v[a - base],
                forall|a: int|
                    0 <= a < 4096 && !(base <= a < base + k) ==> self.mem@[a] == old(self)@.mem[a],
                self@ == (Machine { mem: self.mem@, ..old(self)@ }),
            decreases x + 1 - k,
        {
            self.mem[base + k] = self.v[k];
            k += 1;
        }
        assert(self.mem@ =~= old(self)@.store_regs(x as int).mem);
        self.advance_index(x);
        Ok(())
    }

    // Fx65: read V0 to Vx from memory from I on.
    fn op_fx65(&mut self, x: usize) -> (r: Result<(), Fault>)
        requires
            x < 16,
        ensures
            old(self)@.i + x >= 4096 ==> r == Err::<(), Fault>(Fault::AddressOutOfRange) && final(self)@ == old(self)@,
            old(self)@.i + x < 4096 ==> r == Ok::<(), Fault>(()) && final(self)@ == old(self)@.load_regs(x as int),
    {
        let base = self.i as usize;
        if base + x >= MEM_SIZE {
            return Err(Fault::AddressOutOfRange);
        }
        let mut k: usize = 0;
        while k <= x
            invariant
                k <= x + 1,
                x < 16,
                base == old(self)@.i,
                base + x < 4096,
                forall|j: int| 0 <= j < k ==> self.v@[j] == old(self)@.mem[base + j],
                forall|j: int| k <= j < 16 ==> self.v@[j] == old(self)@.v[j],
                self@ == (Machine { v: self.v@, ..old(self)@ }),
            decreases x + 1 - k,
        {
            self.v[k] = self.mem[base + k];
            k += 1;
        }
        assert(self.v@ =~= old(self)@.load_regs(x as int).v);
        self.advance_index(x);
        Ok(())
    }
}

/// Whether the draw, going through the sprite row by row and from left to
/// right, reaches cell `p` before the sprite pixel at `row` and `col`.
spec fn drawn_before(m: Machine, x: int, y: int, row: int, col: int, p: int) -> bool {
    let left = m.v[x] as int % 64;
    let top = m.v[y] as int % 32;
    p / 64 - top < row || (p / 64 - top == row && p % 64 - left < col)
}

/// Whether the draw turns off a cell before it reaches the sprite pixel at
/// `row` and `col`.
spec fn collides_before(m: Machine, x: int, y: int, n: int, row: int, col: int) -> bool {
    exists|p: int|
        #[trigger] m.flips(x, y, n, p) && drawn_before(m, x, y, row, col, p) && m.video[p] == 1
}

/// The framebuffer while the draw is under way: the cells reached before
/// the sprite pixel at `row` and `col` are done, the others untouched.
spec fn drawn_until(m: Machine, x: int, y: int, n: int, row: int, col: int) -> Seq<u8> {
    Seq::new(
        2048,
        |p: int|
            if m.flips(x, y, n, p) && drawn_before(m, x, y, row, col, p) {
                toggled(m.video[p])
            } else {
                m.video[p]
            },
    )
}

/// The flag register while the draw is under way.
spec fn flag_until(m: Machine, x: int, y: int, n: int, row: int, col: int) -> u8 {
    if collides_before(m, x, y, n, row, col) {
        1
    } else {
        0
    }
}

impl Chip8 {
    /// XORs one sprite pixel that is on onto the framebuffer.
    fn flip_pixel(&mut self, pos: usize)
        requires
            pos < 2048,
            old(self)@.video[pos as int] <= 1,
        ensures
            final(self)@.video == old(self)@.video.update(
                pos as int,
                toggled(old(self)@.video[pos as int]),
            ),
            final(self)@.v == old(self)@.v.update(
                15,
                if old(self)@.video[pos as int] == 1 {
                    1u8
                } else {
                    old(self)@.v[15]
                },
            ),
            final(self)@ == (Machine { video: final(self)@.video, v: final(self)@.v, ..old(self)@ }),
    {
        let cell = self.video[pos];
        assert(cell ^ 1 == toggled(cell)) by (bit_vector)
            requires
                cell <= 1,
        ;
        if cell == 1 {
            self.v[0xF] = 1;
        }
        self.video[pos] = cell ^ 1;
    }
}

/// Before the first sprite pixel nothing has been drawn.
proof fn lemma_draw_start(m: Machine, x: int, y: int, n: int)
    requires
        m.wf(),
    ensures
        drawn_until(m, x, y, n, 0, 0) == m.video,
        flag_until(m, x, y, n, 0, 0) == 0,
{
    assert(drawn_until(m, x, y, n, 0, 0) =~= m.video);
}

/// Drawing the sprite pixel at `row` and `col` changes the cell under it,
/// if the pixel is on, and nothing else.
proof fn lemma_draw_pixel(m: Machine, x: int, y: int, n: int, row: int, col: int, pos: int)
    requires
        m.wf(),
        0 <= row < n,
        0 <= col < 8,
        m.v[y] as int % 32 + row < 32,
        m.v[x] as int % 64 + col < 64,
        pos == (m.v[y] as int % 32 + row) * 64 + m.v[x] as int % 64 + col,
    ensures
        0 <= pos < 2048,
        drawn_until(m, x, y, n, row, col)[pos] == m.video[pos],
        m.sprite_bit(row, col) ==> drawn_until(m, x, y, n, row, col + 1) == drawn_until(
            m,
            x,
            y,
            n,
            row,
            col,
        ).update(pos, toggled(m.video[pos])),
        !m.sprite_bit(row, col) ==> drawn_until(m, x, y, n, row, col + 1) == drawn_until(
            m,
            x,
            y,
            n,
            row,
            col,
        ),
        flag_until(m, x, y, n, row, col + 1) == (if m.sprite_bit(row, col) && m.video[pos] == 1 {
            1u8
        } else {
            flag_until(m, x, y, n, row, col)
        }),
{
    let left = m.v[x] as int % 64;
    let top = m.v[y] as int % 32;
    assert(pos / 64 == top + row);
    assert(pos % 64 == left + col);
    assert(m.flips(x, y, n, pos) == m.sprite_bit(row, col));
    assert(!drawn_before(m, x, y, row, col, pos));
    assert(drawn_before(m, x, y, row, col + 1, pos));
    assert forall|p: int| p != pos implies drawn_before(m, x, y, row, col + 1, p) == drawn_before(
        m,
        x,
        y,
        row,
        col,
        p,
    ) by {
        if p / 64 - top == row && p % 64 - left == col {
            assert(p == (p / 64) * 64 + p % 64);
        }
    }
    if m.sprite_bit(row, col) {
        assert(drawn_until(m, x, y, n, row, col + 1) =~= drawn_until(m, x, y, n, row, col).update(
            pos,
            toggled(m.video[pos]),
        ));
    } else {
        assert(drawn_until(m, x, y, n, row, col + 1) =~= drawn_until(m, x, y, n, row, col));
    }
    if collides_before(m, x, y, n, row, col + 1) {
        let p = choose|p: int|
            #[trigger] m.flips(x, y, n, p) && drawn_before(m, x, y, row, col + 1, p) && m.video[p]
                == 1;
        if p != pos {
            assert(m.flips(x, y, n, p) && drawn_before(m, x, y, row, col, p) && m.video[p] == 1);
        }
    }
    if collides_before(m, x, y, n, row, col) {
        let p = choose|p: int|
            #[trigger] m.flips(x, y, n, p) && drawn_before(m, x, y, row, col, p) && m.video[p]
                == 1;
        assert(m.flips(x, y, n, p) && drawn_before(m, x, y, row, col + 1, p) && m.video[p] == 1);
    }
    if m.sprite_bit(row, col) && m.video[pos] == 1 {
        assert(m.flips(x, y, n, pos) && drawn_before(m, x, y, row, col + 1, pos) && m.video[pos]
            == 1);
    }
}

/// Past the last column that is not clipped, the row is done.
proof fn lemma_draw_row_end(m: Machine, x: int, y: int, n: int, row: int, cols: int)
    requires
        m.wf(),
        cols == (if m.v[x] as int % 64 + 8 < 64 {
            8
        } else {
            64 - m.v[x] as int % 64
        }),
    ensures
        drawn_until(m, x, y, n, row, cols) == drawn_until(m, x, y, n, row + 1, 0),
        flag_until(m, x, y, n, row, cols) == flag_until(m, x, y, n, row + 1, 0),
{
    assert forall|p: int| #[trigger] m.flips(x, y, n, p) implies drawn_before(m, x, y, row, cols, p)
        == drawn_before(m, x, y, row + 1, 0, p) by {}
    assert(drawn_until(m, x, y, n, row, cols) =~= drawn_until(m, x, y, n, row + 1, 0));
    if collides_before(m, x, y, n, row, cols) {
        let p = choose|p: int|
            #[trigger] m.flips(x, y, n, p) && drawn_before(m, x, y, row, cols, p) && m.video[p] == 1;
        assert(m.flips(x, y, n, p) && drawn_before(m, x, y, row + 1, 0, p) && m.video[p] == 1);
    }
    if collides_before(m, x, y, n, row + 1, 0) {
        let p = choose|p: int|
            #[trigger] m.flips(x, y, n, p) && drawn_before(m, x, y, row + 1, 0, p) && m.video[p]
                == 1;
        assert(m.flips(x, y, n, p) && drawn_before(m, x, y, row, cols, p) && m.video[p] == 1);
    }
}

/// Past the last row that is not clipped, the sprite is drawn.
proof fn lemma_draw_end(m: Machine, x: int, y: int, n: int)
    requires
        m.wf(),
        0 <= n,
    ensures
        drawn_until(m, x, y, n, m.sprite_rows(y, n), 0) == m.draw(x, y, n).video,
        m.draw(x, y, n).v == m.v.update(15, flag_until(m, x, y, n, m.sprite_rows(y, n), 0)),
{
    let rows = m.sprite_rows(y, n);
    assert forall|p: int| #[trigger] m.flips(x, y, n, p) implies drawn_before(m, x, y, rows, 0, p) by {}
    assert(drawn_until(m, x, y, n, rows, 0) =~= m.draw(x, y, n).video);
    if m.collides(x, y, n) {
        let p = choose|p: int| #[trigger] m.flips(x, y, n, p) && m.video[p] == 1;
        assert(m.flips(x, y, n, p) && drawn_before(m, x, y, rows, 0, p) && m.video[p] == 1);
    }
    if collides_before(m, x, y, n, rows, 0) {
        let p = choose|p: int|
            #[trigger] m.flips(x, y, n, p) && drawn_before(m, x, y, rows, 0, p) && m.video[p] == 1;
        assert(m.flips(x, y, n, p) && m.video[p] == 1);
    }
}

impl Chip8 {
    // Dxyn: draw the n-byte sprite at I at (Vx, Vy), set VF = collision.
    fn op_dxyn(&mut self, x: usize, y: usize, n: u8) -> (r: Result<Progress, Fault>)
        requires
            x < 16,
            y < 16,
            n < 16,
            old(self).wf(),
            old(self)@.pc >= 2,
        ensures
            !old(self)@.vblank ==> r == Ok::<Progress, Fault>(Progress::Retry) && final(self)@
                == old(self)@.moved(-2),
            old(self)@.vblank && old(self)@.sprite_leaves_memory(y as int, n as int) ==> r
                == Err::<Progress, Fault>(Fault::AddressOutOfRange) && final(self)@ == old(self)@,
            old(self)@.vblank && !old(self)@.sprite_leaves_memory(y as int, n as int) ==> r
                == Ok::<Progress, Fault>(Progress::Completed) && final(self)@ == old(self)@.draw(
                x as int,
                y as int,
                n as int,
            ),
    {
        // Wait for the frame signal.
        if !self.vblank {
            self.pc -= 2;
            return Ok(Progress::Retry);
        }
        let ghost m = self@;
        let ghost gx = x as int;
        let ghost gy = y as int;
        let ghost gn = n as int;

        // Wrap the position.
        let left = self.v[x] as usize % VIDEO_COLS;
        let top = self.v[y] as usize % VIDEO_ROWS;
        let base = self.i as usize;

        // Clip rows and columns.
        let rows = if top + (n as usize) < VIDEO_ROWS {
            n as usize
        } else {
            VIDEO_ROWS - top
        };
        let cols: u8 = if left + 8 < VIDEO_COLS {
            8
        } else {
            (VIDEO_COLS - left) as u8
        };
        if rows > 0 && base + rows > MEM_SIZE {
            return Err(Fault::AddressOutOfRange);
        }
        self.v[0xF] = 0;
        proof {
            lemma_draw_start(m, gx, gy, gn);
        }

        let mut row: usize = 0;
        while row < rows
            invariant
                m.wf(),
                0 <= gx < 16,
                0 <= gy < 16,
                gn == n,
                row <= rows <= n,
                rows == m.sprite_rows(gy, gn),
                rows > 0 ==> base + rows <= 4096,
                base == m.i,
                left == m.v[gx] as int % 64,
                top == m.v[gy] as int % 32,
                top + rows <= 32,
                cols == (if left + 8 < 64 {
                    8
                } else {
                    64 - left
                }),
                self.video@ == drawn_until(m, gx, gy, gn, row as int, 0),
                self.v@ == m.v.update(15, flag_until(m, gx, gy, gn, row as int, 0)),
                self@ == (Machine { video: self.video@, v: self.v@, ..m }),
            decreases rows - row,
        {
            let byte = self.mem[base + row];
            let mut col: u8 = 0;
            while col < cols
                invariant
                    m.wf(),
                    0 <= gx < 16,
                    0 <= gy < 16,
                    gn == n,
                    row < rows <= n,
                    base + rows <= 4096,
                    base == m.i,
                    byte == m.mem[base + row],
                    left == m.v[gx] as int % 64,
                    top == m.v[gy] as int % 32,
                    top + rows <= 32,
                    col <= cols <= 8,
                    left + cols <= 64,
                    self.video@ == drawn_until(m, gx, gy, gn, row as int, col as int),
                    self.v@ == m.v.update(15, flag_until(m, gx, gy, gn, row as int, col as int)),
                    self@ == (Machine { video: self.video@, v: self.v@, ..m }),
                decreases cols - col,
            {
                let pos = (top + row) * VIDEO_COLS + left + col as usize;
                proof {
                    lemma_draw_pixel(m, gx, gy, gn, row as int, col as int, pos as int);
                }
                if byte & (0x80u8 >> col) != 0 {
                    self.flip_pixel(pos);
                }
                col += 1;
            }
            proof {
                lemma_draw_row_end(m, gx, gy, gn, row as int, cols as int);
            }
            row += 1;
        }
        proof {
            lemma_draw_end(m, gx, gy, gn);
        }
        Ok(Progress::Completed)
    }
}

/// What a tick or an instruction is to return and to leave behind, given
/// what the model says of the state it started from.
pub open spec fn agrees(
    expected: Result<(Machine, Progress), Fault>,
    before: Machine,
    after: Machine,
    r: Result<Progress, Fault>,
) -> bool {
    match expected {
        Ok((m, p)) => r == Ok::<Progress, Fault>(p) && after == m,
        Err(f) => r == Err::<Progress, Fault>(f) && after == before,
    }
}

impl Chip8 {
    /// Reads the instruction word at the program counter and moves the
    /// program counter past it.
    fn fetch(&mut self) -> (r: Result<u16, Fault>)
        ensures
            !old(self)@.fetchable() ==> r == Err::<u16, Fault>(Fault::AddressOutOfRange) && final(self)@ == old(self)@,
            old(self)@.fetchable() ==> r == Ok::<u16, Fault>(old(self)@.opcode()) && final(self)@
                == old(self)@.moved(2),
    {
        let pc = self.pc as usize;
        if pc + 1 >= MEM_SIZE {
            return Err(Fault::AddressOutOfRange);
        }
        let opcode = join_bytes(self.mem[pc], self.mem[pc + 1]);
        self.pc += 2;
        Ok(opcode)
    }

    /// Executes an arithmetic instruction.
    fn execute_arith(&mut self, opcode: u16) -> (r: Result<Progress, Fault>)
        ensures
            agrees(old(self)@.execute_arith(opcode), old(self)@, final(self)@, r),
    {
        let x = dec_x(opcode);
        let y = dec_y(opcode);
        match dec_nibble(opcode) {
            0x0 => self.op_8xy0(x, y),
            0x1 => self.op_8xy1(x, y),
            0x2 => self.op_8xy2(x, y),
            0x3 => self.op_8xy3(x, y),
            0x4 => self.op_8xy4(x, y),
            0x5 => self.op_8xy5(x, y),
            0x6 => self.op_8xy6(x, y),
            0x7 => self.op_8xy7(x, y),
            0xE => self.op_8xye(x, y),
            _ => {
                return Err(Fault::UnknownInstruction(opcode));
            },
        }
        Ok(Progress::Completed)
    }

    /// Executes a key-test instruction.
    fn execute_keys(&mut self, opcode: u16) -> (r: Result<Progress, Fault>)
        requires
            old(self)@.pc <= 0xFFFD,
        ensures
            agrees(old(self)@.execute_keys(opcode), old(self)@, final(self)@, r),
    {
        let x = dec_x(opcode);
        let done = match dec_byte(opcode) {
            0x9E => self.op_ex9e(x),
            0xA1 => self.op_exa1(x),
            _ => Err(Fault::UnknownInstruction(opcode)),
        };
        match done {
            Ok(()) => Ok(Progress::Completed),
            Err(f) => Err(f),
        }
    }

    /// Executes a timer, key-wait, index or memory instruction.
    fn execute_misc(&mut self, opcode: u16) -> (r: Result<Progress, Fault>)
        requires
            old(self).wf(),
            old(self)@.pc >= 2,
        ensures
            agrees(old(self)@.execute_misc(opcode), old(self)@, final(self)@, r),
    {
        let x = dec_x(opcode);
        let done = match dec_byte(opcode) {
            0x07 => {
                self.op_fx07(x);
                Ok(())
            },
            0x0A => {
                return Ok(self.op_fx0a(x));
            },
            0x15 => {
                self.op_fx15(x);
                Ok(())
            },
            0x18 => {
                self.op_fx18(x);
                Ok(())
            },
            0x1E => {
                self.op_fx1e(x);
                Ok(())
            },
            0x29 => {
                self.op_fx29(x);
                Ok(())
            },
            0x33 => self.op_fx33(x),
            0x55 => self.op_fx55(x),
            0x65 => self.op_fx65(x),
            _ => Err(Fault::UnknownInstruction(opcode)),
        };
        match done {
            Ok(()) => Ok(Progress::Completed),
            Err(f) => Err(f),
        }
    }

    /// Executes the instruction `opcode`, which has just been fetched.
    fn execute(&mut self, opcode: u16) -> (r: Result<Progress, Fault>)
        requires
            old(self).wf(),
            2 <= old(self)@.pc <= 4096,
        ensures
            agrees(old(self)@.execute(opcode), old(self)@, final(self)@, r),
    {
        let x = dec_x(opcode);
        let y = dec_y(opcode);
        let n = dec_nibble(opcode);
        let kk = dec_byte(opcode);
        let nnn = dec_addr(opcode);
        let done = match dec_family(opcode) {
            0x0 => {
                if opcode == 0x00E0 {
                    self.op_00e0();
                    Ok(())
                } else if opcode == 0x00EE {
                    self.op_00ee()
                } else {
                    return Ok(Progress::Ignored);
                }
            },
            0x1 => {
                self.op_1nnn(nnn);
                Ok(())
            },
            0x2 => self.op_2nnn(nnn),
            0x3 => {
                self.op_3xkk(x, kk);
                Ok(())
            },
            0x4 => {
                self.op_4xkk(x, kk);
                Ok(())
            },
            0x5 => {
                self.op_5xy0(x, y);
                Ok(())
            },
            0x6 => {
                self.op_6xkk(x, kk);
                Ok(())
            },
            0x7 => {
                self.op_7xkk(x, kk);
                Ok(())
            },
            0x8 => {
                return self.execute_arith(opcode);
            },
            0x9 => {
                self.op_9xy0(x, y);
                Ok(())
            },
            0xA => {
                self.op_annn(nnn);
                Ok(())
            },
            0xB => {
                self.op_bnnn(nnn);
                Ok(())
            },
            0xC => {
                self.op_cxkk(x, kk);
                Ok(())
            },
            0xD => {
                return self.op_dxyn(x, y, n);
            },
            0xE => {
                return self.execute_keys(opcode);
            },
            _ => {
                return self.execute_misc(opcode);
            },
        };
        match done {
            Ok(()) => Ok(Progress::Completed),
            Err(f) => Err(f),
        }
    }

    /// Runs one tick: fetches the instruction at the program counter and
    /// executes it. Where the instruction cannot run, the fault is returned
    /// and the machine is left as it was.
    pub fn tick(&mut self) -> (r: Result<Progress, Fault>)
        requires
            old(self).wf(),
        ensures
            final(self).wf(),
            agrees(old(self)@.step(), old(self)@, final(self)@, r),
    {
        proof {
            lemma_step_wf(self@);
        }
        let pc = self.pc;
        let opcode = match self.fetch() {
            Ok(opcode) => opcode,
            Err(f) => {
                return Err(f);
            },
        };
        match self.execute(opcode) {
            Ok(p) => Ok(p),
            Err(f) => {
                self.pc = pc;
                Err(f)
            },
        }
    }
}

} // verus!
