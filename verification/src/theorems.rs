//! Theorems about the machine, proved from the model of its instructions.

use vstd::prelude::*;
use crate::decode::{addr_of, byte_of, family_of, nibble_of, x_of, y_of};
use crate::machine::{toggled, with_program, Fault, Machine, Progress};
use crate::semantics::{completed, lemma_first_down_from, lemma_step_wf};

verus! {

impl Machine {
    /// The machine with its key snapshot replaced.
    pub open spec fn with_keys(self, keys: Seq<bool>) -> Machine {
        Machine { keys, ..self }
    }

    /// The machine after `n` ticks, a tick that faults leaving it as it is.
    pub open spec fn run(self, n: nat) -> Machine
        decreases n,
    {
        if n == 0 {
            self
        } else {
            self.after_step().run((n - 1) as nat)
        }
    }

    /// The instruction at the program counter can be fetched and belongs to
    /// family `family`.
    pub open spec fn at_family(self, family: int) -> bool {
        self.fetchable() && family_of(self.opcode()) == family
    }

    /// The instruction at the program counter can be fetched, belongs to
    /// the family 0xF and has `low` as its low byte.
    pub open spec fn at_misc(self, low: int) -> bool {
        self.at_family(0xF) && byte_of(self.opcode()) == low
    }
}

/// Clearing the screen sets every framebuffer cell to 0, whatever the
/// framebuffer held, and touches nothing else but the program counter.
pub proof fn theorem_clear_screen(m: Machine)
    requires
        m.wf(),
        m.fetchable(),
        m.opcode() == 0x00E0,
    ensures
        m.step() is Ok,
        forall|p: int| 0 <= p < 2048 ==> m.after_step().video[p] == 0,
        m.after_step() == (Machine { video: m.after_step().video, ..m.moved(2) }),
{
    assert(family_of(m.opcode()) == 0);
    assert(m.step() == completed(m.moved(2).clear_screen()));
}

/// A call puts the address of the next instruction on the stack. A return
/// that finds the stack as the call left it, whatever ran in between,
/// brings the program counter to the instruction after the call and the
/// stack depth back to what it was before the call.
pub proof fn theorem_call_return(m: Machine, later: Machine)
    requires
        m.wf(),
        m.at_family(0x2),
        m.sp < 16,
        later.wf(),
        later.fetchable(),
        later.opcode() == 0x00EE,
        later.sp == m.after_step().sp,
        later.stack[m.sp as int] == m.after_step().stack[m.sp as int],
    ensures
        m.step() is Ok,
        m.after_step().pc == addr_of(m.opcode()),
        m.after_step().sp == m.sp + 1,
        later.step() is Ok,
        later.after_step().pc == m.pc + 2,
        later.after_step().sp == m.sp,
{
    assert(m.step() == completed(m.moved(2).call(addr_of(m.opcode()) as u16)));
    assert(family_of(later.opcode()) == 0);
    assert(later.step() == completed(later.moved(2).ret()));
}

/// A call followed at once by the return of the subroutine takes two ticks
/// and leaves the program counter on the instruction after the call and the
/// stack depth as it was.
pub proof fn theorem_call_return_at_once(m: Machine)
    requires
        m.wf(),
        m.at_family(0x2),
        m.sp < 16,
        m.after_step().fetchable(),
        m.after_step().opcode() == 0x00EE,
    ensures
        m.run(2).pc == m.pc + 2,
        m.run(2).sp == m.sp,
{
    reveal_with_fuel(Machine::run, 3);
    lemma_step_wf(m);
    theorem_call_return(m, m.after_step());
}

/// The hundreds, tens and units of a number below a thousand are digits and
/// spell the number.
pub proof fn lemma_decimal_digits(n: int)
    requires
        0 <= n < 1000,
    ensures
        0 <= n / 100 <= 9,
        0 <= n / 10 % 10 <= 9,
        0 <= n % 10 <= 9,
        (n / 100) * 100 + (n / 10 % 10) * 10 + n % 10 == n,
{
}

/// The three bytes that the digit store leaves at the index register are
/// the decimal digits of the register: each is below ten, and together, the
/// hundreds first, they spell its value.
pub proof fn theorem_bcd_digits(m: Machine)
    requires
        m.wf(),
        m.at_misc(0x33),
        m.i + 2 < 4096,
    ensures
        m.step() is Ok,
        ({
            let after = m.after_step();
            let i = m.i as int;
            &&& after.mem[i] <= 9
            &&& after.mem[i + 1] <= 9
            &&& after.mem[i + 2] <= 9
            &&& after.mem[i] * 100 + after.mem[i + 1] * 10 + after.mem[i + 2] == m.v[x_of(
                m.opcode(),
            )]
        }),
{
    let x = x_of(m.opcode());
    assert(m.step() == completed(m.moved(2).bcd(x)));
    lemma_decimal_digits(m.v[x] as int);
}

/// Pointing the index register at the glyph of the digit in a register
/// sets it to five times that digit.
pub proof fn theorem_glyph_address(m: Machine)
    requires
        m.wf(),
        m.at_misc(0x29),
    ensures
        m.step() is Ok,
        m.after_step().i == m.v[x_of(m.opcode())] * 5,
{
    assert(m.step() == completed(m.moved(2).glyph(x_of(m.opcode()))));
}

/// Registers stored in bulk and then loaded in bulk from the same address
/// come back as they were, in a machine of either family, whatever happened
/// to the registers in between.
pub proof fn theorem_store_load_round_trip(m: Machine, store: u16, later: Machine, load: u16)
    requires
        m.wf(),
        later.wf(),
        family_of(store) == 0xF && byte_of(store) == 0x55,
        family_of(load) == 0xF && byte_of(load) == 0x65,
        x_of(load) == x_of(store),
        m.i + x_of(store) < 4096,
        m.execute(store) matches Ok((stored, _)) && later.mem == stored.mem,
        later.i == m.i,
    ensures
        later.execute(load) matches Ok((loaded, _)) && forall|k: int|
            0 <= k <= x_of(store) ==> loaded.v[k] == m.v[k],
{
    let x = x_of(store);
    assert(m.execute(store) == m.execute_misc(store));
    assert(m.execute(store) == completed(m.store_regs(x)));
    assert(later.execute(load) == later.execute_misc(load));
    assert(later.execute(load) == completed(later.load_regs(x)));
}

/// Adding two registers leaves the sum modulo 256 in the first, and 1 in
/// the flag register exactly if the sum did not fit in a byte.
pub proof fn theorem_add_carry(m: Machine, opcode: u16)
    requires
        m.wf(),
        family_of(opcode) == 0x8 && nibble_of(opcode) == 0x4,
    ensures
        m.execute(opcode) matches Ok((after, _)) && {
            let sum = m.v[x_of(opcode)] + m.v[y_of(opcode)];
            &&& after.v[15] == (if sum > 255 {
                1int
            } else {
                0int
            })
            &&& x_of(opcode) != 15 ==> after.v[x_of(opcode)] + 256 * after.v[15] == sum
        },
{
    assert(m.execute(opcode) == m.execute_arith(opcode));
    assert(m.execute(opcode) == completed(m.add_reg(x_of(opcode), y_of(opcode))));
}

/// After a subtraction, in either order of the operands, the flag register
/// holds 1 exactly if nothing was borrowed, that is if the register taken
/// from is at least the register taken away, and 0 otherwise.
pub proof fn theorem_sub_borrow(m: Machine, opcode: u16)
    requires
        m.wf(),
        family_of(opcode) == 0x8,
        nibble_of(opcode) == 0x5 || nibble_of(opcode) == 0x7,
    ensures
        m.execute(opcode) matches Ok((after, _)) && {
            let vx = m.v[x_of(opcode)];
            let vy = m.v[y_of(opcode)];
            &&& nibble_of(opcode) == 0x5 ==> (after.v[15] == 1 <==> vx >= vy) && (after.v[15] == 0
                <==> vx < vy)
            &&& nibble_of(opcode) == 0x7 ==> (after.v[15] == 1 <==> vy >= vx) && (after.v[15] == 0
                <==> vy < vx)
            &&& nibble_of(opcode) == 0x5 && x_of(opcode) != 15 ==> after.v[x_of(opcode)] == (vx
                - vy) % 256
            &&& nibble_of(opcode) == 0x7 && x_of(opcode) != 15 ==> after.v[x_of(opcode)] == (vy
                - vx) % 256
        },
{
    let x = x_of(opcode);
    let y = y_of(opcode);
    assert(m.execute(opcode) == m.execute_arith(opcode));
    if nibble_of(opcode) == 0x5 {
        assert(m.execute(opcode) == completed(m.sub_reg(x, x, y)));
    } else {
        assert(m.execute(opcode) == completed(m.sub_reg(x, y, x)));
    }
}

/// Drawing a one-row sprite whose only pixel is its leftmost flips the cell
/// at the position that the registers name and no other. If the cell was
/// on, it goes off and the flag register becomes 1; if it was off, it goes
/// on and the flag register becomes 0.
pub proof fn theorem_draw_single_pixel(m: Machine)
    requires
        m.wf(),
        m.at_family(0xD),
        nibble_of(m.opcode()) == 1,
        m.vblank,
        m.i < 4096,
        m.mem[m.i as int] == 0x80,
    ensures
        m.step() is Ok,
        ({
            let after = m.after_step();
            let cell = (m.v[y_of(m.opcode())] as int % 32) * 64 + m.v[x_of(m.opcode())] as int
                % 64;
            &&& 0 <= cell < 2048
            &&& after.video[cell] == toggled(m.video[cell])
            &&& forall|p: int| 0 <= p < 2048 && p != cell ==> after.video[p] == m.video[p]
            &&& after.v[15] == m.video[cell]
        }),
{
    let f = m.moved(2);
    let x = x_of(m.opcode());
    let y = y_of(m.opcode());
    let left = m.v[x] as int % 64;
    let top = m.v[y] as int % 32;
    let cell = top * 64 + left;
    assert(f.sprite_rows(y, 1) == 1);
    assert forall|c: u8| c < 8 implies ((0x80u8 & (0x80u8 >> c)) != 0) == (c == 0) by {
        assert(c < 8 ==> (((0x80u8 & (0x80u8 >> c)) != 0) == (c == 0))) by (bit_vector);
    }
    assert forall|p: int| 0 <= p < 2048 implies f.flips(x, y, 1, p) == (p == cell) by {
        if top <= p / 64 < top + 1 && left <= p % 64 < left + 8 {
            let c = (p % 64 - left) as u8;
            assert(((0x80u8 & (0x80u8 >> c)) != 0) == (c == 0));
            assert(f.sprite_bit(p / 64 - top, p % 64 - left) == (c == 0));
        }
    }
    assert(f.flips(x, y, 1, cell));
    if m.video[cell] == 1 {
        assert(f.flips(x, y, 1, cell) && f.video[cell] == 1);
    } else {
        assert(!f.collides(x, y, 1));
    }
}

/// While no key is down and none is latched, a tick on the key wait changes
/// nothing at all: the program counter still points at the instruction.
pub proof fn theorem_key_wait_idle(m: Machine)
    requires
        m.wf(),
        m.at_misc(0x0A),
        m.wait_for_key is None,
        forall|k: int| 0 <= k < 16 ==> !m.keys[k],
    ensures
        m.step() == Ok::<(Machine, Progress), Fault>((m, Progress::Retry)),
{
    lemma_first_down_from(m.keys, 0);
}

/// However many ticks run on the key wait while no key is down, the machine
/// stays as it is, and so does its program counter.
pub proof fn theorem_key_wait_idle_for_ever(m: Machine, n: nat)
    requires
        m.wf(),
        m.at_misc(0x0A),
        m.wait_for_key is None,
        forall|k: int| 0 <= k < 16 ==> !m.keys[k],
    ensures
        m.run(n) == m,
    decreases n,
{
    if n > 0 {
        theorem_key_wait_idle(m);
        theorem_key_wait_idle_for_ever(m, (n - 1) as nat);
    }
}

/// Once a key goes down, the key wait latches the lowest key that is down
/// and stays on the instruction; while that key is held it stays there; once
/// a snapshot shows that key up, the instruction completes, stores the key's
/// number in its register, drops the latch, and the program counter advances
/// by one instruction.
pub proof fn theorem_key_wait_press_release(
    m: Machine,
    pressed: Seq<bool>,
    released: Seq<bool>,
    key: int,
)
    requires
        m.wf(),
        m.at_misc(0x0A),
        m.wait_for_key is None,
        pressed.len() == 16,
        released.len() == 16,
        0 <= key < 16,
        pressed[key],
        forall|k: int| 0 <= k < key ==> !pressed[k],
        !released[key],
    ensures
        ({
            let latched = m.with_keys(pressed).after_step();
            let done = latched.with_keys(released).after_step();
            &&& m.with_keys(pressed).step() == Ok::<(Machine, Progress), Fault>(
                (latched, Progress::Retry),
            )
            &&& latched == (Machine { wait_for_key: Some(key as u8), ..m.with_keys(pressed) })
            &&& latched.step() == Ok::<(Machine, Progress), Fault>((latched, Progress::Retry))
            &&& latched.with_keys(released).step() == Ok::<(Machine, Progress), Fault>(
                (done, Progress::Completed),
            )
            &&& done.v[x_of(m.opcode())] == key
            &&& done.wait_for_key is None
            &&& done.pc == m.pc + 2
        }),
{
    lemma_first_down_from(pressed, 0);
}

/// A tick that reports a retry makes no progress: it leaves the machine as
/// it was, the program counter on the instruction, but for the key that a
/// key wait may have latched.
pub proof fn theorem_retry_makes_no_progress(m: Machine)
    requires
        m.wf(),
        m.step() matches Ok((_, p)) && p == Progress::Retry,
    ensures
        m.after_step() == (Machine { wait_for_key: m.after_step().wait_for_key, ..m }),
        m.after_step().pc == m.pc,
{
}

/// While the frame signal is down, a tick on a sprite draw changes nothing
/// at all and reports a retry.
pub proof fn theorem_draw_waits_for_frame(m: Machine)
    requires
        m.wf(),
        m.at_family(0xD),
        !m.vblank,
    ensures
        m.step() == Ok::<(Machine, Progress), Fault>((m, Progress::Retry)),
{
}

/// Loading a program leaves the font where it is.
pub proof fn theorem_load_keeps_font(mem: Seq<u8>, rom: Seq<u8>)
    requires
        mem.len() == 4096,
    ensures
        forall|a: int| 0 <= a < 80 ==> with_program(mem, rom)[a] == mem[a],
{
}

} // verus!
