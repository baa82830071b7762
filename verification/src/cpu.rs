//! The control unit: the register file (IP, SP, A), the reference semantics
//! of one fetch-decode-execute-writeback cycle, and the driver that repeats
//! cycles until a halt condition is met.

use vstd::prelude::*;
use crate::EmuError;
use crate::alu;
use crate::decode::{AluMode, Cond, Dest, Instr, LeftSel, RightSel, spec_decode, decode};
use crate::memory::{MemModel, Memory, hi_byte, lo_byte, word_of_bytes};

verus! {

/// SP addresses the stack region only while at or above this floor; dropping
/// below it halts the run.
pub const SP_FLOOR: u16 = 0x8000;

/// IP addresses the program region only while at or below this bound;
/// exceeding it halts the run.
pub const IP_CEIL: u16 = 0x8000;

/// The accumulator value on which the run halts: the loop-termination signal
/// used by the example program, not a general architectural feature.
pub const HALT_SENTINEL: u16 = 28657;

/// The register file, owned exclusively by the control unit.
#[derive(Clone, Copy, Debug, PartialEq, Eq)]
pub struct Cpu {
    pub ip: u16,
    pub sp: u16,
    pub a: u16,
}

/// The whole machine as the specification sees it: registers plus the
/// memory model.
pub struct Machine {
    pub cpu: Cpu,
    pub mem: MemModel,
}

/// The machine state made of the given registers and memory view.
pub open spec fn machine(cpu: Cpu, mem: MemModel) -> Machine {
    Machine { cpu, mem }
}

/// The halt condition, checked before every fetch: SP under the stack floor,
/// IP past the program bound, or the accumulator at the halt sentinel.
pub open spec fn spec_halted(cpu: Cpu) -> bool {
    cpu.sp < SP_FLOOR || cpu.ip > IP_CEIL || cpu.a == HALT_SENTINEL
}

/// A state whose SP has underflowed the stack region or whose IP has left
/// the program region satisfies the halt condition, so the run loop stops
/// there before fetching anything.
pub proof fn lemma_halt_on_bounds(cpu: Cpu)
    requires
        cpu.sp < SP_FLOOR || cpu.ip > IP_CEIL,
    ensures
        spec_halted(cpu),
{
}

/// 16-bit increment with wraparound.
pub open spec fn inc16(x: u16) -> u16 {
    if x == 0xFFFF {
        0
    } else {
        (x + 1) as u16
    }
}

/// 16-bit decrement with wraparound.
pub open spec fn dec16(x: u16) -> u16 {
    if x == 0 {
        0xFFFF
    } else {
        (x - 1) as u16
    }
}

/// The ALU's left operand under the decoded selection, together with the
/// memory state after resolving it: a memory-sourced operand reads address
/// SP, routed to serial when the instruction says so, which consumes input.
/// The two reserved codes are a fatal condition.
pub open spec fn left_operand(i: Instr, m: Machine) -> Result<(u16, MemModel), EmuError> {
    match i.left {
        LeftSel::Zero => Ok((0u16, m.mem)),
        LeftSel::MemAtSp => if !i.serial {
            Ok((m.mem.ram[m.cpu.sp as int], m.mem))
        } else if m.mem.in_pos + 2 <= m.mem.ser_in.len() {
            Ok(
                (
                    word_of_bytes(m.mem.ser_in[m.mem.in_pos], m.mem.ser_in[m.mem.in_pos + 1]),
                    MemModel { in_pos: m.mem.in_pos + 2, ..m.mem },
                ),
            )
        } else {
            Err(EmuError::SerialUnderrun)
        },
        LeftSel::Reserved0 => Err(EmuError::UnimplementedOperand),
        LeftSel::Reserved1 => Err(EmuError::UnimplementedOperand),
        LeftSel::Acc => Ok((m.cpu.a, m.mem)),
        LeftSel::NotAcc => Ok((!m.cpu.a, m.mem)),
        LeftSel::Sp => Ok((m.cpu.sp, m.mem)),
        LeftSel::Ip => Ok((m.cpu.ip, m.mem)),
    }
}

/// The ALU's right operand under the decoded selection.
pub open spec fn right_operand(sel: RightSel, a: u16) -> u16 {
    match sel {
        RightSel::Zero => 0u16,
        RightSel::Acc => a,
        RightSel::Ones => 0xFFFFu16,
        RightSel::NotAcc => !a,
    }
}

/// The write-back stage, in its fixed order: (a) decrement SP if asked,
/// (b) write the result to the selected target, where memory writes go to
/// the possibly just-decremented SP, routed to serial when the instruction
/// says so, (c) increment SP if asked, (d) increment SP once more if the
/// selected flag is set, (e) increment IP if asked.
pub open spec fn writeback(i: Instr, cpu: Cpu, mem: MemModel, res: u16, cf: bool, of: bool) -> Machine {
    let sp1 = if i.decr_sp {
        dec16(cpu.sp)
    } else {
        cpu.sp
    };
    let stage = match i.dest {
        Dest::Acc => (res, sp1, cpu.ip, mem),
        Dest::MemAtSp => if i.serial {
            (cpu.a, sp1, cpu.ip, MemModel { ser_out: mem.ser_out + seq![hi_byte(res), lo_byte(res)], ..mem })
        } else {
            (cpu.a, sp1, cpu.ip, MemModel { ram: mem.ram.update(sp1 as int, res), ..mem })
        },
        Dest::Sp => (cpu.a, res, cpu.ip, mem),
        Dest::Ip => (cpu.a, sp1, res, mem),
    };
    let a2 = stage.0;
    let sp2 = stage.1;
    let ip2 = stage.2;
    let mem2 = stage.3;
    let sp3 = if i.incr_sp {
        inc16(sp2)
    } else {
        sp2
    };
    let sp4 = match i.cond {
        Cond::Never => sp3,
        Cond::IfZero => if res == 0 {
            inc16(sp3)
        } else {
            sp3
        },
        Cond::IfCarry => if cf {
            inc16(sp3)
        } else {
            sp3
        },
        Cond::IfOverflow => if of {
            inc16(sp3)
        } else {
            sp3
        },
    };
    let ip3 = if i.incr_ip {
        inc16(ip2)
    } else {
        ip2
    };
    Machine { cpu: Cpu { ip: ip3, sp: sp4, a: a2 }, mem: mem2 }
}

/// One full cycle of the reference semantics: fetch the word at IP with
/// serial routing off, decode it, resolve the operands, run the ALU, and
/// apply the write-back stage.
pub open spec fn cycle(m: Machine) -> Result<Machine, EmuError> {
    let i = spec_decode(m.mem.ram[m.cpu.ip as int]);
    match left_operand(i, m) {
        Err(e) => Err(e),
        Ok(lv) => {
            let rv = right_operand(i.right, m.cpu.a);
            let out = alu::alu_spec(i.mode, lv.0, i.carry_in, rv);
            Ok(writeback(i, m.cpu, lv.1, out.0, out.1, out.2))
        },
    }
}

/// `m1` is reached from `m0` by exactly `n` cycles, none of which starts in
/// a halted state and none of which fails.
pub open spec fn steps_from(m0: Machine, n: nat, m1: Machine) -> bool
    decreases n,
{
    if n == 0 {
        m0 == m1
    } else if spec_halted(m0.cpu) {
        false
    } else {
        match cycle(m0) {
            Ok(m2) => steps_from(m2, (n - 1) as nat, m1),
            Err(_) => false,
        }
    }
}

impl Cpu {
    /// Registers at power-on: IP 0, SP at the top of the address space, A 0.
    pub fn new() -> (c: Cpu)
        ensures
            c.ip == 0 && c.sp == 0xFFFF && c.a == 0,
    {
        Cpu { ip: 0, sp: 0xFFFF, a: 0 }
    }

    /// Whether the halt condition holds of the current registers.
    pub fn is_halted(&self) -> (r: bool)
        ensures
            r == spec_halted(*self),
    {
        self.sp < SP_FLOOR || self.ip > IP_CEIL || self.a == HALT_SENTINEL
    }
}

/// 16-bit wrapping increment.
fn wrap_inc(x: u16) -> (r: u16)
    ensures
        r == inc16(x),
{
    if x == 0xFFFF {
        0
    } else {
        x + 1
    }
}

/// 16-bit wrapping decrement.
fn wrap_dec(x: u16) -> (r: u16)
    ensures
        r == dec16(x),
{
    if x == 0 {
        0xFFFF
    } else {
        x - 1
    }
}

/// The write-back stage as executable code, in exactly the fixed order that
/// [`writeback`] fixes.
#[verifier::rlimit(50)]
fn do_writeback(cpu: &mut Cpu, mem: &mut Memory, i: Instr, res: u16, cf: bool, of: bool)
    requires
        old(mem).wf(),
    ensures
        final(mem).wf(),
        machine(*final(cpu), final(mem)@) == writeback(i, *old(cpu), old(mem)@, res, cf, of),
{
    let sp1: u16 = if i.decr_sp {
        wrap_dec(cpu.sp)
    } else {
        cpu.sp
    };
    let mut new_a: u16 = cpu.a;
    let mut new_sp: u16 = sp1;
    let mut new_ip: u16 = cpu.ip;
    match i.dest {
        Dest::Acc => { new_a = res; },
        Dest::MemAtSp => { mem.write(sp1, res, i.serial); },
        Dest::Sp => { new_sp = res; },
        Dest::Ip => { new_ip = res; },
    }
    if i.incr_sp {
        new_sp = wrap_inc(new_sp);
    }
    match i.cond {
        Cond::Never => {},
        Cond::IfZero => {
            if res == 0 {
                new_sp = wrap_inc(new_sp);
            }
        },
        Cond::IfCarry => {
            if cf {
                new_sp = wrap_inc(new_sp);
            }
        },
        Cond::IfOverflow => {
            if of {
                new_sp = wrap_inc(new_sp);
            }
        },
    }
    if i.incr_ip {
        new_ip = wrap_inc(new_ip);
    }
    cpu.a = new_a;
    cpu.sp = new_sp;
    cpu.ip = new_ip;
}

/// One fetch-decode-execute-writeback cycle, driving the registers and the
/// memory exactly as the reference semantics [`cycle`] says: on success the
/// machine moves to the successor state; on a fatal condition nothing is
/// changed and the error is reported.
#[verifier::rlimit(50)]
pub fn step(cpu: &mut Cpu, mem: &mut Memory) -> (r: Result<(), EmuError>)
    requires
        old(mem).wf(),
    ensures
        final(mem).wf(),
        (match cycle(machine(*old(cpu), old(mem)@)) {
            Ok(m2) => r is Ok && machine(*final(cpu), final(mem)@) == m2,
            Err(e) => r == Err::<(), EmuError>(e) && *final(cpu) == *old(cpu) && final(mem)@
                == old(mem)@,
        }),
{
    // fetch, with serial routing forced off
    let w: u16 = match mem.read(cpu.ip, false) {
        Ok(v) => v,
        Err(e) => { return Err(e); },
    };
    let i: Instr = decode(w);

    // operand resolution
    let left_val: u16 = match i.left {
        LeftSel::Zero => 0,
        LeftSel::MemAtSp => {
            match mem.read(cpu.sp, i.serial) {
                Ok(v) => v,
                Err(e) => { return Err(e); },
            }
        },
        LeftSel::Reserved0 => { return Err(EmuError::UnimplementedOperand); },
        LeftSel::Reserved1 => { return Err(EmuError::UnimplementedOperand); },
        LeftSel::Acc => cpu.a,
        LeftSel::NotAcc => !cpu.a,
        LeftSel::Sp => cpu.sp,
        LeftSel::Ip => cpu.ip,
    };
    let right_val: u16 = match i.right {
        RightSel::Zero => 0,
        RightSel::Acc => cpu.a,
        RightSel::Ones => 0xFFFF,
        RightSel::NotAcc => !cpu.a,
    };

    // execute
    let out: (u16, bool, bool) = match i.mode {
        AluMode::Nand => (!(left_val & right_val), false, false),
        AluMode::Add => {
            match i.cond {
                Cond::Never => {
                    // neither flag is consumed this cycle: plain wrapping
                    // addition, provably equal in the result field
                    let cin: u16 = if i.carry_in { 1 } else { 0 };
                    let t: u32 = (left_val as u32) + (right_val as u32) + (cin as u32);
                    proof {
                        assert((t & 0xFFFF) as u16 == (left_val + right_val + cin) % 0x10000)
                            by (bit_vector)
                            requires
                                t == (left_val as u32) + (right_val as u32) + (cin as u32),
                                cin <= 1,
                        ;
                    }
                    ((t & 0xFFFF) as u16, false, false)
                },
                _ => alu::alu_eval(AluMode::Add, left_val, i.carry_in, right_val),
            }
        },
    };

    // write-back, in the fixed order
    proof {
        let gm0 = machine(*old(cpu), old(mem)@);
        let gi = spec_decode(old(mem)@.ram[old(cpu).ip as int]);
        let glv = left_operand(gi, gm0)->Ok_0;
        let gout = alu::alu_spec(gi.mode, glv.0, gi.carry_in, right_operand(gi.right, gm0.cpu.a));
        // when no flag is consumed, the flags passed on cannot matter
        assert(gi.cond is Never ==> writeback(gi, *cpu, mem@, out.0, out.1, out.2) == writeback(
            gi,
            *cpu,
            mem@,
            gout.0,
            gout.1,
            gout.2,
        ));
    }
    do_writeback(cpu, mem, i, out.0, out.1, out.2);
    Ok(())
}

/// Appending one more successful, non-halted cycle to a run of `n` cycles
/// gives a run of `n + 1` cycles.
pub proof fn lemma_steps_from_snoc(m0: Machine, n: nat, m1: Machine, m2: Machine)
    requires
        steps_from(m0, n, m1),
        !spec_halted(m1.cpu),
        cycle(m1) == Ok::<Machine, EmuError>(m2),
    ensures
        steps_from(m0, n + 1, m2),
    decreases n,
{
    if n == 0 {
        assert(steps_from(m2, 0, m2));
    } else {
        let mx = cycle(m0)->Ok_0;
        lemma_steps_from_snoc(mx, (n - 1) as nat, m1, m2);
    }
}

/// A halted state executes no further cycle: every run the reference
/// semantics admits from it is empty, so once SP underflows the stack floor,
/// IP leaves the program region, or the accumulator reaches the sentinel,
/// the machine stays exactly where it is.
pub proof fn lemma_halted_runs_nowhere(m0: Machine, n: nat, m1: Machine)
    requires
        spec_halted(m0.cpu),
        steps_from(m0, n, m1),
    ensures
        n == 0,
        m1 == m0,
{
}

/// How a bounded run ended: the halt condition was met, or the cycle budget
/// ran out first.
#[derive(Clone, Copy, Debug, PartialEq, Eq)]
pub enum RunStatus {
    Halted,
    OutOfCycles,
}

/// Repeat cycles until the halt condition holds, a fatal condition occurs,
/// or `max_cycles` cycles have been executed. The final machine is always
/// one the reference semantics reaches from the initial one by some number
/// of non-halted cycles; a machine that already satisfies the halt condition
/// is returned untouched, before any fetch.
pub fn run(cpu: &mut Cpu, mem: &mut Memory, max_cycles: u64) -> (r: Result<RunStatus, EmuError>)
    requires
        old(mem).wf(),
    ensures
        final(mem).wf(),
        exists|n: nat|
            #[trigger] steps_from(
                machine(*old(cpu), old(mem)@),
                n,
                machine(*final(cpu), final(mem)@),
            ) && n <= max_cycles,
        r == Ok::<RunStatus, EmuError>(RunStatus::Halted) ==> spec_halted(*final(cpu)),
        r == Ok::<RunStatus, EmuError>(RunStatus::OutOfCycles) ==> (!spec_halted(*final(cpu))
            && steps_from(
            machine(*old(cpu), old(mem)@),
            max_cycles as nat,
            machine(*final(cpu), final(mem)@),
        )),
        (match r {
            Err(e) => !spec_halted(*final(cpu)) && cycle(machine(*final(cpu), final(mem)@))
                == Err::<Machine, EmuError>(e),
            Ok(_) => true,
        }),
        spec_halted(*old(cpu)) ==> (r == Ok::<RunStatus, EmuError>(RunStatus::Halted)
            && *final(cpu) == *old(cpu) && final(mem)@ == old(mem)@),
{
    let mut cycles_left: u64 = max_cycles;
    let ghost mut taken: nat = 0nat;
    loop
        invariant
            mem.wf(),
            taken + cycles_left == max_cycles,
            steps_from(machine(*old(cpu), old(mem)@), taken, machine(*cpu, mem@)),
        decreases cycles_left,
    {
        if cpu.is_halted() {
            proof {
                if spec_halted(*old(cpu)) {
                    assert(taken == 0);
                }
            }
            return Ok(RunStatus::Halted);
        }
        if cycles_left == 0 {
            return Ok(RunStatus::OutOfCycles);
        }
        let ghost m_before: Machine = machine(*cpu, mem@);
        match step(cpu, mem) {
            Ok(_) => {
                proof {
                    lemma_steps_from_snoc(
                        machine(*old(cpu), old(mem)@),
                        taken,
                        m_before,
                        machine(*cpu, mem@),
                    );
                    taken = taken + 1;
                }
            },
            Err(e) => { return Err(e); },
        }
        cycles_left = cycles_left - 1;
    }
}

} // verus!
