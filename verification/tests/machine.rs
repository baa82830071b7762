use stack16::cpu::{run, step, Cpu, RunStatus};
use stack16::memory::Memory;
use stack16::EmuError;

// ---- memory and the serial channel ----

#[test]
fn fresh_memory_reads_zero_and_stores_roundtrip() {
    let mut mem = Memory::new(Vec::new());
    for &addr in [0u16, 1, 0x1234, 0x8000, 0xFFFE, 0xFFFF].iter() {
        assert_eq!(mem.read(addr, false), Ok(0));
    }
    mem.write(0x1234, 0xBEEF, false);
    mem.write(0xFFFF, 1, false);
    assert_eq!(mem.read(0x1234, false), Ok(0xBEEF));
    assert_eq!(mem.read(0xFFFF, false), Ok(1));
    assert_eq!(mem.read(0x1233, false), Ok(0));
}

#[test]
fn serial_write_emits_two_bytes_most_significant_first() {
    let mut mem = Memory::new(Vec::new());
    mem.write(0x4000, 0xBEEF, true);
    mem.write(0x4000, 0x0001, true);
    assert_eq!(mem.serial_output().as_slice(), &[0xBE, 0xEF, 0x00, 0x01]);
    // the word array is untouched by a serial-routed write
    assert_eq!(mem.read(0x4000, false), Ok(0));
}

#[test]
fn serial_read_consumes_two_bytes_most_significant_first() {
    let mut mem = Memory::new(vec![0xAB, 0xCD, 0x00, 0x7F]);
    assert_eq!(mem.read(0x9999, true), Ok(0xABCD));
    assert_eq!(mem.read(0x0000, true), Ok(0x007F));
    assert_eq!(mem.read(0x0000, true), Err(EmuError::SerialUnderrun));
}

#[test]
fn serial_read_with_one_byte_left_is_an_underrun() {
    let mut mem = Memory::new(vec![0xAB]);
    assert_eq!(mem.read(0, true), Err(EmuError::SerialUnderrun));
    // the ordinary word array is still available afterwards
    assert_eq!(mem.read(0, false), Ok(0));
}

// ---- one cycle against a reference trace ----

/// The write-back stage of one cycle, replayed independently: returns the
/// registers after the cycle and the memory write it performs, if any.
fn reference_writeback(
    ip: u16,
    sp: u16,
    a: u16,
    decr: bool,
    dest: u16,
    incr: bool,
    cond: u16,
    incr_ip: bool,
    res: u16,
    cf: bool,
    of: bool,
) -> (u16, u16, u16, Option<(u16, u16)>) {
    let sp1 = if decr { sp.wrapping_sub(1) } else { sp };
    let mut new_a = a;
    let mut new_ip = ip;
    let mut new_sp = sp1;
    let mut write = None;
    match dest {
        0 => new_a = res,
        1 => write = Some((sp1, res)),
        2 => new_sp = res,
        3 => new_ip = res,
        _ => unreachable!(),
    }
    if incr {
        new_sp = new_sp.wrapping_add(1);
    }
    let bump = match cond {
        0 => 0,
        1 => (res == 0) as u16,
        2 => cf as u16,
        3 => of as u16,
        _ => unreachable!(),
    };
    new_sp = new_sp.wrapping_add(bump);
    if incr_ip {
        new_ip = new_ip.wrapping_add(1);
    }
    (new_ip, new_sp, new_a, write)
}

/// Every combination of the decrement-SP, write-back, increment-SP and
/// conditional fields, exercised with accumulator values that leave the
/// flags clear, set the zero flag, the carry flag, and the overflow flag.
#[test]
fn writeback_order_matches_reference_trace_for_all_field_combinations() {
    // left = A, right = A, add without carry-in: result and flags are known
    for &a in [5u16, 0, 0x4000, 0xFFFF].iter() {
        let wide = a as u32 + a as u32;
        let res = (wide & 0xFFFF) as u16;
        let cf = wide >= 0x10000;
        let of = (res & 0x8000) != (a & 0x8000);
        for dest in 0u16..4 {
            for cond in 0u16..4 {
                for decr in 0u16..2 {
                    for incr in 0u16..2 {
                        let word: u16 = (4 << 13) | (1 << 11) | (dest << 7) | (decr << 6)
                            | (incr << 5) | (cond << 3) | (1 << 2);
                        let ip: u16 = 0x10;
                        let sp: u16 = 0x9000;
                        let mut mem = Memory::new(Vec::new());
                        mem.write(ip, word, false);
                        let mut cpu = Cpu { ip, sp, a };
                        assert_eq!(step(&mut cpu, &mut mem), Ok(()));
                        let (eip, esp, ea, ewrite) = reference_writeback(
                            ip,
                            sp,
                            a,
                            decr == 1,
                            dest,
                            incr == 1,
                            cond,
                            true,
                            res,
                            cf,
                            of,
                        );
                        assert_eq!((cpu.ip, cpu.sp, cpu.a), (eip, esp, ea));
                        if let Some((waddr, wval)) = ewrite {
                            assert_eq!(mem.read(waddr, false), Ok(wval));
                        }
                    }
                }
            }
        }
    }
}

#[test]
fn nand_instruction_complements_the_and_of_its_operands() {
    // left = A, right = NOT A, NAND mode, into the accumulator
    let word: u16 = (4 << 13) | (3 << 11) | (1 << 9) | (1 << 2);
    let mut mem = Memory::new(Vec::new());
    mem.write(0, word, false);
    let mut cpu = Cpu { ip: 0, sp: 0xFFFF, a: 0x0F0F };
    assert_eq!(step(&mut cpu, &mut mem), Ok(()));
    // a & !a == 0, so NAND yields all ones
    assert_eq!(cpu.a, 0xFFFF);
    assert_eq!(cpu.ip, 1);
    assert_eq!(cpu.sp, 0xFFFF);
}

#[test]
fn serial_routed_operand_reads_the_input_stream() {
    // left = memory at SP, serial-routed, into the accumulator
    let word: u16 = (1 << 13) | (1 << 2) | (1 << 1);
    let mut mem = Memory::new(vec![0xAB, 0xCD]);
    mem.write(0, word, false);
    let mut cpu = Cpu { ip: 0, sp: 0xFFFF, a: 0 };
    assert_eq!(step(&mut cpu, &mut mem), Ok(()));
    assert_eq!(cpu.a, 0xABCD);
    assert_eq!(cpu.ip, 1);
}

#[test]
fn serial_routed_operand_with_exhausted_input_is_fatal() {
    let word: u16 = (1 << 13) | (1 << 2) | (1 << 1);
    let mut mem = Memory::new(vec![0xAB]);
    mem.write(0, word, false);
    let mut cpu = Cpu { ip: 0, sp: 0xFFFF, a: 7 };
    assert_eq!(step(&mut cpu, &mut mem), Err(EmuError::SerialUnderrun));
    // nothing was changed by the failed cycle
    assert_eq!((cpu.ip, cpu.sp, cpu.a), (0, 0xFFFF, 7));
}

#[test]
fn serial_routed_write_back_emits_the_result() {
    // left = A, right = zero, add, into memory at SP, serial-routed
    let word: u16 = (4 << 13) | (1 << 7) | (1 << 2) | (1 << 1);
    let mut mem = Memory::new(Vec::new());
    mem.write(0, word, false);
    let mut cpu = Cpu { ip: 0, sp: 0xFFFF, a: 0xBEEF };
    assert_eq!(step(&mut cpu, &mut mem), Ok(()));
    assert_eq!(mem.serial_output().as_slice(), &[0xBE, 0xEF]);
    // the fetch itself was not redirected, and the word array is untouched
    assert_eq!(mem.read(0xFFFF, false), Ok(0));
}

#[test]
fn reserved_left_operand_codes_are_fatal() {
    for code in 2u16..4 {
        let mut mem = Memory::new(Vec::new());
        mem.write(0, code << 13, false);
        let mut cpu = Cpu { ip: 0, sp: 0xFFFF, a: 3 };
        assert_eq!(step(&mut cpu, &mut mem), Err(EmuError::UnimplementedOperand));
        assert_eq!((cpu.ip, cpu.sp, cpu.a), (0, 0xFFFF, 3));
        // the run loop surfaces the same failure
        let mut cpu2 = Cpu { ip: 0, sp: 0xFFFF, a: 3 };
        assert_eq!(run(&mut cpu2, &mut mem, 1000), Err(EmuError::UnimplementedOperand));
    }
}

// ---- halt conditions ----

#[test]
fn run_returns_at_once_when_sp_is_below_the_stack_floor() {
    let mut mem = Memory::new(Vec::new());
    let mut cpu = Cpu { ip: 0, sp: 0x7FFF, a: 5 };
    assert_eq!(run(&mut cpu, &mut mem, 1_000_000), Ok(RunStatus::Halted));
    assert_eq!((cpu.ip, cpu.sp, cpu.a), (0, 0x7FFF, 5));
}

#[test]
fn run_returns_at_once_when_ip_is_past_the_program_bound() {
    let mut mem = Memory::new(Vec::new());
    let mut cpu = Cpu { ip: 0x8001, sp: 0xFFFF, a: 5 };
    assert_eq!(run(&mut cpu, &mut mem, 1_000_000), Ok(RunStatus::Halted));
    assert_eq!((cpu.ip, cpu.sp, cpu.a), (0x8001, 0xFFFF, 5));
}

#[test]
fn run_returns_at_once_on_the_accumulator_sentinel() {
    let mut mem = Memory::new(Vec::new());
    let mut cpu = Cpu { ip: 0, sp: 0xFFFF, a: 28657 };
    assert_eq!(run(&mut cpu, &mut mem, 1_000_000), Ok(RunStatus::Halted));
    assert_eq!((cpu.ip, cpu.sp, cpu.a), (0, 0xFFFF, 28657));
}

#[test]
fn run_halts_after_an_instruction_underflows_sp() {
    // zero into SP: the next halt check sees SP below the floor
    let word: u16 = 2 << 7;
    let mut mem = Memory::new(Vec::new());
    mem.write(0, word, false);
    let mut cpu = Cpu::new();
    assert_eq!(run(&mut cpu, &mut mem, 1_000_000), Ok(RunStatus::Halted));
    assert_eq!(cpu.sp, 0);
}

#[test]
fn run_halts_after_an_instruction_sends_ip_out_of_bounds() {
    // all-ones into IP: the next halt check sees IP past the bound
    let word: u16 = (2 << 11) | (3 << 7);
    let mut mem = Memory::new(Vec::new());
    mem.write(0, word, false);
    let mut cpu = Cpu::new();
    assert_eq!(run(&mut cpu, &mut mem, 1_000_000), Ok(RunStatus::Halted));
    assert_eq!(cpu.ip, 0xFFFF);
}

// ---- the bundled example program ----

const EXAMPLE_PROGRAM: [u16; 7] = [
    0b000_00_1_0_00_0_0_00_1_0_0,
    0b000_01_0_0_01_1_1_00_1_0_0,
    0b001_01_0_0_00_1_0_10_1_0_0,
    0b000_01_0_0_01_1_1_00_1_0_0,
    0b001_01_0_0_00_1_0_10_1_0_0,
    0b000_00_0_0_11_0_0_00_1_0_0,
    0,
];

fn loaded_machine() -> (Cpu, Memory) {
    let mut mem = Memory::new(Vec::new());
    for (i, &w) in EXAMPLE_PROGRAM.iter().enumerate() {
        mem.write(i as u16, w, false);
    }
    mem.write(0xFFFE, 1, false);
    mem.write(0xFFFF, 1, false);
    (Cpu::new(), mem)
}

#[test]
fn example_program_halts_exactly_at_the_fibonacci_sentinel() {
    let (mut cpu, mut mem) = loaded_machine();
    assert_eq!(run(&mut cpu, &mut mem, 1_000_000), Ok(RunStatus::Halted));
    assert_eq!(cpu.a, 28657);
    // neither boundary halt fired first
    assert!(cpu.sp >= 0x8000);
    assert!(cpu.ip <= 0x8000);
}

#[test]
fn example_program_walks_the_fibonacci_sequence() {
    let (mut cpu, mut mem) = loaded_machine();
    let mut seen: Vec<u16> = vec![cpu.a];
    let mut guard: u32 = 0;
    while !cpu.is_halted() {
        assert_eq!(step(&mut cpu, &mut mem), Ok(()));
        if *seen.last().unwrap() != cpu.a {
            seen.push(cpu.a);
        }
        guard += 1;
        assert!(guard < 100_000, "the example program should halt quickly");
    }
    let mut expected: Vec<u16> = vec![0, 1];
    let mut x: u32 = 1;
    let mut y: u32 = 2;
    while y <= 28657 {
        expected.push(y as u16);
        let z = x + y;
        x = y;
        y = z;
    }
    assert_eq!(seen, expected);
    assert_eq!(*seen.last().unwrap(), 28657);
}

#[test]
fn example_program_runs_out_of_a_small_cycle_budget() {
    let (mut cpu, mut mem) = loaded_machine();
    assert_eq!(run(&mut cpu, &mut mem, 3), Ok(RunStatus::OutOfCycles));
    assert!(!cpu.is_halted());
}
