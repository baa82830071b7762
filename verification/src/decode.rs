//! The instruction decoder: a pure projection of one 16-bit instruction word
//! into the ten control fields that drive operand selection, the ALU, and
//! write-back. The fields occupy fixed, non-overlapping bit ranges, most
//! significant bit first; bit 0 carries no field.

use vstd::prelude::*;

verus! {

/// Source of the ALU's left input (bits 15..13). Two of the eight codes are
/// reserved placeholders; selecting one is a fatal condition.
#[derive(Clone, Copy, Debug, PartialEq, Eq)]
pub enum LeftSel {
    Zero,
    MemAtSp,
    Reserved0,
    Reserved1,
    Acc,
    NotAcc,
    Sp,
    Ip,
}

/// Source of the ALU's right input (bits 12..11).
#[derive(Clone, Copy, Debug, PartialEq, Eq)]
pub enum RightSel {
    Zero,
    Acc,
    Ones,
    NotAcc,
}

/// ALU mode (bit 9): add with flags, or bitwise NAND.
#[derive(Clone, Copy, Debug, PartialEq, Eq)]
pub enum AluMode {
    Add,
    Nand,
}

/// Destination of the ALU result (bits 8..7).
#[derive(Clone, Copy, Debug, PartialEq, Eq)]
pub enum Dest {
    Acc,
    MemAtSp,
    Sp,
    Ip,
}

/// Which flag, if any, additionally increments SP after write-back
/// (bits 4..3).
#[derive(Clone, Copy, Debug, PartialEq, Eq)]
pub enum Cond {
    Never,
    IfZero,
    IfCarry,
    IfOverflow,
}

/// The decoded control fields of one instruction word.
#[derive(Clone, Copy, Debug, PartialEq, Eq)]
pub struct Instr {
    pub left: LeftSel,
    pub right: RightSel,
    pub carry_in: bool,
    pub mode: AluMode,
    pub dest: Dest,
    pub decr_sp: bool,
    pub incr_sp: bool,
    pub cond: Cond,
    pub incr_ip: bool,
    pub serial: bool,
}

pub open spec fn left_sel_of(w: u16) -> LeftSel {
    let bits = (w >> 13) & 7;
    if bits == 0 {
        LeftSel::Zero
    } else if bits == 1 {
        LeftSel::MemAtSp
    } else if bits == 2 {
        LeftSel::Reserved0
    } else if bits == 3 {
        LeftSel::Reserved1
    } else if bits == 4 {
        LeftSel::Acc
    } else if bits == 5 {
        LeftSel::NotAcc
    } else if bits == 6 {
        LeftSel::Sp
    } else {
        LeftSel::Ip
    }
}

pub open spec fn right_sel_of(w: u16) -> RightSel {
    let bits = (w >> 11) & 3;
    if bits == 0 {
        RightSel::Zero
    } else if bits == 1 {
        RightSel::Acc
    } else if bits == 2 {
        RightSel::Ones
    } else {
        RightSel::NotAcc
    }
}

pub open spec fn mode_of(w: u16) -> AluMode {
    if (w >> 9) & 1 == 0 {
        AluMode::Add
    } else {
        AluMode::Nand
    }
}

pub open spec fn dest_of(w: u16) -> Dest {
    let bits = (w >> 7) & 3;
    if bits == 0 {
        Dest::Acc
    } else if bits == 1 {
        Dest::MemAtSp
    } else if bits == 2 {
        Dest::Sp
    } else {
        Dest::Ip
    }
}

pub open spec fn cond_of(w: u16) -> Cond {
    let bits = (w >> 3) & 3;
    if bits == 0 {
        Cond::Never
    } else if bits == 1 {
        Cond::IfZero
    } else if bits == 2 {
        Cond::IfCarry
    } else {
        Cond::IfOverflow
    }
}

/// The whole decoded word: every field read from its own bit range.
pub open spec fn spec_decode(w: u16) -> Instr {
    Instr {
        left: left_sel_of(w),
        right: right_sel_of(w),
        carry_in: (w >> 10) & 1 == 1,
        mode: mode_of(w),
        dest: dest_of(w),
        decr_sp: (w >> 6) & 1 == 1,
        incr_sp: (w >> 5) & 1 == 1,
        cond: cond_of(w),
        incr_ip: (w >> 2) & 1 == 1,
        serial: (w >> 1) & 1 == 1,
    }
}

/// Decode one instruction word. Total: every 16-bit value decodes to some
/// instruction, since the fields partition fixed bit ranges.
pub fn decode(w: u16) -> (i: Instr)
    ensures
        i == spec_decode(w),
{
    let left_bits: u16 = (w >> 13) & 7;
    let left = if left_bits == 0 {
        LeftSel::Zero
    } else if left_bits == 1 {
        LeftSel::MemAtSp
    } else if left_bits == 2 {
        LeftSel::Reserved0
    } else if left_bits == 3 {
        LeftSel::Reserved1
    } else if left_bits == 4 {
        LeftSel::Acc
    } else if left_bits == 5 {
        LeftSel::NotAcc
    } else if left_bits == 6 {
        LeftSel::Sp
    } else {
        LeftSel::Ip
    };
    let right_bits: u16 = (w >> 11) & 3;
    let right = if right_bits == 0 {
        RightSel::Zero
    } else if right_bits == 1 {
        RightSel::Acc
    } else if right_bits == 2 {
        RightSel::Ones
    } else {
        RightSel::NotAcc
    };
    let mode = if (w >> 9) & 1 == 0 {
        AluMode::Add
    } else {
        AluMode::Nand
    };
    let dest_bits: u16 = (w >> 7) & 3;
    let dest = if dest_bits == 0 {
        Dest::Acc
    } else if dest_bits == 1 {
        Dest::MemAtSp
    } else if dest_bits == 2 {
        Dest::Sp
    } else {
        Dest::Ip
    };
    let cond_bits: u16 = (w >> 3) & 3;
    let cond = if cond_bits == 0 {
        Cond::Never
    } else if cond_bits == 1 {
        Cond::IfZero
    } else if cond_bits == 2 {
        Cond::IfCarry
    } else {
        Cond::IfOverflow
    };
    Instr {
        left,
        right,
        carry_in: (w >> 10) & 1 == 1,
        mode,
        dest,
        decr_sp: (w >> 6) & 1 == 1,
        incr_sp: (w >> 5) & 1 == 1,
        cond,
        incr_ip: (w >> 2) & 1 == 1,
        serial: (w >> 1) & 1 == 1,
    }
}

} // verus!
