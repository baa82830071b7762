//! The flat 65,536-word memory together with the serial channel it can be
//! redirected to. Whether an access routes to serial is decided per
//! instruction by the decoder, not by the address: any access may be
//! redirected. The serial streams are injected byte buffers, so the engine
//! stays a pure function of its inputs.

use vstd::prelude::*;
use crate::EmuError;

verus! {

/// The number of words in the address space.
pub const MEM_WORDS: usize = 0x10000;

/// The mathematical view of [`Memory`]: the word array, the serial input
/// stream with the position of its next unread byte, and the serial output
/// stream emitted so far.
pub struct MemModel {
    pub ram: Seq<u16>,
    pub ser_in: Seq<u8>,
    pub in_pos: int,
    pub ser_out: Seq<u8>,
}

/// The most significant byte of a word, as serialised on the serial channel.
pub open spec fn hi_byte(v: u16) -> u8 {
    (v >> 8) as u8
}

/// The least significant byte of a word.
pub open spec fn lo_byte(v: u16) -> u8 {
    (v & 0xFF) as u8
}

/// A word reassembled from two serial bytes, most significant byte first.
pub open spec fn word_of_bytes(hi: u8, lo: u8) -> u16 {
    ((hi as u16) << 8) | (lo as u16)
}

/// Word storage plus the two byte streams of the serial channel.
pub struct Memory {
    ram: Vec<u16>,
    ser_in: Vec<u8>,
    in_pos: usize,
    ser_out: Vec<u8>,
}

impl View for Memory {
    type V = MemModel;

    closed spec fn view(&self) -> MemModel {
        MemModel {
            ram: self.ram@,
            ser_in: self.ser_in@,
            in_pos: self.in_pos as int,
            ser_out: self.ser_out@,
        }
    }
}

impl Memory {
    /// Well-formed memory: the full address space is backed, and the serial
    /// read position has not run past the input stream.
    pub open spec fn wf(self) -> bool {
        &&& self@.ram.len() == MEM_WORDS
        &&& 0 <= self@.in_pos <= self@.ser_in.len()
    }

    /// Fresh memory: every word zero, the given serial input still unread,
    /// and nothing emitted yet.
    pub fn new(serial_input: Vec<u8>) -> (m: Memory)
        ensures
            m.wf(),
            m@.ram == Seq::new(MEM_WORDS as nat, |i: int| 0u16),
            m@.ser_in == serial_input@,
            m@.in_pos == 0,
            m@.ser_out == Seq::<u8>::empty(),
    {
        let mut ram: Vec<u16> = Vec::new();
        let mut i: usize = 0;
        while i < MEM_WORDS
            invariant
                i <= MEM_WORDS,
                ram@.len() == i,
                forall|j: int| 0 <= j < i ==> ram@[j] == 0u16,
            decreases MEM_WORDS - i,
        {
            ram.push(0);
            i = i + 1;
        }
        proof {
            assert(ram@ =~= Seq::new(MEM_WORDS as nat, |i: int| 0u16));
        }
        Memory { ram, ser_in: serial_input, in_pos: 0, ser_out: Vec::new() }
    }

    /// Write one word. Routed to serial, it emits the value's two bytes,
    /// most significant first, onto the output stream and leaves the word
    /// array alone; otherwise it is a plain store at `addr`.
    pub fn write(&mut self, addr: u16, value: u16, mem2ser: bool)
        requires
            old(self).wf(),
        ensures
            final(self).wf(),
            !mem2ser ==> final(self)@ == (MemModel {
                ram: old(self)@.ram.update(addr as int, value),
                ..old(self)@
            }),
            mem2ser ==> final(self)@ == (MemModel {
                ser_out: old(self)@.ser_out + seq![hi_byte(value), lo_byte(value)],
                ..old(self)@
            }),
    {
        if !mem2ser {
            self.ram[addr as usize] = value;
        } else {
            proof {
                assert(value >> 8 <= 0xFF && value & 0xFF <= 0xFF) by (bit_vector);
            }
            let hi: u8 = (value >> 8) as u8;
            let lo: u8 = (value & 0xFF) as u8;
            self.ser_out.push(hi);
            self.ser_out.push(lo);
            proof {
                assert(self@.ser_out =~= old(self)@.ser_out + seq![hi_byte(value), lo_byte(value)]);
            }
        }
    }

    /// Read one word. Routed to serial, it consumes exactly the next two
    /// bytes of the input stream, most significant first; fewer than two
    /// bytes left is a [`EmuError::SerialUnderrun`], with nothing consumed.
    /// Otherwise it is a plain load from `addr`, changing nothing.
    pub fn read(&mut self, addr: u16, mem2ser: bool) -> (r: Result<u16, EmuError>)
        requires
            old(self).wf(),
        ensures
            final(self).wf(),
            !mem2ser ==> (r == Ok::<u16, EmuError>(old(self)@.ram[addr as int]) && final(self)@
                == old(self)@),
            mem2ser && old(self)@.in_pos + 2 <= old(self)@.ser_in.len() ==> (r == Ok::<
                u16,
                EmuError,
            >(
                word_of_bytes(
                    old(self)@.ser_in[old(self)@.in_pos],
                    old(self)@.ser_in[old(self)@.in_pos + 1],
                ),
            ) && final(self)@ == (MemModel { in_pos: old(self)@.in_pos + 2, ..old(self)@ })),
            mem2ser && old(self)@.in_pos + 2 > old(self)@.ser_in.len() ==> (r == Err::<
                u16,
                EmuError,
            >(EmuError::SerialUnderrun) && final(self)@ == old(self)@),
    {
        if !mem2ser {
            Ok(self.ram[addr as usize])
        } else {
            if self.ser_in.len() - self.in_pos >= 2 {
                let hi: u8 = self.ser_in[self.in_pos];
                let lo: u8 = self.ser_in[self.in_pos + 1];
                self.in_pos = self.in_pos + 2;
                Ok(((hi as u16) << 8) | (lo as u16))
            } else {
                Err(EmuError::SerialUnderrun)
            }
        }
    }

    /// The bytes emitted on the serial output stream so far.
    pub fn serial_output(&self) -> (r: &Vec<u8>)
        ensures
            r@ == self@.ser_out,
    {
        &self.ser_out
    }
}

} // verus!
