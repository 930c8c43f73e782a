//! The conventions by which the machine meets its surroundings: where a
//! program is loaded, the cell that is refreshed with a random byte before
//! every step, and the region of memory that is shown as a screen of 32 by 32
//! pixels.

use vstd::prelude::*;
use crate::cpu::{Cpu, CpuError};
use crate::machine::{Machine, ORIGIN};

verus! {

/// The cell that receives a fresh random byte before every step.
pub const ENTROPY_CELL: u16 = 0x00fe;

/// The first address of the screen.
pub const FRAMEBUFFER: u16 = 0x0200;

/// The number of pixels in a row, and of rows, of the screen.
pub const SCREEN_SIDE: u16 = 32;

/// A colour, as red, green and blue.
#[derive(Clone, Copy, Debug, PartialEq, Eq, Structural)]
pub struct Rgb {
    pub r: u8,
    pub g: u8,
    pub b: u8,
}

/// The sixteen colours of the screen.
pub open spec fn palette(index: int) -> Rgb {
    if index == 1 {
        Rgb { r: 255, g: 255, b: 255 }
    } else if index == 2 {
        Rgb { r: 255, g: 0, b: 0 }
    } else if index == 3 {
        Rgb { r: 0, g: 255, b: 255 }
    } else if index == 4 {
        Rgb { r: 128, g: 0, b: 128 }
    } else if index == 5 {
        Rgb { r: 0, g: 255, b: 0 }
    } else if index == 6 {
        Rgb { r: 0, g: 0, b: 255 }
    } else if index == 7 {
        Rgb { r: 255, g: 255, b: 0 }
    } else if index == 8 {
        Rgb { r: 255, g: 165, b: 0 }
    } else if index == 9 {
        Rgb { r: 165, g: 42, b: 42 }
    } else if index == 10 {
        Rgb { r: 255, g: 119, b: 119 }
    } else if index == 11 {
        Rgb { r: 169, g: 169, b: 169 }
    } else if index == 12 {
        Rgb { r: 128, g: 128, b: 128 }
    } else if index == 13 {
        Rgb { r: 144, g: 238, b: 144 }
    } else if index == 14 {
        Rgb { r: 173, g: 216, b: 230 }
    } else if index == 15 {
        Rgb { r: 211, g: 211, b: 211 }
    } else {
        Rgb { r: 0, g: 0, b: 0 }
    }
}

/// The colour that a byte of the screen shows: its low four bits choose one of
/// the sixteen colours.
pub fn get_pixel_color(value: u8) -> (color: Rgb)
    ensures
        color == palette(value as int % 16),
{
    match value % 16 {
        1 => Rgb { r: 255, g: 255, b: 255 },
        2 => Rgb { r: 255, g: 0, b: 0 },
        3 => Rgb { r: 0, g: 255, b: 255 },
        4 => Rgb { r: 128, g: 0, b: 128 },
        5 => Rgb { r: 0, g: 255, b: 0 },
        6 => Rgb { r: 0, g: 0, b: 255 },
        7 => Rgb { r: 255, g: 255, b: 0 },
        8 => Rgb { r: 255, g: 165, b: 0 },
        9 => Rgb { r: 165, g: 42, b: 42 },
        10 => Rgb { r: 255, g: 119, b: 119 },
        11 => Rgb { r: 169, g: 169, b: 169 },
        12 => Rgb { r: 128, g: 128, b: 128 },
        13 => Rgb { r: 144, g: 238, b: 144 },
        14 => Rgb { r: 173, g: 216, b: 230 },
        15 => Rgb { r: 211, g: 211, b: 211 },
        _ => Rgb { r: 0, g: 0, b: 0 },
    }
}

impl Machine {
    /// The state with `program` copied into memory from the origin on.
    pub open spec fn load(self, program: Seq<u8>) -> Machine {
        Machine {
            mem: Seq::new(
                self.mem.len(),
                |addr: int|
                    if ORIGIN <= addr < ORIGIN + program.len() {
                        program[addr - ORIGIN]
                    } else {
                        self.mem[addr]
                    },
            ),
            ..self
        }
    }

    /// Whether the program counter stands inside a program that reaches from
    /// the origin up to `end`, not included.
    pub open spec fn in_program(self, end: u16) -> bool {
        ORIGIN <= self.pc < end
    }

    /// One frame: while the program counter stands inside the program, the
    /// entropy cell takes `entropy` and one instruction runs; outside it
    /// nothing happens. `None` where the instruction is not an opcode.
    pub open spec fn frame(self, end: u16, entropy: u8) -> Option<Machine> {
        if self.in_program(end) {
            self.store(ENTROPY_CELL, entropy).step()
        } else {
            Some(self)
        }
    }
}

/// The bound under which the program counter runs a program of `len` bytes
/// that is loaded at the origin: two past its last byte, so that the byte
/// after the program still runs. `None` where that is no address.
pub open spec fn end_of_program(len: nat) -> Option<u16> {
    if ORIGIN + len + 1 <= u16::MAX {
        Some((ORIGIN + len + 1) as u16)
    } else {
        None
    }
}

/// The bound under which the program counter runs a program of `len` bytes.
pub fn program_end(len: usize) -> (end: Option<u16>)
    ensures
        end == end_of_program(len as nat),
{
    if len <= 0xffff - 0x0601 {
        Some((len + 0x0601) as u16)
    } else {
        None
    }
}

/// How a frame with the given entropy may end: `Ok(true)` after a step,
/// `Ok(false)` where the program counter stood outside the program, or the
/// failure of the step, with the entropy cell already written.
pub open spec fn frame_outcome(
    before: Machine,
    after: Machine,
    r: Result<bool, CpuError>,
    end: u16,
    entropy: u8,
) -> bool {
    if before.in_program(end) {
        match before.frame(end, entropy) {
            Some(next) => r == Ok::<bool, CpuError>(true) && after == next,
            None => r == Err::<bool, CpuError>(
                CpuError::UnsupportedOpcode {
                    opcode: before.store(ENTROPY_CELL, entropy).opcode(),
                    pc: before.pc,
                },
            ) && after == before.store(ENTROPY_CELL, entropy),
        }
    } else {
        r == Ok::<bool, CpuError>(false) && after == before
    }
}

/// A byte from the thread's random number generator. Calls `rand::random`,
/// which draws from a generator that the operating system seeds; nothing is
/// claimed of the byte. The call panics if the operating system cannot seed the
/// generator.
#[verifier::external_body]
fn random_byte() -> (byte: u8) {
    rand::random::<u8>()
}

impl Cpu {
    /// Copies `program` into memory from the origin on, if it fits below the
    /// top of memory; a longer one is refused and nothing changes.
    pub fn load(&mut self, program: &Vec<u8>) -> (loaded: bool)
        ensures
            loaded == (program@.len() <= 65536 - ORIGIN),
            loaded ==> final(self)@ == old(self)@.load(program@),
            !loaded ==> final(self)@ == old(self)@,
    {
        let n = program.len();
        if n > 65536 - (ORIGIN as usize) {
            return false;
        }
        let mut i: usize = 0;
        assert(self@.mem =~= old(self)@.load(program@.take(0)).mem);
        while i < n
            invariant
                n == program@.len(),
                n <= 65536 - ORIGIN,
                i <= n,
                self@ == old(self)@.load(program@.take(i as int)),
            decreases n - i,
        {
            self.mem[ORIGIN as usize + i] = program[i];
            i += 1;
            assert(self@.mem =~= old(self)@.load(program@.take(i as int)).mem);
        }
        assert(program@.take(n as int) =~= program@);
        true
    }

    /// One frame with the given entropy: while the program counter stands
    /// inside the program, which ends before `end`, the entropy cell takes
    /// `entropy` and one instruction runs.
    pub fn frame_with(&mut self, end: u16, entropy: u8) -> (r: Result<bool, CpuError>)
        ensures
            frame_outcome(old(self)@, final(self)@, r, end, entropy),
    {
        if self.pc < end && self.pc >= ORIGIN {
            self.write(ENTROPY_CELL, entropy);
            match self.step() {
                Ok(()) => Ok(true),
                Err(e) => Err(e),
            }
        } else {
            Ok(false)
        }
    }

    /// One frame: as [`Cpu::frame_with`], with a random byte for the entropy
    /// cell.
    pub fn frame(&mut self, end: u16) -> (r: Result<bool, CpuError>)
        ensures
            exists|entropy: u8| frame_outcome(old(self)@, final(self)@, r, end, entropy),
    {
        let entropy = random_byte();
        self.frame_with(end, entropy)
    }

    /// The colour of the pixel in row `row` and column `col` of the screen.
    pub fn pixel(&self, row: u16, col: u16) -> (color: Rgb)
        requires
            row < SCREEN_SIDE,
            col < SCREEN_SIDE,
        ensures
            color == palette(self@.mem[FRAMEBUFFER + SCREEN_SIDE * row + col] as int % 16),
    {
        get_pixel_color(self.read(FRAMEBUFFER + SCREEN_SIDE * row + col))
    }
}

} // verus!
