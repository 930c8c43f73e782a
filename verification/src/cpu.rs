//! The decode-execute engine: the register file, the 64 KiB memory, and the
//! interpreter that runs one instruction per step.
//!
//! Every function states its effect as a function of [`Machine`], the model
//! of the processor's state.

use vstd::prelude::*;
use crate::isa::{decode, decode_spec, AddrMode, Mnemonic};
use crate::machine::{
    branch_taken, flag_on, with_flag, with_zn, Machine, BREAK, CARRY, DECIMAL, INTERRUPT,
    NEGATIVE, OVERFLOW, ZERO,
};

verus! {

/// The processor: three 8-bit registers, stack pointer, program counter,
/// status byte, and memory.
pub struct Cpu {
    pub a: u8,
    pub x: u8,
    pub y: u8,
    pub sp: u8,
    pub pc: u16,
    pub sr: u8,
    pub mem: [u8; 65536],
}

impl View for Cpu {
    type V = Machine;

    open spec fn view(&self) -> Machine {
        Machine {
            a: self.a,
            x: self.x,
            y: self.y,
            sp: self.sp,
            pc: self.pc,
            sr: self.sr,
            mem: self.mem@,
        }
    }
}

/// Why a step could not run.
#[derive(Clone, Copy, Debug, PartialEq, Eq, Structural)]
pub enum CpuError {
    /// The byte fetched is not an opcode. `pc` is the address it was fetched
    /// from.
    UnsupportedOpcode { opcode: u8, pc: u16 },
}

impl Default for Cpu {
    /// A processor with every register and every byte of memory zero.
    fn default() -> (cpu: Cpu)
        ensures
            cpu@ == (Machine {
                a: 0,
                x: 0,
                y: 0,
                sp: 0,
                pc: 0,
                sr: 0,
                mem: Seq::new(65536, |i: int| 0u8),
            }),
    {
        let cpu = Cpu { a: 0, x: 0, y: 0, sp: 0, pc: 0, sr: 0, mem: [0u8;65536] };
        assert(cpu.mem@ =~= Seq::new(65536, |i: int| 0u8));
        cpu
    }
}

impl Cpu {
    /// The model of a processor always has one byte of memory per address.
    pub proof fn lemma_view_wf(self)
        ensures
            self@.wf(),
    {
    }

    /// Zeroes the registers. Memory is left as it is.
    pub fn reset(&mut self)
        ensures
            final(self)@ == (Machine {
                a: 0,
                x: 0,
                y: 0,
                sp: 0,
                pc: 0,
                sr: 0,
                mem: old(self)@.mem,
            }),
    {
        self.a = 0;
        self.x = 0;
        self.y = 0;
        self.sp = 0;
        self.pc = 0;
        self.sr = 0;
    }

    /// The byte at `addr`.
    pub fn read(&self, addr: u16) -> (value: u8)
        ensures
            value == self@.mem[addr as int],
    {
        self.mem[addr as usize]
    }

    /// Writes `value` to memory at `addr`.
    pub fn write(&mut self, addr: u16, value: u8)
        ensures
            final(self)@ == old(self)@.store(addr, value),
    {
        self.mem[addr as usize] = value;
    }

    /// The 16-bit value stored at `addr`, high byte first.
    pub fn read_word(&self, addr: u16) -> (value: u16)
        ensures
            value == self@.word_at(addr),
    {
        let high = self.read(addr);
        let low = self.read(addr.wrapping_add(1));
        (high as u16) * 256 + (low as u16)
    }

    /// The 16-bit address that the pointer at `addr` holds, low byte first.
    pub fn read_pointer(&self, addr: u16) -> (value: u16)
        ensures
            value == self@.pointer_at(addr),
    {
        let low = self.read(addr);
        let high = self.read(addr.wrapping_add(1));
        (high as u16) * 256 + (low as u16)
    }

    /// The 16-bit value stored in the zero page at `ptr`, high byte first.
    fn read_zero_page_word(&self, ptr: u8) -> (value: u16)
        ensures
            value == self@.zero_page_word_at(ptr),
    {
        let high = self.read(ptr as u16);
        let low = self.read(ptr.wrapping_add(1) as u16);
        (high as u16) * 256 + (low as u16)
    }

    /// Moves the program counter forward by `n` bytes, modulo 65536.
    fn advance(&mut self, n: u16)
        ensures
            final(self)@ == old(self)@.advance(n as int),
    {
        self.pc = self.pc.wrapping_add(n);
    }

    /// Absolute: the address is the two-byte operand.
    pub fn get_abs_address(&mut self) -> (addr: u16)
        ensures
            addr == old(self)@.effective_address(AddrMode::Absolute),
            addr == old(self)@.operand16(),
            final(self)@ == old(self)@.advance(2),
    {
        let addr = self.read_word(self.pc);
        self.advance(2);
        addr
    }

    /// Absolute,X: the two-byte operand plus X, modulo 65536.
    pub fn get_absx_address(&mut self) -> (addr: u16)
        ensures
            addr == old(self)@.effective_address(AddrMode::AbsoluteX),
            addr == (old(self)@.operand16() + old(self).x) % 65536,
            final(self)@ == old(self)@.advance(2),
    {
        let base = self.read_word(self.pc);
        self.advance(2);
        base.wrapping_add(self.x as u16)
    }

    /// Absolute,Y: the two-byte operand plus Y, modulo 65536.
    pub fn get_absy_address(&mut self) -> (addr: u16)
        ensures
            addr == old(self)@.effective_address(AddrMode::AbsoluteY),
            addr == (old(self)@.operand16() + old(self).y) % 65536,
            final(self)@ == old(self)@.advance(2),
    {
        let base = self.read_word(self.pc);
        self.advance(2);
        base.wrapping_add(self.y as u16)
    }

    /// Immediate: the operand byte itself is the value.
    pub fn get_imm(&mut self) -> (value: u8)
        ensures
            value == old(self)@.operand8(),
            final(self)@ == old(self)@.advance(1),
    {
        let value = self.read(self.pc);
        self.advance(1);
        value
    }

    /// Indirect: the two-byte operand points at the 16-bit address, which is
    /// stored low byte first.
    pub fn get_ind(&mut self) -> (addr: u16)
        ensures
            addr == old(self)@.effective_address(AddrMode::Indirect),
            addr == old(self)@.pointer_at(old(self)@.operand16()),
            final(self)@ == old(self)@.advance(2),
    {
        let pointer = self.read_word(self.pc);
        self.advance(2);
        self.read_pointer(pointer)
    }

    /// Indirect,X: the operand plus X, modulo 256, points into the zero page
    /// at the 16-bit address.
    pub fn get_indx_address(&mut self) -> (addr: u16)
        ensures
            addr == old(self)@.effective_address(AddrMode::IndirectX),
            addr == old(self)@.zero_page_word_at(
                ((old(self)@.operand8() + old(self).x) % 256) as u8,
            ),
            final(self)@ == old(self)@.advance(1),
    {
        let operand = self.read(self.pc);
        self.advance(1);
        self.read_zero_page_word(operand.wrapping_add(self.x))
    }

    /// Indirect,Y: the operand points into the zero page at a 16-bit address,
    /// to which Y is added modulo 65536.
    pub fn get_indy_address(&mut self) -> (addr: u16)
        ensures
            addr == old(self)@.effective_address(AddrMode::IndirectY),
            addr == (old(self)@.zero_page_word_at(old(self)@.operand8()) + old(self).y) % 65536,
            final(self)@ == old(self)@.advance(1),
    {
        let operand = self.read(self.pc);
        self.advance(1);
        self.read_zero_page_word(operand).wrapping_add(self.y as u16)
    }

    /// Relative: the branch target, which is the operand, read as a signed
    /// byte, added to the address that follows it.
    pub fn get_rel(&mut self) -> (target: u16)
        ensures
            target == old(self)@.effective_address(AddrMode::Relative),
            old(self)@.operand8() < 128 ==> target == (old(self).pc + 1 + old(self)@.operand8())
                % 65536,
            old(self)@.operand8() >= 128 ==> target == (old(self).pc + 1 + old(
                self,
            )@.operand8() - 256) % 65536,
            final(self)@ == old(self)@.advance(1),
    {
        let operand = self.read(self.pc);
        self.advance(1);
        let forward = self.pc.wrapping_add(operand as u16);
        if operand < 128 {
            forward
        } else {
            forward.wrapping_sub(256)
        }
    }

    /// Zero page: the address is the operand byte.
    pub fn get_zp_address(&mut self) -> (addr: u16)
        ensures
            addr == old(self)@.effective_address(AddrMode::ZeroPage),
            addr == old(self)@.operand8(),
            final(self)@ == old(self)@.advance(1),
    {
        let operand = self.read(self.pc);
        self.advance(1);
        operand as u16
    }

    /// Zero page,X: the operand plus X, modulo 256; it never leaves the zero
    /// page.
    pub fn get_zpx_address(&mut self) -> (addr: u16)
        ensures
            addr == old(self)@.effective_address(AddrMode::ZeroPageX),
            addr == (old(self)@.operand8() + old(self).x) % 256,
            final(self)@ == old(self)@.advance(1),
    {
        let operand = self.read(self.pc);
        self.advance(1);
        operand.wrapping_add(self.x) as u16
    }

    /// Zero page,Y: the operand plus Y, modulo 256; it never leaves the zero
    /// page.
    pub fn get_zpy_address(&mut self) -> (addr: u16)
        ensures
            addr == old(self)@.effective_address(AddrMode::ZeroPageY),
            addr == (old(self)@.operand8() + old(self).y) % 256,
            final(self)@ == old(self)@.advance(1),
    {
        let operand = self.read(self.pc);
        self.advance(1);
        operand.wrapping_add(self.y) as u16
    }

    /// Absolute: the byte at the resolved address.
    pub fn get_abs(&mut self) -> (value: u8)
        ensures
            value == old(self)@.mem[old(self)@.effective_address(AddrMode::Absolute) as int],
            final(self)@ == old(self)@.advance(2),
    {
        let addr = self.get_abs_address();
        self.read(addr)
    }

    /// Absolute,X: the byte at the resolved address.
    pub fn get_absx(&mut self) -> (value: u8)
        ensures
            value == old(self)@.mem[old(self)@.effective_address(AddrMode::AbsoluteX) as int],
            final(self)@ == old(self)@.advance(2),
    {
        let addr = self.get_absx_address();
        self.read(addr)
    }

    /// Absolute,Y: the byte at the resolved address.
    pub fn get_absy(&mut self) -> (value: u8)
        ensures
            value == old(self)@.mem[old(self)@.effective_address(AddrMode::AbsoluteY) as int],
            final(self)@ == old(self)@.advance(2),
    {
        let addr = self.get_absy_address();
        self.read(addr)
    }

    /// Indirect,X: the byte at the resolved address.
    pub fn get_indx(&mut self) -> (value: u8)
        ensures
            value == old(self)@.mem[old(self)@.effective_address(AddrMode::IndirectX) as int],
            final(self)@ == old(self)@.advance(1),
    {
        let addr = self.get_indx_address();
        self.read(addr)
    }

    /// Indirect,Y: the byte at the resolved address.
    pub fn get_indy(&mut self) -> (value: u8)
        ensures
            value == old(self)@.mem[old(self)@.effective_address(AddrMode::IndirectY) as int],
            final(self)@ == old(self)@.advance(1),
    {
        let addr = self.get_indy_address();
        self.read(addr)
    }

    /// Zero page: the byte at the resolved address.
    pub fn get_zp(&mut self) -> (value: u8)
        ensures
            value == old(self)@.mem[old(self)@.effective_address(AddrMode::ZeroPage) as int],
            final(self)@ == old(self)@.advance(1),
    {
        let addr = self.get_zp_address();
        self.read(addr)
    }

    /// Zero page,X: the byte at the resolved address.
    pub fn get_zpx(&mut self) -> (value: u8)
        ensures
            value == old(self)@.mem[old(self)@.effective_address(AddrMode::ZeroPageX) as int],
            final(self)@ == old(self)@.advance(1),
    {
        let addr = self.get_zpx_address();
        self.read(addr)
    }

    /// Zero page,Y: the byte at the resolved address.
    pub fn get_zpy(&mut self) -> (value: u8)
        ensures
            value == old(self)@.mem[old(self)@.effective_address(AddrMode::ZeroPageY) as int],
            final(self)@ == old(self)@.advance(1),
    {
        let addr = self.get_zpy_address();
        self.read(addr)
    }

    /// Resolves the operand of an instruction in `mode` through the routine of
    /// that mode, and moves the program counter past the operand bytes.
    pub fn operand_address(&mut self, mode: AddrMode) -> (addr: u16)
        ensures
            addr == old(self)@.effective_address(mode),
            final(self)@ == old(self)@.skip_operand(mode),
    {
        match mode {
            AddrMode::Accumulator | AddrMode::Implied => 0,
            AddrMode::Immediate => {
                let addr = self.pc;
                self.advance(1);
                addr
            },
            AddrMode::Absolute => self.get_abs_address(),
            AddrMode::AbsoluteX => self.get_absx_address(),
            AddrMode::AbsoluteY => self.get_absy_address(),
            AddrMode::Indirect => self.get_ind(),
            AddrMode::IndirectX => self.get_indx_address(),
            AddrMode::IndirectY => self.get_indy_address(),
            AddrMode::Relative => self.get_rel(),
            AddrMode::ZeroPage => self.get_zp_address(),
            AddrMode::ZeroPageX => self.get_zpx_address(),
            AddrMode::ZeroPageY => self.get_zpy_address(),
        }
    }

    /// Pushes a byte.
    pub fn stack_push(&mut self, value: u8)
        ensures
            final(self)@ == old(self)@.push(value),
    {
        self.write(0x100 + (self.sp as u16), value);
        self.sp = self.sp.wrapping_sub(1);
    }

    /// Pushes a 16-bit value: high byte, then low byte.
    pub fn stack_push_16(&mut self, value: u16)
        ensures
            final(self)@ == old(self)@.push16(value),
    {
        self.stack_push((value / 256) as u8);
        self.stack_push((value % 256) as u8);
    }

    /// Pops a byte; the slot it is read from is cleared.
    pub fn stack_pop(&mut self) -> (value: u8)
        ensures
            value == old(self)@.top(),
            final(self)@ == old(self)@.pop(),
    {
        self.sp = self.sp.wrapping_add(1);
        let slot = 0x100 + (self.sp as u16);
        let value = self.read(slot);
        self.write(slot, 0);
        value
    }

    /// Pops a 16-bit value: low byte, then high byte.
    pub fn stack_pop_16(&mut self) -> (value: u16)
        ensures
            value == old(self)@.top16(),
            final(self)@ == old(self)@.pop16(),
    {
        let low = self.stack_pop();
        let high = self.stack_pop();
        (high as u16) * 256 + (low as u16)
    }

    /// Sets the flag `mask` in the status byte, or clears it.
    pub fn set_flag(&mut self, mask: u8, on: bool)
        ensures
            final(self)@ == old(self)@.with_sr(with_flag(old(self).sr, mask, on)),
    {
        if on {
            self.sr = self.sr | mask;
        } else {
            self.sr = self.sr & !mask;
        }
    }

    /// Whether the flag `mask` is set.
    pub fn flag(&self, mask: u8) -> (on: bool)
        ensures
            on == flag_on(self.sr, mask),
    {
        self.sr & mask != 0
    }

    /// Sets Zero if `value` is 0. Otherwise clears it if `clear` is set, and
    /// leaves it alone if not.
    pub fn set_zerof(&mut self, value: u8, clear: bool)
        ensures
            final(self)@ == old(self)@.with_sr(
                if value == 0 {
                    with_flag(old(self).sr, ZERO, true)
                } else if clear {
                    with_flag(old(self).sr, ZERO, false)
                } else {
                    old(self).sr
                },
            ),
    {
        if value == 0 {
            self.set_flag(ZERO, true);
        } else if clear {
            self.set_flag(ZERO, false);
        }
    }

    /// Sets Negative if bit 7 of `value` is set. Otherwise clears it if
    /// `clear` is set, and leaves it alone if not.
    pub fn set_negf(&mut self, value: u8, clear: bool)
        ensures
            final(self)@ == old(self)@.with_sr(
                if value >= 128 {
                    with_flag(old(self).sr, NEGATIVE, true)
                } else if clear {
                    with_flag(old(self).sr, NEGATIVE, false)
                } else {
                    old(self).sr
                },
            ),
    {
        if value >= 128 {
            self.set_flag(NEGATIVE, true);
        } else if clear {
            self.set_flag(NEGATIVE, false);
        }
    }

    /// Sets Overflow if `left` and `right` have the same sign and `result` has
    /// the other one, and clears it if not.
    pub fn set_vflag(&mut self, left: u8, right: u8, result: u8)
        ensures
            final(self)@ == old(self)@.with_sr(
                with_flag(
                    old(self).sr,
                    OVERFLOW,
                    (left >= 128) == (right >= 128) && (result >= 128) != (left >= 128),
                ),
            ),
    {
        let overflow = (left >= 128) == (right >= 128) && (result >= 128) != (left >= 128);
        self.set_flag(OVERFLOW, overflow);
    }

    /// Derives Zero and Negative from `value`.
    fn set_zn(&mut self, value: u8)
        ensures
            final(self)@ == old(self)@.with_sr(with_zn(old(self).sr, value)),
    {
        self.set_zerof(value, true);
        self.set_negf(value, true);
    }

    /// Writes the two bytes of an instruction with a one-byte operand at the
    /// program counter, which stays where it is.
    pub fn push_instruction(&mut self, instruction: u8, operand: u8)
        ensures
            final(self)@ == old(self)@.store(old(self).pc, instruction).store(
                ((old(self).pc + 1) % 65536) as u16,
                operand,
            ),
    {
        self.write(self.pc, instruction);
        self.write(self.pc.wrapping_add(1), operand);
    }

    /// Writes the three bytes of an instruction with a two-byte operand at the
    /// program counter, which stays where it is.
    pub fn push_instruction_16(&mut self, instruction: u8, operand: u8, operand2: u8)
        ensures
            final(self)@ == old(self)@.store(old(self).pc, instruction).store(
                ((old(self).pc + 1) % 65536) as u16,
                operand,
            ).store(((old(self).pc + 2) % 65536) as u16, operand2),
    {
        self.write(self.pc, instruction);
        self.write(self.pc.wrapping_add(1), operand);
        self.write(self.pc.wrapping_add(2), operand2);
    }

    /// Add with carry.
    pub fn adc(&mut self, operand: u8)
        ensures
            final(self)@ == old(self)@.adc(operand),
    {
        let left = self.a;
        let carry_in: u16 = if self.flag(CARRY) {
            1
        } else {
            0
        };
        let total: u16 = (left as u16) + (operand as u16) + carry_in;
        let value = (total % 256) as u8;
        self.a = value;
        self.set_flag(CARRY, total > 255);
        self.set_vflag(left, operand, value);
        self.set_zn(value);
    }

    /// Subtract with borrow.
    pub fn sbc(&mut self, operand: u8)
        ensures
            final(self)@ == old(self)@.sbc(operand),
    {
        self.adc(255 - operand);
    }

    /// Shift left: the result is returned, Carry takes bit 7 of the operand.
    pub fn asl(&mut self, operand: u8) -> (result: u8)
        ensures
            result == (operand * 2) % 256,
            final(self)@ == old(self)@.with_sr(
                with_zn(with_flag(old(self).sr, CARRY, operand >= 128), result),
            ),
    {
        let result = (operand % 128) * 2;
        self.set_flag(CARRY, operand >= 128);
        self.set_zn(result);
        result
    }

    /// Shift right: the result is returned, Carry takes bit 0 of the operand.
    pub fn lsr(&mut self, operand: u8) -> (result: u8)
        ensures
            result == operand / 2,
            final(self)@ == old(self)@.with_sr(
                with_zn(with_flag(old(self).sr, CARRY, operand % 2 == 1), result),
            ),
    {
        let result = operand / 2;
        self.set_flag(CARRY, operand % 2 == 1);
        self.set_zn(result);
        result
    }

    /// Rotate left through Carry: the old Carry enters at bit 0, Carry takes
    /// bit 7 of the operand.
    pub fn rol(&mut self, operand: u8) -> (result: u8)
        ensures
            result == (operand * 2) % 256 + (if flag_on(old(self).sr, CARRY) {
                1int
            } else {
                0int
            }),
            final(self)@ == old(self)@.with_sr(
                with_zn(with_flag(old(self).sr, CARRY, operand >= 128), result),
            ),
    {
        let carry_in: u8 = if self.flag(CARRY) {
            1
        } else {
            0
        };
        let result = (operand % 128) * 2 + carry_in;
        self.set_flag(CARRY, operand >= 128);
        self.set_zn(result);
        result
    }

    /// Rotate right through Carry: the old Carry enters at bit 7, Carry takes
    /// bit 0 of the operand.
    pub fn ror(&mut self, operand: u8) -> (result: u8)
        ensures
            result == operand / 2 + (if flag_on(old(self).sr, CARRY) {
                128int
            } else {
                0int
            }),
            final(self)@ == old(self)@.with_sr(
                with_zn(with_flag(old(self).sr, CARRY, operand % 2 == 1), result),
            ),
    {
        let carry_in: u8 = if self.flag(CARRY) {
            128
        } else {
            0
        };
        let result = operand / 2 + carry_in;
        self.set_flag(CARRY, operand % 2 == 1);
        self.set_zn(result);
        result
    }

    /// Increment: the result is returned; Zero and Negative follow it.
    pub fn inc(&mut self, operand: u8) -> (result: u8)
        ensures
            result == (operand + 1) % 256,
            final(self)@ == old(self)@.with_sr(with_zn(old(self).sr, result)),
    {
        let result = operand.wrapping_add(1);
        self.set_zn(result);
        result
    }

    /// Decrement: the result is returned; Zero and Negative follow it.
    pub fn dec(&mut self, operand: u8) -> (result: u8)
        ensures
            result == (operand - 1) % 256,
            final(self)@ == old(self)@.with_sr(with_zn(old(self).sr, result)),
    {
        let result = operand.wrapping_sub(1);
        self.set_zn(result);
        result
    }

    /// Bit test.
    pub fn bit(&mut self, operand: u8)
        ensures
            final(self)@ == old(self)@.bit(operand),
    {
        self.set_flag(NEGATIVE, operand >= 128);
        self.set_flag(OVERFLOW, operand & OVERFLOW != 0);
        self.set_flag(ZERO, self.a & operand == 0);
    }

    /// Compares a register value with an operand.
    pub fn cmp(&mut self, left: u8, right: u8)
        ensures
            final(self)@ == old(self)@.compare(left, right),
    {
        let difference = left.wrapping_sub(right);
        self.set_flag(CARRY, left >= right);
        self.set_flag(ZERO, left == right);
        self.set_flag(NEGATIVE, difference >= 128);
    }

    /// Exclusive or into the accumulator.
    pub fn eor(&mut self, operand: u8)
        ensures
            final(self)@ == old(self)@.load_a(old(self).a ^ operand),
    {
        self.a = self.a ^ operand;
        self.set_zn(self.a);
    }

    /// Or into the accumulator.
    pub fn ora(&mut self, operand: u8)
        ensures
            final(self)@ == old(self)@.load_a(old(self).a | operand),
    {
        self.a = self.a | operand;
        self.set_zn(self.a);
    }

    /// And into the accumulator.
    pub fn and(&mut self, operand: u8)
        ensures
            final(self)@ == old(self)@.load_a(old(self).a & operand),
    {
        self.a = self.a & operand;
        self.set_zn(self.a);
    }

    /// Loads the accumulator.
    fn load_a(&mut self, value: u8)
        ensures
            final(self)@ == old(self)@.load_a(value),
    {
        self.a = value;
        self.set_zn(value);
    }

    /// Loads X.
    fn load_x(&mut self, value: u8)
        ensures
            final(self)@ == old(self)@.load_x(value),
    {
        self.x = value;
        self.set_zn(value);
    }

    /// Loads Y.
    fn load_y(&mut self, value: u8)
        ensures
            final(self)@ == old(self)@.load_y(value),
    {
        self.y = value;
        self.set_zn(value);
    }

    /// The byte that an instruction in `mode` works on.
    fn operand_value(&self, mode: AddrMode, addr: u16) -> (value: u8)
        ensures
            value == self@.operand_value(mode, addr),
    {
        match mode {
            AddrMode::Accumulator => self.a,
            _ => self.read(addr),
        }
    }

    /// Writes a result where an instruction in `mode` works.
    fn put(&mut self, mode: AddrMode, addr: u16, value: u8)
        ensures
            final(self)@ == old(self)@.put(mode, addr, value),
    {
        match mode {
            AddrMode::Accumulator => {
                self.a = value;
            },
            _ => {
                self.write(addr, value);
            },
        }
    }

    /// Branches to `target` if `taken`.
    fn branch(&mut self, taken: bool, target: u16)
        ensures
            final(self)@ == old(self)@.branch(taken, target),
    {
        if taken {
            self.pc = target;
        }
    }

    /// Carries out an instruction of arithmetic, logic or comparison on the
    /// operand `value`.
    fn arithmetic(&mut self, m: Mnemonic, value: u8)
        ensures
            final(self)@ == old(self)@.arithmetic(m, value),
    {
        match m {
            Mnemonic::ADC => self.adc(value),
            Mnemonic::SBC => self.sbc(value),
            Mnemonic::AND => self.and(value),
            Mnemonic::ORA => self.ora(value),
            Mnemonic::EOR => self.eor(value),
            Mnemonic::BIT => self.bit(value),
            Mnemonic::CMP => self.cmp(self.a, value),
            Mnemonic::CPX => self.cmp(self.x, value),
            Mnemonic::CPY => self.cmp(self.y, value),
            _ => {},
        }
    }

    /// Carries out a shift, a rotate, an increment or a decrement of the
    /// operand `value`, and writes the result back.
    fn modify(&mut self, m: Mnemonic, mode: AddrMode, addr: u16, value: u8)
        ensures
            final(self)@ == old(self)@.modify(m, mode, addr, value),
    {
        match m {
            Mnemonic::ASL => {
                let result = self.asl(value);
                self.put(mode, addr, result);
            },
            Mnemonic::LSR => {
                let result = self.lsr(value);
                self.put(mode, addr, result);
            },
            Mnemonic::ROL => {
                let result = self.rol(value);
                self.put(mode, addr, result);
            },
            Mnemonic::ROR => {
                let result = self.ror(value);
                self.put(mode, addr, result);
            },
            Mnemonic::INC => {
                let result = self.inc(value);
                self.write(addr, result);
            },
            Mnemonic::DEC => {
                let result = self.dec(value);
                self.write(addr, result);
            },
            _ => {},
        }
    }

    /// Carries out a load, a store, a transfer between registers or a step of
    /// an index register.
    #[verifier::rlimit(40)]
    fn transfer(&mut self, m: Mnemonic, addr: u16, value: u8)
        ensures
            final(self)@ == old(self)@.transfer(m, addr, value),
    {
        match m {
            Mnemonic::LDA => self.load_a(value),
            Mnemonic::LDX => self.load_x(value),
            Mnemonic::LDY => self.load_y(value),
            Mnemonic::STA => self.write(addr, self.a),
            Mnemonic::STX => self.write(addr, self.x),
            Mnemonic::STY => self.write(addr, self.y),
            Mnemonic::TAX => self.load_x(self.a),
            Mnemonic::TAY => self.load_y(self.a),
            Mnemonic::TSX => self.load_x(self.sp),
            Mnemonic::TXA => self.load_a(self.x),
            Mnemonic::TXS => {
                self.sp = self.x;
            },
            Mnemonic::TYA => self.load_a(self.y),
            Mnemonic::INX => self.load_x(self.x.wrapping_add(1)),
            Mnemonic::INY => self.load_y(self.y.wrapping_add(1)),
            Mnemonic::DEX => self.load_x(self.x.wrapping_sub(1)),
            Mnemonic::DEY => self.load_y(self.y.wrapping_sub(1)),
            _ => {},
        }
    }

    /// Whether the conditional branch `m` is taken in the present state.
    pub fn branch_taken(&self, m: Mnemonic) -> (taken: bool)
        ensures
            taken == branch_taken(m, self.sr),
    {
        match m {
            Mnemonic::BCC => !self.flag(CARRY),
            Mnemonic::BCS => self.flag(CARRY),
            Mnemonic::BNE => !self.flag(ZERO),
            Mnemonic::BEQ => self.flag(ZERO),
            Mnemonic::BPL => !self.flag(NEGATIVE),
            Mnemonic::BMI => self.flag(NEGATIVE),
            Mnemonic::BVC => !self.flag(OVERFLOW),
            Mnemonic::BVS => self.flag(OVERFLOW),
            _ => false,
        }
    }

    /// Carries out a branch, a jump, a call or a return.
    fn flow(&mut self, m: Mnemonic, addr: u16)
        ensures
            final(self)@ == old(self)@.flow(m, addr),
    {
        match m {
            Mnemonic::JMP => {
                self.pc = addr;
            },
            Mnemonic::JSR => {
                self.stack_push_16(self.pc.wrapping_sub(1));
                self.pc = addr;
            },
            Mnemonic::RTS => {
                let popped = self.stack_pop_16();
                self.pc = popped.wrapping_add(1);
            },
            Mnemonic::RTI => {
                self.sr = self.stack_pop();
                self.pc = self.stack_pop_16();
            },
            _ => {
                let taken = self.branch_taken(m);
                self.branch(taken, addr);
            },
        }
    }

    /// Carries out an instruction that sets or clears a flag or works on the
    /// stack.
    fn flag_or_stack(&mut self, m: Mnemonic)
        ensures
            final(self)@ == old(self)@.flag_or_stack(m),
    {
        match m {
            Mnemonic::CLC => self.set_flag(CARRY, false),
            Mnemonic::SEC => self.set_flag(CARRY, true),
            Mnemonic::CLD => self.set_flag(DECIMAL, false),
            Mnemonic::SED => self.set_flag(DECIMAL, true),
            Mnemonic::CLI => self.set_flag(INTERRUPT, false),
            Mnemonic::SEI => self.set_flag(INTERRUPT, true),
            Mnemonic::CLV => self.set_flag(OVERFLOW, false),
            Mnemonic::BRK => self.set_flag(BREAK, true),
            Mnemonic::PHA => self.stack_push(self.a),
            Mnemonic::PHP => self.stack_push(self.sr),
            Mnemonic::PLA => {
                self.a = self.stack_pop();
            },
            Mnemonic::PLP => {
                self.sr = self.stack_pop();
            },
            _ => {},
        }
    }

    /// Executes the instruction `m` in `mode`, the program counter standing
    /// just past the opcode byte: the operand is resolved by the routine of
    /// the mode, then the operation of the mnemonic is carried out.
    pub fn execute(&mut self, m: Mnemonic, mode: AddrMode)
        ensures
            final(self)@ == old(self)@.execute(m, mode),
    {
        let addr = self.operand_address(mode);
        let value = self.operand_value(mode, addr);
        match m {
            Mnemonic::ADC | Mnemonic::SBC | Mnemonic::AND | Mnemonic::ORA | Mnemonic::EOR
            | Mnemonic::BIT | Mnemonic::CMP | Mnemonic::CPX | Mnemonic::CPY => self.arithmetic(
                m,
                value,
            ),
            Mnemonic::ASL | Mnemonic::LSR | Mnemonic::ROL | Mnemonic::ROR | Mnemonic::INC
            | Mnemonic::DEC => self.modify(m, mode, addr, value),
            Mnemonic::LDA | Mnemonic::LDX | Mnemonic::LDY | Mnemonic::STA | Mnemonic::STX
            | Mnemonic::STY | Mnemonic::TAX | Mnemonic::TAY | Mnemonic::TSX | Mnemonic::TXA
            | Mnemonic::TXS | Mnemonic::TYA | Mnemonic::INX | Mnemonic::INY | Mnemonic::DEX
            | Mnemonic::DEY => self.transfer(m, addr, value),
            Mnemonic::BCC | Mnemonic::BCS | Mnemonic::BNE | Mnemonic::BEQ | Mnemonic::BPL
            | Mnemonic::BMI | Mnemonic::BVC | Mnemonic::BVS | Mnemonic::JMP | Mnemonic::JSR
            | Mnemonic::RTS | Mnemonic::RTI => self.flow(m, addr),
            Mnemonic::CLC | Mnemonic::SEC | Mnemonic::CLD | Mnemonic::SED | Mnemonic::CLI
            | Mnemonic::SEI | Mnemonic::CLV | Mnemonic::BRK | Mnemonic::PHA | Mnemonic::PHP
            | Mnemonic::PLA | Mnemonic::PLP => self.flag_or_stack(m),
            Mnemonic::NOP => {},
        }
    }

    /// Decodes `opcode` and executes the instruction it stands for, the
    /// program counter standing just past the opcode byte. A byte that is not
    /// an opcode is refused, and nothing changes.
    pub fn execute_instruction(&mut self, opcode: u8) -> (r: Result<(), CpuError>)
        ensures
            match decode_spec(opcode) {
                Some((m, mode)) => r is Ok && final(self)@ == old(self)@.execute(m, mode),
                None => r == Err::<(), CpuError>(
                    CpuError::UnsupportedOpcode {
                        opcode,
                        pc: ((old(self).pc - 1) % 65536) as u16,
                    },
                ) && final(self)@ == old(self)@,
            },
    {
        match decode(opcode) {
            Some((m, mode)) => {
                self.execute(m, mode);
                Ok(())
            },
            None => Err(CpuError::UnsupportedOpcode { opcode, pc: self.pc.wrapping_sub(1) }),
        }
    }

    /// Runs one instruction: fetches the byte at the program counter, moves
    /// past it, and executes what it stands for. A byte that is not an opcode
    /// is refused, and nothing changes.
    pub fn step(&mut self) -> (r: Result<(), CpuError>)
        ensures
            match old(self)@.step() {
                Some(next) => r is Ok && final(self)@ == next,
                None => r == Err::<(), CpuError>(
                    CpuError::UnsupportedOpcode {
                        opcode: old(self)@.opcode(),
                        pc: old(self).pc,
                    },
                ) && final(self)@ == old(self)@,
            },
    {
        let opcode = self.read(self.pc);
        match decode(opcode) {
            Some((m, mode)) => {
                self.advance(1);
                self.execute(m, mode);
                Ok(())
            },
            None => Err(CpuError::UnsupportedOpcode { opcode, pc: self.pc }),
        }
    }
}

} // verus!
