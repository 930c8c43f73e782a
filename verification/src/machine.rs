//! The mathematical model of the processor: its state as plain values, and
//! what each addressing mode and each instruction does to that state.
//!
//! Everything here is specification. The executable engine in [`crate::cpu`]
//! is proved to compute exactly these functions.

use vstd::prelude::*;
use crate::isa::{AddrMode, Mnemonic, decode_spec};

verus! {

/// Status flag: bit 7 of the last result was set.
pub const NEGATIVE: u8 = 0x80;

/// Status flag: the last addition or subtraction overflowed as signed.
pub const OVERFLOW: u8 = 0x40;

/// Status flag: a break instruction was executed.
pub const BREAK: u8 = 0x20;

/// Status flag: decimal mode (recorded, never acted upon).
pub const DECIMAL: u8 = 0x08;

/// Status flag: interrupts are disabled (recorded, never acted upon).
pub const INTERRUPT: u8 = 0x04;

/// Status flag: the last result was zero.
pub const ZERO: u8 = 0x02;

/// Status flag: carry out of the last addition, shift or comparison.
pub const CARRY: u8 = 0x01;

/// The number of bytes of memory, and so the number of addresses.
pub const MEMORY_SIZE: usize = 65536;

/// The first address of the page that holds the stack.
pub const STACK_BASE: u16 = 0x0100;

/// The address at which programs are loaded and start to run.
pub const ORIGIN: u16 = 0x0600;

/// Whether `mask` is one of the seven status flags.
pub open spec fn is_flag(mask: u8) -> bool {
    mask == NEGATIVE || mask == OVERFLOW || mask == BREAK || mask == DECIMAL || mask == INTERRUPT
        || mask == ZERO || mask == CARRY
}

/// Whether the flag `mask` is set in the status byte `sr`.
pub open spec fn flag_on(sr: u8, mask: u8) -> bool {
    sr & mask != 0
}

/// The status byte `sr` with the flag `mask` set or cleared.
pub open spec fn with_flag(sr: u8, mask: u8, on: bool) -> u8 {
    if on {
        sr | mask
    } else {
        sr & !mask
    }
}

/// The status byte `sr` with Zero and Negative derived from `value`.
pub open spec fn with_zn(sr: u8, value: u8) -> u8 {
    with_flag(with_flag(sr, ZERO, value == 0), NEGATIVE, value >= 128)
}

/// Whether the conditional branch `m` is taken when the status byte is `sr`:
/// each branch tests one flag. No other instruction is ever taken.
pub open spec fn branch_taken(m: Mnemonic, sr: u8) -> bool {
    match m {
        Mnemonic::BCC => !flag_on(sr, CARRY),
        Mnemonic::BCS => flag_on(sr, CARRY),
        Mnemonic::BNE => !flag_on(sr, ZERO),
        Mnemonic::BEQ => flag_on(sr, ZERO),
        Mnemonic::BPL => !flag_on(sr, NEGATIVE),
        Mnemonic::BMI => flag_on(sr, NEGATIVE),
        Mnemonic::BVC => !flag_on(sr, OVERFLOW),
        Mnemonic::BVS => flag_on(sr, OVERFLOW),
        _ => false,
    }
}

/// A byte read as a signed number in two's complement.
pub open spec fn signed(b: u8) -> int {
    if b < 128 {
        b as int
    } else {
        b - 256
    }
}

/// What an addition with carry yields: the sum modulo 256, the carry out, and
/// whether the sum overflowed when the operands are read as signed.
pub struct Sum {
    pub value: u8,
    pub carry: bool,
    pub overflow: bool,
}

/// Addition with carry of two bytes.
pub open spec fn add_with_carry(left: u8, right: u8, carry: bool) -> Sum {
    let total = left + right + (if carry { 1int } else { 0int });
    let value = (total % 256) as u8;
    Sum {
        value,
        carry: total > 255,
        overflow: (left >= 128) == (right >= 128) && (value >= 128) != (left >= 128),
    }
}

/// The state of the processor: registers and memory.
pub struct Machine {
    pub a: u8,
    pub x: u8,
    pub y: u8,
    pub sp: u8,
    pub pc: u16,
    pub sr: u8,
    pub mem: Seq<u8>,
}

impl Machine {
    /// Memory has one byte per address.
    pub open spec fn wf(self) -> bool {
        self.mem.len() == MEMORY_SIZE
    }

    /// The state with the program counter at `pc`.
    pub open spec fn with_pc(self, pc: u16) -> Machine {
        Machine { pc, ..self }
    }

    /// The state with the status byte `sr`.
    pub open spec fn with_sr(self, sr: u8) -> Machine {
        Machine { sr, ..self }
    }

    /// The state with the stack pointer at `sp`.
    pub open spec fn with_sp(self, sp: u8) -> Machine {
        Machine { sp, ..self }
    }

    /// The state with `value` written to memory at `addr`.
    pub open spec fn store(self, addr: u16, value: u8) -> Machine {
        Machine { mem: self.mem.update(addr as int, value), ..self }
    }

    /// The byte at the program counter: a one-byte operand.
    pub open spec fn operand8(self) -> u8 {
        self.mem[self.pc as int]
    }

    /// The 16-bit value stored at `addr`: its high byte is at `addr`, its low
    /// byte at the next address (which after 0xFFFF is 0).
    pub open spec fn word_at(self, addr: u16) -> u16 {
        (self.mem[addr as int] * 256 + self.mem[(addr + 1) % 65536]) as u16
    }

    /// The 16-bit address that the pointer at `addr` holds for an indirect
    /// jump: its low byte is at `addr`, its high byte at the next address
    /// (which after 0xFFFF is 0).
    pub open spec fn pointer_at(self, addr: u16) -> u16 {
        (self.mem[(addr + 1) % 65536] * 256 + self.mem[addr as int]) as u16
    }

    /// The 16-bit value stored in the zero page at `ptr`, high byte first; the
    /// byte after 0xFF is the one at 0.
    pub open spec fn zero_page_word_at(self, ptr: u8) -> u16 {
        (self.mem[ptr as int] * 256 + self.mem[(ptr + 1) % 256]) as u16
    }

    /// The two bytes at the program counter: a two-byte operand.
    pub open spec fn operand16(self) -> u16 {
        self.word_at(self.pc)
    }

    /// The address that an addressing mode resolves to, with the program
    /// counter standing on the first operand byte. For a branch it is the
    /// target: the signed operand added to the address after the operand.
    /// Accumulator and Implied have no address; 0 stands in.
    pub open spec fn effective_address(self, mode: AddrMode) -> u16 {
        match mode {
            AddrMode::Accumulator | AddrMode::Implied => 0,
            AddrMode::Immediate => self.pc,
            AddrMode::Absolute => self.operand16(),
            AddrMode::AbsoluteX => ((self.operand16() + self.x) % 65536) as u16,
            AddrMode::AbsoluteY => ((self.operand16() + self.y) % 65536) as u16,
            AddrMode::Indirect => self.pointer_at(self.operand16()),
            AddrMode::IndirectX => self.zero_page_word_at(((self.operand8() + self.x) % 256) as u8),
            AddrMode::IndirectY => ((self.zero_page_word_at(self.operand8()) + self.y)
                % 65536) as u16,
            AddrMode::Relative => ((self.pc + 1 + signed(self.operand8())) % 65536) as u16,
            AddrMode::ZeroPage => self.operand8() as u16,
            AddrMode::ZeroPageX => ((self.operand8() + self.x) % 256) as u16,
            AddrMode::ZeroPageY => ((self.operand8() + self.y) % 256) as u16,
        }
    }

    /// The state with the program counter moved by `n` bytes, modulo 65536.
    pub open spec fn advance(self, n: int) -> Machine {
        self.with_pc(((self.pc + n) % 65536) as u16)
    }

    /// The state with the program counter moved past the operand of `mode`.
    pub open spec fn skip_operand(self, mode: AddrMode) -> Machine {
        self.advance(mode.operand_len() as int)
    }

    /// The address of the stack slot that `sp` points at.
    pub open spec fn stack_slot(sp: u8) -> u16 {
        (STACK_BASE + sp) as u16
    }

    /// A byte pushed: it is written to the slot under the stack pointer, which
    /// then moves down one slot, from 0x00 round to 0xFF.
    pub open spec fn push(self, value: u8) -> Machine {
        self.store(Self::stack_slot(self.sp), value).with_sp(((self.sp - 1) % 256) as u8)
    }

    /// A 16-bit value pushed: high byte, then low byte.
    pub open spec fn push16(self, value: u16) -> Machine {
        self.push((value / 256) as u8).push((value % 256) as u8)
    }

    /// The byte that a pop would return: the one above the stack pointer.
    pub open spec fn top(self) -> u8 {
        self.mem[Self::stack_slot(((self.sp + 1) % 256) as u8) as int]
    }

    /// The state after a pop: the stack pointer moves up one slot, from 0xFF
    /// round to 0x00, and the slot that was read is cleared.
    pub open spec fn pop(self) -> Machine {
        let sp = ((self.sp + 1) % 256) as u8;
        self.store(Self::stack_slot(sp), 0).with_sp(sp)
    }

    /// The 16-bit value that popping two bytes would return: low byte first.
    pub open spec fn top16(self) -> u16 {
        (self.pop().top() * 256 + self.top()) as u16
    }

    /// The state after popping two bytes.
    pub open spec fn pop16(self) -> Machine {
        self.pop().pop()
    }

    /// The byte that an instruction in `mode` works on: the accumulator, or
    /// the byte at the resolved address.
    pub open spec fn operand_value(self, mode: AddrMode, addr: u16) -> u8 {
        if mode == AddrMode::Accumulator {
            self.a
        } else {
            self.mem[addr as int]
        }
    }

    /// The state with `value` written where an instruction in `mode` works:
    /// to the accumulator, or to memory at the resolved address.
    pub open spec fn put(self, mode: AddrMode, addr: u16, value: u8) -> Machine {
        if mode == AddrMode::Accumulator {
            Machine { a: value, ..self }
        } else {
            self.store(addr, value)
        }
    }

    /// `value` loaded into the accumulator; Zero and Negative follow it.
    pub open spec fn load_a(self, value: u8) -> Machine {
        Machine { a: value, sr: with_zn(self.sr, value), ..self }
    }

    /// `value` loaded into X; Zero and Negative follow it.
    pub open spec fn load_x(self, value: u8) -> Machine {
        Machine { x: value, sr: with_zn(self.sr, value), ..self }
    }

    /// `value` loaded into Y; Zero and Negative follow it.
    pub open spec fn load_y(self, value: u8) -> Machine {
        Machine { y: value, sr: with_zn(self.sr, value), ..self }
    }

    /// Add with carry: the accumulator becomes accumulator + operand + Carry
    /// modulo 256; Carry, Overflow, Zero and Negative follow the sum.
    pub open spec fn adc(self, operand: u8) -> Machine {
        let sum = add_with_carry(self.a, operand, flag_on(self.sr, CARRY));
        let sr = with_flag(with_flag(self.sr, CARRY, sum.carry), OVERFLOW, sum.overflow);
        Machine { a: sum.value, sr: with_zn(sr, sum.value), ..self }
    }

    /// Subtract with borrow: an addition of the complemented operand, so that
    /// a clear Carry borrows one.
    pub open spec fn sbc(self, operand: u8) -> Machine {
        self.adc((255 - operand) as u8)
    }

    /// Compare: Carry says that `register >= operand`, Zero that they are
    /// equal, Negative is bit 7 of their difference modulo 256.
    pub open spec fn compare(self, register: u8, operand: u8) -> Machine {
        let sr = with_flag(with_flag(self.sr, CARRY, register >= operand), ZERO, register
            == operand);
        self.with_sr(with_flag(sr, NEGATIVE, (register - operand) % 256 >= 128))
    }

    /// The outcome of a shift or rotate: `result` is written back, Carry is
    /// the bit that left, Zero and Negative follow the result.
    pub open spec fn shifted(self, mode: AddrMode, addr: u16, result: u8, carry: bool) -> Machine {
        let s = self.put(mode, addr, result);
        s.with_sr(with_zn(with_flag(s.sr, CARRY, carry), result))
    }

    /// The outcome of an increment or decrement of memory.
    pub open spec fn stepped(self, addr: u16, result: u8) -> Machine {
        let s = self.store(addr, result);
        s.with_sr(with_zn(s.sr, result))
    }

    /// Bit test: Negative and Overflow copy bits 7 and 6 of the operand, Zero
    /// says that the accumulator and the operand share no bit.
    pub open spec fn bit(self, operand: u8) -> Machine {
        let sr = with_flag(with_flag(self.sr, NEGATIVE, operand >= 128), OVERFLOW, operand
            & OVERFLOW != 0);
        self.with_sr(with_flag(sr, ZERO, self.a & operand == 0))
    }

    /// A branch: to `target` if `taken`, else straight on.
    pub open spec fn branch(self, taken: bool, target: u16) -> Machine {
        if taken {
            self.with_pc(target)
        } else {
            self
        }
    }

    /// Jump to subroutine, the program counter standing after the operand: the
    /// address of the last byte of the instruction is pushed, so that the
    /// return resumes one byte past it.
    pub open spec fn jsr(self, target: u16) -> Machine {
        self.push16(((self.pc - 1) % 65536) as u16).with_pc(target)
    }

    /// Return from subroutine: a 16-bit address is popped, and execution
    /// resumes one byte past it.
    pub open spec fn rts(self) -> Machine {
        self.pop16().with_pc(((self.top16() + 1) % 65536) as u16)
    }

    /// Return from interrupt: the status byte is popped, then the program
    /// counter.
    pub open spec fn rti(self) -> Machine {
        let s = self.pop().with_sr(self.top());
        s.pop16().with_pc(s.top16())
    }

    /// What an instruction of arithmetic, logic or comparison does with its
    /// operand `v`. Any other instruction: nothing.
    pub open spec fn arithmetic(self, m: Mnemonic, v: u8) -> Machine {
        match m {
            Mnemonic::ADC => self.adc(v),
            Mnemonic::SBC => self.sbc(v),
            Mnemonic::AND => self.load_a(self.a & v),
            Mnemonic::ORA => self.load_a(self.a | v),
            Mnemonic::EOR => self.load_a(self.a ^ v),
            Mnemonic::BIT => self.bit(v),
            Mnemonic::CMP => self.compare(self.a, v),
            Mnemonic::CPX => self.compare(self.x, v),
            Mnemonic::CPY => self.compare(self.y, v),
            _ => self,
        }
    }

    /// What a shift, a rotate, an increment or a decrement does with its
    /// operand `v`, which it found at `addr` or, in Accumulator mode, in the
    /// accumulator. Any other instruction: nothing.
    pub open spec fn modify(self, m: Mnemonic, mode: AddrMode, addr: u16, v: u8) -> Machine {
        let carry = flag_on(self.sr, CARRY);
        match m {
            Mnemonic::ASL => self.shifted(mode, addr, ((v * 2) % 256) as u8, v >= 128),
            Mnemonic::LSR => self.shifted(mode, addr, v / 2, v % 2 == 1),
            Mnemonic::ROL => self.shifted(
                mode,
                addr,
                ((v * 2) % 256 + (if carry {
                    1int
                } else {
                    0int
                })) as u8,
                v >= 128,
            ),
            Mnemonic::ROR => self.shifted(
                mode,
                addr,
                (v / 2 + (if carry {
                    128int
                } else {
                    0int
                })) as u8,
                v % 2 == 1,
            ),
            Mnemonic::INC => self.stepped(addr, ((v + 1) % 256) as u8),
            Mnemonic::DEC => self.stepped(addr, ((v - 1) % 256) as u8),
            _ => self,
        }
    }

    /// What a load, a store, a transfer between registers or a step of an
    /// index register does; `v` is the operand, found at `addr`. Loads,
    /// transfers into A, X or Y and steps derive Zero and Negative; stores and
    /// the transfer into the stack pointer touch no flag. Any other
    /// instruction: nothing.
    pub open spec fn transfer(self, m: Mnemonic, addr: u16, v: u8) -> Machine {
        match m {
            Mnemonic::LDA => self.load_a(v),
            Mnemonic::LDX => self.load_x(v),
            Mnemonic::LDY => self.load_y(v),
            Mnemonic::STA => self.store(addr, self.a),
            Mnemonic::STX => self.store(addr, self.x),
            Mnemonic::STY => self.store(addr, self.y),
            Mnemonic::TAX => self.load_x(self.a),
            Mnemonic::TAY => self.load_y(self.a),
            Mnemonic::TSX => self.load_x(self.sp),
            Mnemonic::TXA => self.load_a(self.x),
            Mnemonic::TXS => self.with_sp(self.x),
            Mnemonic::TYA => self.load_a(self.y),
            Mnemonic::INX => self.load_x(((self.x + 1) % 256) as u8),
            Mnemonic::INY => self.load_y(((self.y + 1) % 256) as u8),
            Mnemonic::DEX => self.load_x(((self.x - 1) % 256) as u8),
            Mnemonic::DEY => self.load_y(((self.y - 1) % 256) as u8),
            _ => self,
        }
    }

    /// What a branch, a jump, a call or a return does; `addr` is the address
    /// that the operand resolved to. A branch goes there if the flag it tests
    /// says so. Any other instruction: nothing.
    pub open spec fn flow(self, m: Mnemonic, addr: u16) -> Machine {
        match m {
            Mnemonic::JMP => self.with_pc(addr),
            Mnemonic::JSR => self.jsr(addr),
            Mnemonic::RTS => self.rts(),
            Mnemonic::RTI => self.rti(),
            _ => self.branch(branch_taken(m, self.sr), addr),
        }
    }

    /// What an instruction without operand does that sets or clears a flag
    /// or works on the stack. The flag instructions touch the flag they name
    /// and no other; the break sets Break; a pull into the accumulator touches
    /// no flag. Any other instruction: nothing.
    pub open spec fn flag_or_stack(self, m: Mnemonic) -> Machine {
        match m {
            Mnemonic::CLC => self.with_sr(with_flag(self.sr, CARRY, false)),
            Mnemonic::SEC => self.with_sr(with_flag(self.sr, CARRY, true)),
            Mnemonic::CLD => self.with_sr(with_flag(self.sr, DECIMAL, false)),
            Mnemonic::SED => self.with_sr(with_flag(self.sr, DECIMAL, true)),
            Mnemonic::CLI => self.with_sr(with_flag(self.sr, INTERRUPT, false)),
            Mnemonic::SEI => self.with_sr(with_flag(self.sr, INTERRUPT, true)),
            Mnemonic::CLV => self.with_sr(with_flag(self.sr, OVERFLOW, false)),
            Mnemonic::BRK => self.with_sr(with_flag(self.sr, BREAK, true)),
            Mnemonic::PHA => self.push(self.a),
            Mnemonic::PHP => self.push(self.sr),
            Mnemonic::PLA => Machine { a: self.top(), ..self.pop() },
            Mnemonic::PLP => self.pop().with_sr(self.top()),
            _ => self,
        }
    }

    /// What the instruction `m` in `mode` does, the program counter standing
    /// just past the opcode byte: the operand is resolved by the rule of the
    /// mode and passed over, then the mnemonic acts.
    pub open spec fn execute(self, m: Mnemonic, mode: AddrMode) -> Machine {
        let addr = self.effective_address(mode);
        let s = self.skip_operand(mode);
        let v = s.operand_value(mode, addr);
        match m {
            Mnemonic::ADC | Mnemonic::SBC | Mnemonic::AND | Mnemonic::ORA | Mnemonic::EOR
            | Mnemonic::BIT | Mnemonic::CMP | Mnemonic::CPX | Mnemonic::CPY => s.arithmetic(m, v),
            Mnemonic::ASL | Mnemonic::LSR | Mnemonic::ROL | Mnemonic::ROR | Mnemonic::INC
            | Mnemonic::DEC => s.modify(m, mode, addr, v),
            Mnemonic::LDA | Mnemonic::LDX | Mnemonic::LDY | Mnemonic::STA | Mnemonic::STX
            | Mnemonic::STY | Mnemonic::TAX | Mnemonic::TAY | Mnemonic::TSX | Mnemonic::TXA
            | Mnemonic::TXS | Mnemonic::TYA | Mnemonic::INX | Mnemonic::INY | Mnemonic::DEX
            | Mnemonic::DEY => s.transfer(m, addr, v),
            Mnemonic::BCC | Mnemonic::BCS | Mnemonic::BNE | Mnemonic::BEQ | Mnemonic::BPL
            | Mnemonic::BMI | Mnemonic::BVC | Mnemonic::BVS | Mnemonic::JMP | Mnemonic::JSR
            | Mnemonic::RTS | Mnemonic::RTI => s.flow(m, addr),
            Mnemonic::CLC | Mnemonic::SEC | Mnemonic::CLD | Mnemonic::SED | Mnemonic::CLI
            | Mnemonic::SEI | Mnemonic::CLV | Mnemonic::BRK | Mnemonic::PHA | Mnemonic::PHP
            | Mnemonic::PLA | Mnemonic::PLP => s.flag_or_stack(m),
            Mnemonic::NOP => s,
        }
    }

    /// The opcode byte that the next step fetches.
    pub open spec fn opcode(self) -> u8 {
        self.mem[self.pc as int]
    }

    /// One step: the byte at the program counter is fetched and decoded, the
    /// program counter moves past it, and the instruction executes. `None`
    /// where the byte is not an opcode.
    pub open spec fn step(self) -> Option<Machine> {
        match decode_spec(self.opcode()) {
            Some((m, mode)) => Some(self.advance(1).execute(m, mode)),
            None => None,
        }
    }
}

} // verus!
