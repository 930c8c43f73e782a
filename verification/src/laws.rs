//! Laws of the processor model: facts about [`Machine`] that hold of every
//! state, stated over the same functions as the contracts of the engine.

use vstd::prelude::*;
use crate::isa::{AddrMode, Mnemonic};
use crate::machine::{
    add_with_carry, flag_on, is_flag, signed, with_flag, with_zn, Machine, CARRY, NEGATIVE,
    OVERFLOW, ZERO,
};

verus! {

/// A flag that was just set reads as set, and one just cleared as clear.
pub proof fn lemma_flag_written(sr: u8, mask: u8, on: bool)
    requires
        is_flag(mask),
    ensures
        flag_on(with_flag(sr, mask, on), mask) == on,
{
    assert((sr | mask) & mask != 0 && (sr & !mask) & mask == 0) by (bit_vector)
        requires
            mask == 0x80u8 || mask == 0x40u8 || mask == 0x20u8 || mask == 0x08u8 || mask == 0x04u8
                || mask == 0x02u8 || mask == 0x01u8,
    ;
}

/// Writing one flag leaves every other flag as it was.
pub proof fn lemma_flag_kept(sr: u8, mask: u8, on: bool, other: u8)
    requires
        is_flag(mask),
        is_flag(other),
        other != mask,
    ensures
        flag_on(with_flag(sr, mask, on), other) == flag_on(sr, other),
{
    assert(((sr | mask) & other != 0) == (sr & other != 0) && ((sr & !mask) & other != 0) == (sr
        & other != 0)) by (bit_vector)
        requires
            mask == 0x80u8 || mask == 0x40u8 || mask == 0x20u8 || mask == 0x08u8 || mask == 0x04u8
                || mask == 0x02u8 || mask == 0x01u8,
            other == 0x80u8 || other == 0x40u8 || other == 0x20u8 || other == 0x08u8 || other
                == 0x04u8 || other == 0x02u8 || other == 0x01u8,
            other != mask,
    ;
}

/// Deriving Zero and Negative from a value sets Zero exactly if the value is
/// 0 and Negative exactly if its bit 7 is set, and leaves every other flag as
/// it was.
pub proof fn lemma_zero_and_negative(sr: u8, value: u8, other: u8)
    requires
        is_flag(other),
    ensures
        flag_on(with_zn(sr, value), ZERO) == (value == 0),
        flag_on(with_zn(sr, value), NEGATIVE) == (value >= 128),
        other != ZERO && other != NEGATIVE ==> flag_on(with_zn(sr, value), other) == flag_on(
            sr,
            other,
        ),
{
    let with_zero = with_flag(sr, ZERO, value == 0);
    lemma_flag_written(sr, ZERO, value == 0);
    lemma_flag_kept(with_zero, NEGATIVE, value >= 128, ZERO);
    lemma_flag_written(with_zero, NEGATIVE, value >= 128);
    if other != ZERO && other != NEGATIVE {
        lemma_flag_kept(sr, ZERO, value == 0, other);
        lemma_flag_kept(with_zero, NEGATIVE, value >= 128, other);
    }
}

/// The overflow of an addition with carry is signed overflow: it is reported
/// exactly if the sum of the operands, read as signed bytes, and the carry
/// lies outside -128..=127.
pub proof fn lemma_overflow_is_signed(left: u8, right: u8, carry: bool)
    ensures
        add_with_carry(left, right, carry).overflow == !(-128 <= signed(left) + signed(right)
            + (if carry {
            1int
        } else {
            0int
        }) <= 127),
{
}

/// Flag correctness of the addition with carry: the accumulator takes the
/// sum modulo 256; afterwards Carry says that the sum passed 255, Overflow
/// that it overflowed as signed, Zero that the result is 0, Negative that bit
/// 7 of the result is set; every other flag is as it was.
pub proof fn lemma_adc_flags(s: Machine, operand: u8, other: u8)
    requires
        is_flag(other),
    ensures
        s.adc(operand).a == (s.a + operand + (if flag_on(s.sr, CARRY) {
            1int
        } else {
            0int
        })) % 256,
        flag_on(s.adc(operand).sr, CARRY) == (s.a + operand + (if flag_on(s.sr, CARRY) {
            1int
        } else {
            0int
        }) > 255),
        flag_on(s.adc(operand).sr, OVERFLOW) == add_with_carry(
            s.a,
            operand,
            flag_on(s.sr, CARRY),
        ).overflow,
        flag_on(s.adc(operand).sr, ZERO) == (s.adc(operand).a == 0),
        flag_on(s.adc(operand).sr, NEGATIVE) == (s.adc(operand).a >= 128),
        other != CARRY && other != OVERFLOW && other != ZERO && other != NEGATIVE ==> flag_on(
            s.adc(operand).sr,
            other,
        ) == flag_on(s.sr, other),
{
    let sum = add_with_carry(s.a, operand, flag_on(s.sr, CARRY));
    let with_carry = with_flag(s.sr, CARRY, sum.carry);
    let with_overflow = with_flag(with_carry, OVERFLOW, sum.overflow);
    lemma_flag_written(s.sr, CARRY, sum.carry);
    lemma_flag_kept(with_carry, OVERFLOW, sum.overflow, CARRY);
    lemma_flag_written(with_carry, OVERFLOW, sum.overflow);
    lemma_zero_and_negative(with_overflow, sum.value, CARRY);
    lemma_zero_and_negative(with_overflow, sum.value, OVERFLOW);
    if other != CARRY && other != OVERFLOW && other != ZERO && other != NEGATIVE {
        lemma_flag_kept(s.sr, CARRY, sum.carry, other);
        lemma_flag_kept(with_carry, OVERFLOW, sum.overflow, other);
        lemma_zero_and_negative(with_overflow, sum.value, other);
    }
}

/// Subtraction with borrow subtracts: the accumulator takes the difference
/// of accumulator and operand, less one more if Carry was clear, modulo 256;
/// afterwards Carry is set exactly if nothing had to be borrowed.
pub proof fn lemma_sbc_subtracts(s: Machine, operand: u8)
    ensures
        s.sbc(operand).a == (s.a - operand - (if flag_on(s.sr, CARRY) {
            0int
        } else {
            1int
        })) % 256,
        flag_on(s.sbc(operand).sr, CARRY) == (s.a - operand - (if flag_on(s.sr, CARRY) {
            0int
        } else {
            1int
        }) >= 0),
{
    lemma_adc_flags(s, (255 - operand) as u8, CARRY);
}

/// Flag correctness of a comparison: afterwards Carry says that the register
/// is at least the operand, Zero that they are equal, Negative that bit 7 of
/// their difference modulo 256 is set; every other flag is as it was, and so
/// are the registers and the memory.
pub proof fn lemma_compare_flags(s: Machine, register: u8, operand: u8, other: u8)
    requires
        is_flag(other),
    ensures
        flag_on(s.compare(register, operand).sr, CARRY) == (register >= operand),
        flag_on(s.compare(register, operand).sr, ZERO) == (register == operand),
        flag_on(s.compare(register, operand).sr, NEGATIVE) == ((register - operand) % 256 >= 128),
        other != CARRY && other != ZERO && other != NEGATIVE ==> flag_on(
            s.compare(register, operand).sr,
            other,
        ) == flag_on(s.sr, other),
        s.compare(register, operand) == s.with_sr(s.compare(register, operand).sr),
{
    let negative = (register - operand) % 256 >= 128;
    let with_carry = with_flag(s.sr, CARRY, register >= operand);
    let with_zero = with_flag(with_carry, ZERO, register == operand);
    lemma_flag_written(s.sr, CARRY, register >= operand);
    lemma_flag_kept(with_carry, ZERO, register == operand, CARRY);
    lemma_flag_written(with_carry, ZERO, register == operand);
    lemma_flag_kept(with_zero, NEGATIVE, negative, CARRY);
    lemma_flag_kept(with_zero, NEGATIVE, negative, ZERO);
    lemma_flag_written(with_zero, NEGATIVE, negative);
    if other != CARRY && other != ZERO && other != NEGATIVE {
        lemma_flag_kept(s.sr, CARRY, register >= operand, other);
        lemma_flag_kept(with_carry, ZERO, register == operand, other);
        lemma_flag_kept(with_zero, NEGATIVE, negative, other);
    }
}

/// Comparing a value with itself sets Zero and Carry and clears Negative,
/// whatever the flags were before.
pub proof fn lemma_compare_equal(s: Machine, value: u8)
    ensures
        flag_on(s.compare(value, value).sr, ZERO),
        flag_on(s.compare(value, value).sr, CARRY),
        !flag_on(s.compare(value, value).sr, NEGATIVE),
{
    lemma_compare_flags(s, value, value, CARRY);
}

/// A compare instruction whose operand equals the register it compares sets
/// Zero and Carry and clears Negative, whatever the flags were before, and
/// changes no register and no memory.
pub proof fn lemma_compare_instruction_equal(s: Machine, m: Mnemonic, mode: AddrMode)
    requires
        m == Mnemonic::CMP || m == Mnemonic::CPX || m == Mnemonic::CPY,
        s.operand_value(mode, s.effective_address(mode)) == (match m {
            Mnemonic::CMP => s.a,
            Mnemonic::CPX => s.x,
            _ => s.y,
        }),
    ensures
        flag_on(s.execute(m, mode).sr, ZERO),
        flag_on(s.execute(m, mode).sr, CARRY),
        !flag_on(s.execute(m, mode).sr, NEGATIVE),
        s.execute(m, mode) == s.skip_operand(mode).with_sr(s.execute(m, mode).sr),
{
    let t = s.skip_operand(mode);
    let value = t.operand_value(mode, s.effective_address(mode));
    lemma_compare_equal(t, value);
}

/// Indexing an absolute address wraps round at 65536, and indexing a zero
/// page address wraps round at 256: it never reaches the next page.
pub proof fn lemma_indexing_wraps(s: Machine)
    ensures
        s.effective_address(AddrMode::AbsoluteX) == (s.operand16() + s.x) % 65536,
        s.effective_address(AddrMode::AbsoluteY) == (s.operand16() + s.y) % 65536,
        s.effective_address(AddrMode::ZeroPageX) == (s.operand8() + s.x) % 256,
        s.effective_address(AddrMode::ZeroPageY) == (s.operand8() + s.y) % 256,
        s.effective_address(AddrMode::ZeroPageX) < 256,
        s.effective_address(AddrMode::ZeroPageY) < 256,
        s.operand16() + s.x > 0xFFFF ==> s.effective_address(AddrMode::AbsoluteX)
            == s.operand16() + s.x - 65536,
        s.operand16() + s.y > 0xFFFF ==> s.effective_address(AddrMode::AbsoluteY)
            == s.operand16() + s.y - 65536,
        s.operand8() + s.x > 0xFF ==> s.effective_address(AddrMode::ZeroPageX) == s.operand8()
            + s.x - 256,
        s.operand8() + s.y > 0xFF ==> s.effective_address(AddrMode::ZeroPageY) == s.operand8()
            + s.y - 256,
{
}

impl Machine {
    /// The state after pushing the bytes of `values`, first to last.
    pub open spec fn push_all(self, values: Seq<u8>) -> Machine
        decreases values.len(),
    {
        if values.len() == 0 {
            self
        } else {
            self.push_all(values.drop_last()).push(values.last())
        }
    }

    /// The bytes that `n` pops return, in the order in which they come.
    pub open spec fn popped(self, n: nat) -> Seq<u8>
        decreases n,
    {
        if n == 0 {
            Seq::empty()
        } else {
            seq![self.top()] + self.pop().popped((n - 1) as nat)
        }
    }

    /// The state after `n` pops.
    pub open spec fn pop_n(self, n: nat) -> Machine
        decreases n,
    {
        if n == 0 {
            self
        } else {
            self.pop().pop_n((n - 1) as nat)
        }
    }

    /// The address of the slot that the `i`-th push writes, counting from 0,
    /// when pushing starts with the stack pointer at `sp`.
    pub open spec fn slot_of_push(sp: u8, i: int) -> int {
        0x100 + (sp - i) % 256
    }

    /// Whether `self` and `other` hold the same registers but for the stack
    /// pointer, and the same memory outside the stack page.
    pub open spec fn same_outside_stack(self, other: Machine) -> bool {
        &&& self.a == other.a
        &&& self.x == other.x
        &&& self.y == other.y
        &&& self.pc == other.pc
        &&& self.sr == other.sr
        &&& self.mem.len() == other.mem.len()
        &&& forall|addr: int|
            0 <= addr < self.mem.len() && !(0x100 <= addr < 0x200) ==> self.mem[addr]
                == other.mem[addr]
    }
}

/// Every push writes into the stack page, and two pushes less than a page
/// apart write into different slots.
pub proof fn lemma_slots_differ(sp: u8, i: int, j: int)
    requires
        0 <= i < j < i + 256,
    ensures
        0x100 <= Machine::slot_of_push(sp, i) < 0x200,
        0x100 <= Machine::slot_of_push(sp, j) < 0x200,
        Machine::slot_of_push(sp, i) != Machine::slot_of_push(sp, j),
{
}

/// The slot that a push writes when the stack pointer has come down `i`
/// slots from `sp` is the slot of the `i`-th push.
pub proof fn lemma_slot_reached(sp: u8, i: int, now: u8)
    requires
        0 <= i,
        now == (sp - i) % 256,
    ensures
        Machine::stack_slot(now) == Machine::slot_of_push(sp, i),
        (now - 1) % 256 == (sp - (i + 1)) % 256,
        i > 0 ==> (now + 1) % 256 == (sp - (i - 1)) % 256,
{
}

/// After up to 256 pushes, the stack pointer has moved down by their number,
/// and each byte lies in the slot of its push.
pub proof fn lemma_push_all(s: Machine, values: Seq<u8>)
    requires
        s.wf(),
        values.len() <= 256,
    ensures
        s.push_all(values).sp == (s.sp - values.len()) % 256,
        s.push_all(values).same_outside_stack(s),
        forall|i: int|
            0 <= i < values.len() ==> s.push_all(values).mem[Machine::slot_of_push(s.sp, i)]
                == values[i],
    decreases values.len(),
{
    if values.len() > 0 {
        let n = values.len() as int;
        let before = s.push_all(values.drop_last());
        lemma_push_all(s, values.drop_last());
        let after = before.push(values.last());
        assert(after == s.push_all(values));
        lemma_slot_reached(s.sp, n - 1, before.sp);
        let slot = Machine::slot_of_push(s.sp, n - 1);
        assert(after.mem == before.mem.update(slot, values.last()));
        assert(after.sp == (s.sp - n) % 256);
        assert(0x100 <= slot < 0x200) by {
            lemma_slots_differ(s.sp, n - 1, n);
        }
        assert(after.same_outside_stack(s));
        assert forall|i: int| 0 <= i < n implies after.mem[Machine::slot_of_push(s.sp, i)]
            == values[i] by {
            if i < n - 1 {
                assert(values.drop_last()[i] == values[i]);
                lemma_slots_differ(s.sp, i, n - 1);
            }
        }
    }
}

/// Popping as many bytes as lie in the slots of `values.len()` pushes returns
/// them last to first and brings the stack pointer back.
pub proof fn lemma_pop_all(t: Machine, values: Seq<u8>, sp: u8)
    requires
        t.wf(),
        values.len() <= 256,
        t.sp == (sp - values.len()) % 256,
        forall|i: int|
            0 <= i < values.len() ==> t.mem[Machine::slot_of_push(sp, i)] == values[i],
    ensures
        t.popped(values.len()) == values.reverse(),
        t.pop_n(values.len()).sp == sp,
        t.pop_n(values.len()).same_outside_stack(t),
    decreases values.len(),
{
    let n = values.len() as int;
    if n > 0 {
        let rest = values.drop_last();
        let next = t.pop();
        lemma_slot_reached(sp, n, t.sp);
        lemma_slot_reached(sp, n - 1, next.sp);
        let slot = Machine::slot_of_push(sp, n - 1);
        assert(0x100 <= slot < 0x200) by {
            lemma_slots_differ(sp, n - 1, n);
        }
        assert(next.mem == t.mem.update(slot, 0));
        assert(t.top() == values[n - 1]);
        assert forall|i: int| 0 <= i < rest.len() implies next.mem[Machine::slot_of_push(sp, i)]
            == rest[i] by {
            lemma_slots_differ(sp, i, n - 1);
        }
        lemma_pop_all(next, rest, sp);
        assert(next.same_outside_stack(t));
        assert(t.popped(n as nat) == seq![values[n - 1]] + rest.reverse());
        assert(seq![values[n - 1]] + rest.reverse() =~= values.reverse());
    } else {
        assert(t.popped(0) =~= values.reverse());
    }
}

/// Stack discipline: up to 256 pushes followed by as many pops return every
/// pushed byte, last pushed first, and leave the stack pointer, the other
/// registers and the memory outside the stack page as they were before the
/// first push. Filling the whole page and wrapping round is no fault.
pub proof fn lemma_stack_discipline(s: Machine, values: Seq<u8>)
    requires
        s.wf(),
        values.len() <= 256,
    ensures
        s.push_all(values).popped(values.len()) == values.reverse(),
        s.push_all(values).pop_n(values.len()).sp == s.sp,
        s.push_all(values).pop_n(values.len()).same_outside_stack(s),
{
    lemma_push_all(s, values);
    lemma_pop_all(s.push_all(values), values, s.sp);
}

/// A 16-bit value that was pushed is the one that the next 16-bit pop
/// returns, and the pop brings the stack pointer back.
pub proof fn lemma_push16_pop16(s: Machine, value: u16)
    requires
        s.wf(),
    ensures
        s.push16(value).top16() == value,
        s.push16(value).pop16().sp == s.sp,
{
    let high = (value / 256) as u8;
    let low = (value % 256) as u8;
    let one = s.push(high);
    let two = one.push(low);
    assert(two == s.push16(value));
    assert(one.mem[Machine::stack_slot(s.sp) as int] == high);
    assert(two.mem[Machine::stack_slot(one.sp) as int] == low);
    assert(Machine::stack_slot(one.sp) != Machine::stack_slot(s.sp));
    assert(two.mem[Machine::stack_slot(s.sp) as int] == high);
    assert(two.top() == low);
    assert(two.pop().sp == one.sp);
    assert(two.pop().top() == high);
    assert(two.pop().pop().sp == s.sp);
}

/// A call that is followed at once by a return comes back to where the
/// program counter stood at the call, plus one less one: the return address
/// that is pushed is one below it, and the return resumes one above that.
pub proof fn lemma_jsr_then_rts(s: Machine, target: u16)
    requires
        s.wf(),
    ensures
        s.jsr(target).rts().pc == s.pc,
        s.jsr(target).rts().sp == s.sp,
{
    let pushed = ((s.pc - 1) % 65536) as u16;
    lemma_push16_pop16(s, pushed);
    let called = s.jsr(target);
    assert(called.top16() == s.push16(pushed).top16());
    assert(called.pop16().sp == s.push16(pushed).pop16().sp);
}

/// A subroutine call that is followed at once by a return resumes at the
/// instruction after the call, with the stack pointer where it was.
pub proof fn lemma_call_returns(s: Machine)
    requires
        s.wf(),
    ensures
        s.execute(Mnemonic::JSR, AddrMode::Absolute).execute(Mnemonic::RTS, AddrMode::Implied).pc
            == (s.pc + 2) % 65536,
        s.execute(Mnemonic::JSR, AddrMode::Absolute).execute(Mnemonic::RTS, AddrMode::Implied).sp
            == s.sp,
{
    let after_operand = s.skip_operand(AddrMode::Absolute);
    let target = s.effective_address(AddrMode::Absolute);
    let called = s.execute(Mnemonic::JSR, AddrMode::Absolute);
    assert(called == after_operand.jsr(target));
    assert(called.skip_operand(AddrMode::Implied) == called);
    assert(called.execute(Mnemonic::RTS, AddrMode::Implied) == called.rts());
    lemma_jsr_then_rts(after_operand, target);
}

} // verus!
