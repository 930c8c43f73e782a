//! The round trip from source to execution: a machine that holds an
//! assembled program at the origin runs each instruction as it was written,
//! and a jump or a taken branch to a label lands on the first byte that was
//! encoded after the label.
//!
//! The laws speak of the tokens after classifying, `tokens`, and of the
//! same tokens with the addresses of the labels filled in, `resolved`.

use vstd::prelude::*;
use crate::assembler::{
    address_after, branch_byte, emit, instruction_bytes, layout, lemma_emit_failure_stays,
    operand_bytes,
};
use crate::assembly_laws::{
    lemma_encoding_symmetry, lemma_instruction_len, lemma_label_address,
    lemma_mode_survives, lemma_resolve_fills_in, passes_succeed,
};
use crate::isa::{lemma_decode_inverts, mnemonic_of, opcode_of, AddrMode, Mnemonic};
use crate::lexer::{TokenType, TokenView};
use crate::machine::{branch_taken, signed, Machine, ORIGIN};
use crate::mode::{mode_at, operand_at, Operand};
use crate::numeral::lemma_hex_round_trip;

verus! {

/// Whether the machine holds `program` in memory from the origin on, all of
/// it below the top of memory.
#[verifier::opaque]
pub open spec fn holds_program(s: Machine, program: Seq<u8>) -> bool {
    &&& s.wf()
    &&& program.len() <= 65536 - ORIGIN
    &&& forall|j: int| 0 <= j < program.len() ==> s.mem[ORIGIN + j] == #[trigger] program[j]
}

/// A machine that has just been loaded holds the program.
pub proof fn lemma_load_holds(s: Machine, program: Seq<u8>)
    requires
        s.wf(),
        program.len() <= 65536 - ORIGIN,
    ensures
        holds_program(s.load(program), program),
{
    reveal(holds_program);
}

/// What the encoder has written after fewer tokens is the beginning of what
/// it has written after more.
pub proof fn lemma_emit_grows(tokens: Seq<TokenView>, n: nat, m: nat)
    requires
        n <= m,
        emit(tokens, m) is Ok,
    ensures
        emit(tokens, n) is Ok,
        emit(tokens, n)->Ok_0.len() <= emit(tokens, m)->Ok_0.len(),
        emit(tokens, n)->Ok_0 == emit(tokens, m)->Ok_0.take(emit(tokens, n)->Ok_0.len() as int),
    decreases m - n,
{
    if emit(tokens, n) is Err {
        lemma_emit_failure_stays(tokens, n, m);
    }
    if n < m {
        lemma_emit_grows(tokens, n + 1, m);
        let short = emit(tokens, n)->Ok_0;
        let next = emit(tokens, n + 1)->Ok_0;
        let long = emit(tokens, m)->Ok_0;
        assert(short =~= next.take(short.len() as int));
        assert(short =~= long.take(short.len() as int));
    } else {
        assert(emit(tokens, n)->Ok_0 =~= emit(tokens, m)->Ok_0.take(
            emit(tokens, n)->Ok_0.len() as int,
        ));
    }
}

/// The bytes of every instruction stand in the program at the place that the
/// encoder had reached when it came to the instruction.
pub proof fn lemma_instruction_in_program(tokens: Seq<TokenView>, i: int)
    requires
        0 <= i < tokens.len(),
        tokens[i].ttype == TokenType::INSTRUCTION,
        emit(tokens, tokens.len()) is Ok,
    ensures
        emit(tokens, i as nat) is Ok,
        instruction_bytes(
            tokens,
            i,
            address_after(emit(tokens, i as nat)->Ok_0.len()),
        ) is Some,
        ({
            let program = emit(tokens, tokens.len())->Ok_0;
            let start = emit(tokens, i as nat)->Ok_0.len();
            let bytes = instruction_bytes(tokens, i, address_after(start))->0;
            &&& start + bytes.len() <= program.len()
            &&& forall|j: int| 0 <= j < bytes.len() ==> program[start + j] == #[trigger] bytes[j]
        }),
{
    lemma_emit_grows(tokens, (i + 1) as nat, tokens.len());
    lemma_emit_grows(tokens, i as nat, (i + 1) as nat);
    let program = emit(tokens, tokens.len())->Ok_0;
    let before = emit(tokens, i as nat)->Ok_0;
    let after = emit(tokens, (i + 1) as nat)->Ok_0;
    let bytes = instruction_bytes(tokens, i, address_after(before.len()))->0;
    assert(after == before + bytes);
    assert forall|j: int| 0 <= j < bytes.len() implies program[before.len() + j]
        == #[trigger] bytes[j] by {
        assert(after[before.len() + j] == bytes[j]);
        assert(program.take(after.len() as int)[before.len() + j] == program[before.len() + j]);
    }
}

/// Encoding and decoding are symmetric throughout a program. A machine that
/// holds an encoded program, with the program counter on the opcode of an
/// instruction, decodes the mnemonic and the mode that the assembler read,
/// and passes over exactly the bytes that the assembler wrote for it.
pub proof fn lemma_step_runs_what_was_written(tokens: Seq<TokenView>, i: int, s: Machine)
    requires
        0 <= i < tokens.len(),
        tokens[i].ttype == TokenType::INSTRUCTION,
        emit(tokens, tokens.len()) is Ok,
        holds_program(s, emit(tokens, tokens.len())->Ok_0),
        s.pc == ORIGIN + emit(tokens, i as nat)->Ok_0.len(),
    ensures
        mnemonic_of(tokens[i].text) is Some,
        mode_at(tokens, i) is Some,
        s.step() == Some(
            s.advance(1).execute(mnemonic_of(tokens[i].text)->0, mode_at(tokens, i)->0),
        ),
        s.advance(1).skip_operand(mode_at(tokens, i)->0).pc == address_after(
            emit(tokens, (i + 1) as nat)->Ok_0.len(),
        ),
{
    reveal(holds_program);
    lemma_instruction_in_program(tokens, i);
    lemma_emit_grows(tokens, (i + 1) as nat, tokens.len());
    let program = emit(tokens, tokens.len())->Ok_0;
    let start = emit(tokens, i as nat)->Ok_0.len();
    let address = address_after(start);
    let bytes = instruction_bytes(tokens, i, address)->0;
    lemma_instruction_len(tokens, i, address);
    assert(bytes[0] == program[start as int]);
    assert(s.opcode() == bytes[0]);
    lemma_encoding_symmetry(tokens, i, address, s);
}

/// After the addresses are filled in, every reference to a label holds the
/// address of the label: the address of the first byte that was encoded
/// after it.
pub proof fn lemma_reference_holds_address(
    tokens: Seq<TokenView>,
    resolved: Seq<TokenView>,
    j: int,
    k: int,
)
    requires
        passes_succeed(tokens, resolved),
        0 <= j < tokens.len(),
        0 <= k < tokens.len(),
        tokens[j].ttype == TokenType::UNKNOWN,
        tokens[k].ttype == TokenType::LABEL,
        tokens[k].text == tokens[j].text,
    ensures
        emit(resolved, k as nat) is Ok,
        operand_at(resolved, j) == Some(
            Operand {
                value: address_after(emit(resolved, k as nat)->Ok_0.len()),
                wide: true,
                label: true,
                span: 1,
            },
        ),
{
    reveal(passes_succeed);
    let n = tokens.len();
    let laid = layout(tokens, n)->Ok_0;
    lemma_label_address(tokens, resolved, k);
    lemma_resolve_fills_in(tokens, laid.symbols, n);
    assert(tokens.take(n as int) =~= tokens);
    let address = address_after(emit(resolved, k as nat)->Ok_0.len());
    assert(resolved[j].ttype == TokenType::LABEL_OPERAND);
    lemma_hex_round_trip(address);
}

/// A machine whose program counter stands on the opcode of a jump or a call,
/// with the two bytes of an address behind it, high byte first, goes to that
/// address in one step.
pub proof fn lemma_jump_executes(s: Machine, m: Mnemonic, target: u16)
    requires
        s.wf(),
        m == Mnemonic::JMP || m == Mnemonic::JSR,
        opcode_of(m, AddrMode::Absolute) == Some(s.opcode()),
        s.mem[(s.pc + 1) % 65536] == target / 256,
        s.mem[(s.pc + 2) % 65536] == target % 256,
    ensures
        s.step() is Some,
        s.step()->0.pc == target,
{
    lemma_decode_inverts(m, AddrMode::Absolute, s.opcode());
    let t = s.advance(1);
    assert(t.operand16() == target);
}

/// A machine whose program counter stands on the opcode of a conditional
/// branch goes, in one step, to the address after the branch, and from there
/// by the signed operand byte if the branch is taken.
pub proof fn lemma_branch_executes(s: Machine, m: Mnemonic)
    requires
        s.wf(),
        m.is_branch(),
        opcode_of(m, AddrMode::Relative) == Some(s.opcode()),
    ensures
        s.step() is Some,
        s.step()->0.pc == if branch_taken(m, s.sr) {
            (s.pc + 2 + signed(s.mem[(s.pc + 1) % 65536])) % 65536
        } else {
            (s.pc + 2) % 65536
        },
{
    lemma_decode_inverts(m, AddrMode::Relative, s.opcode());
}

/// The operand byte that the encoder computes for a branch at `pc` leads from
/// the address after the branch to the target.
pub proof fn lemma_branch_target(pc: u16, byte: u8, target: u16)
    requires
        branch_byte(((pc + 2) % 65536) as u16, target) == Some(byte),
    ensures
        (pc + 2 + signed(byte)) % 65536 == target as int,
{
}

/// A jump or a call whose operand is a label is encoded as its opcode and the
/// address of the label, high byte first.
#[verifier::rlimit(40)]
pub proof fn lemma_jump_is_encoded(
    tokens: Seq<TokenView>,
    resolved: Seq<TokenView>,
    i: int,
    k: int,
)
    requires
        passes_succeed(tokens, resolved),
        0 <= i < tokens.len() - 1,
        0 <= k < tokens.len(),
        tokens[i].ttype == TokenType::INSTRUCTION,
        mode_at(tokens, i) == Some(AddrMode::Absolute),
        tokens[i + 1].ttype == TokenType::UNKNOWN,
        tokens[k].ttype == TokenType::LABEL,
        tokens[k].text == tokens[i + 1].text,
    ensures
        resolved.len() == tokens.len(),
        resolved[i] == tokens[i],
        emit(resolved, i as nat) is Ok,
        emit(resolved, k as nat) is Ok,
        mnemonic_of(tokens[i].text) is Some,
        opcode_of(mnemonic_of(tokens[i].text)->0, AddrMode::Absolute) is Some,
        instruction_bytes(resolved, i, address_after(emit(resolved, i as nat)->Ok_0.len()))
            == Some(
            seq![
                opcode_of(mnemonic_of(tokens[i].text)->0, AddrMode::Absolute)->0,
                (address_after(emit(resolved, k as nat)->Ok_0.len()) / 256) as u8,
                (address_after(emit(resolved, k as nat)->Ok_0.len()) % 256) as u8,
            ],
        ),
{
    reveal(passes_succeed);
    let n = tokens.len();
    let laid = layout(tokens, n)->Ok_0;
    lemma_resolve_fills_in(tokens, laid.symbols, n);
    assert(tokens.take(n as int) =~= tokens);
    assert(resolved[i] == tokens[i]);
    lemma_mode_survives(tokens, resolved, i);
    lemma_reference_holds_address(tokens, resolved, i + 1, k);
    lemma_instruction_in_program(resolved, i);
    reveal(instruction_bytes);
    let here = address_after(emit(resolved, i as nat)->Ok_0.len());
    let target = address_after(emit(resolved, k as nat)->Ok_0.len());
    let m = mnemonic_of(tokens[i].text)->0;
    let bytes = instruction_bytes(resolved, i, here)->0;
    let operand = operand_bytes(resolved, i, AddrMode::Absolute, here)->0;
    assert(operand == seq![(target / 256) as u8, (target % 256) as u8]);
    assert(bytes =~= seq![
        opcode_of(m, AddrMode::Absolute)->0,
        (target / 256) as u8,
        (target % 256) as u8,
    ]);
}

/// A conditional branch whose operand is a label is encoded as its opcode and
/// the distance to the label as a signed byte.
#[verifier::rlimit(40)]
pub proof fn lemma_branch_is_encoded(
    tokens: Seq<TokenView>,
    resolved: Seq<TokenView>,
    i: int,
    k: int,
)
    requires
        passes_succeed(tokens, resolved),
        0 <= i < tokens.len() - 1,
        0 <= k < tokens.len(),
        tokens[i].ttype == TokenType::INSTRUCTION,
        mnemonic_of(tokens[i].text) is Some,
        mnemonic_of(tokens[i].text)->0.is_branch(),
        tokens[i + 1].ttype == TokenType::UNKNOWN,
        tokens[k].ttype == TokenType::LABEL,
        tokens[k].text == tokens[i + 1].text,
    ensures
        resolved.len() == tokens.len(),
        resolved[i] == tokens[i],
        emit(resolved, i as nat) is Ok,
        emit(resolved, k as nat) is Ok,
        opcode_of(mnemonic_of(tokens[i].text)->0, AddrMode::Relative) is Some,
        branch_byte(
            ((address_after(emit(resolved, i as nat)->Ok_0.len()) + 2) % 65536) as u16,
            address_after(emit(resolved, k as nat)->Ok_0.len()),
        ) is Some,
        instruction_bytes(resolved, i, address_after(emit(resolved, i as nat)->Ok_0.len()))
            == Some(
            seq![
                opcode_of(mnemonic_of(tokens[i].text)->0, AddrMode::Relative)->0,
                branch_byte(
                    ((address_after(emit(resolved, i as nat)->Ok_0.len()) + 2) % 65536) as u16,
                    address_after(emit(resolved, k as nat)->Ok_0.len()),
                )->0,
            ],
        ),
{
    reveal(passes_succeed);
    let n = tokens.len();
    let laid = layout(tokens, n)->Ok_0;
    lemma_resolve_fills_in(tokens, laid.symbols, n);
    assert(tokens.take(n as int) =~= tokens);
    assert(resolved[i] == tokens[i]);
    assert(resolved[i + 1].ttype == TokenType::LABEL_OPERAND);
    assert(mode_at(resolved, i) == Some(AddrMode::Relative)) by {
        reveal(mode_at);
    }
    lemma_reference_holds_address(tokens, resolved, i + 1, k);
    lemma_instruction_in_program(resolved, i);
    reveal(instruction_bytes);
    let here = address_after(emit(resolved, i as nat)->Ok_0.len());
    let target = address_after(emit(resolved, k as nat)->Ok_0.len());
    let m = mnemonic_of(tokens[i].text)->0;
    let bytes = instruction_bytes(resolved, i, here)->0;
    let operand = operand_bytes(resolved, i, AddrMode::Relative, here)->0;
    let distance = branch_byte(((here + 2) % 65536) as u16, target);
    assert(operand == seq![distance->0]);
    assert(bytes =~= seq![opcode_of(m, AddrMode::Relative)->0, distance->0]);
}

/// A machine that holds the program, with the program counter on a jump or
/// a call whose operand is a label, holds there the opcode and the address of
/// the label, high byte first.
pub proof fn lemma_jump_in_memory(
    tokens: Seq<TokenView>,
    resolved: Seq<TokenView>,
    i: int,
    k: int,
    s: Machine,
)
    requires
        passes_succeed(tokens, resolved),
        0 <= i < tokens.len() - 1,
        0 <= k < tokens.len(),
        tokens[i].ttype == TokenType::INSTRUCTION,
        mode_at(tokens, i) == Some(AddrMode::Absolute),
        tokens[i + 1].ttype == TokenType::UNKNOWN,
        tokens[k].ttype == TokenType::LABEL,
        tokens[k].text == tokens[i + 1].text,
        holds_program(s, emit(resolved, resolved.len())->Ok_0),
        s.pc == ORIGIN + emit(resolved, i as nat)->Ok_0.len(),
    ensures
        s.wf(),
        mnemonic_of(tokens[i].text) is Some,
        opcode_of(mnemonic_of(tokens[i].text)->0, AddrMode::Absolute) == Some(s.opcode()),
        s.mem[(s.pc + 1) % 65536] == address_after(emit(resolved, k as nat)->Ok_0.len()) / 256,
        s.mem[(s.pc + 2) % 65536] == address_after(emit(resolved, k as nat)->Ok_0.len()) % 256,
{
    reveal(passes_succeed);
    reveal(holds_program);
    let program = emit(resolved, resolved.len())->Ok_0;
    let m = mnemonic_of(tokens[i].text)->0;
    let start = emit(resolved, i as nat)->Ok_0.len() as int;
    let target = address_after(emit(resolved, k as nat)->Ok_0.len());
    lemma_jump_is_encoded(tokens, resolved, i, k);
    lemma_instruction_in_program(resolved, i);
    let bytes = seq![
        opcode_of(m, AddrMode::Absolute)->0,
        (target / 256) as u8,
        (target % 256) as u8,
    ];
    assert(program[start + 0] == bytes[0]);
    assert(program[start + 1] == bytes[1]);
    assert(program[start + 2] == bytes[2]);
    assert(s.mem[ORIGIN + start] == program[start]);
    assert(s.mem[ORIGIN + start + 1] == program[start + 1]);
    assert(s.mem[ORIGIN + start + 2] == program[start + 2]);
}

/// A machine that holds the program, with the program counter on a
/// conditional branch whose operand is a label, holds there the opcode and
/// the distance to the label as a signed byte.
pub proof fn lemma_branch_in_memory(
    tokens: Seq<TokenView>,
    resolved: Seq<TokenView>,
    i: int,
    k: int,
    s: Machine,
)
    requires
        passes_succeed(tokens, resolved),
        0 <= i < tokens.len() - 1,
        0 <= k < tokens.len(),
        tokens[i].ttype == TokenType::INSTRUCTION,
        mnemonic_of(tokens[i].text) is Some,
        mnemonic_of(tokens[i].text)->0.is_branch(),
        tokens[i + 1].ttype == TokenType::UNKNOWN,
        tokens[k].ttype == TokenType::LABEL,
        tokens[k].text == tokens[i + 1].text,
        holds_program(s, emit(resolved, resolved.len())->Ok_0),
        s.pc == ORIGIN + emit(resolved, i as nat)->Ok_0.len(),
    ensures
        s.wf(),
        opcode_of(mnemonic_of(tokens[i].text)->0, AddrMode::Relative) == Some(s.opcode()),
        branch_byte(
            ((s.pc + 2) % 65536) as u16,
            address_after(emit(resolved, k as nat)->Ok_0.len()),
        ) == Some(s.mem[(s.pc + 1) % 65536]),
{
    reveal(passes_succeed);
    reveal(holds_program);
    let program = emit(resolved, resolved.len())->Ok_0;
    let m = mnemonic_of(tokens[i].text)->0;
    let start = emit(resolved, i as nat)->Ok_0.len() as int;
    let here = address_after(emit(resolved, i as nat)->Ok_0.len());
    let target = address_after(emit(resolved, k as nat)->Ok_0.len());
    let next = ((here + 2) % 65536) as u16;
    lemma_branch_is_encoded(tokens, resolved, i, k);
    lemma_instruction_in_program(resolved, i);
    let bytes = seq![opcode_of(m, AddrMode::Relative)->0, branch_byte(next, target)->0];
    assert(program[start + 0] == bytes[0]);
    assert(program[start + 1] == bytes[1]);
    assert(s.mem[ORIGIN + start] == program[start]);
    assert(s.mem[ORIGIN + start + 1] == program[start + 1]);
}

/// Round trip of a jump. Where the passes succeed, and a machine holds the
/// program with the program counter on a jump or a call whose operand is a
/// label, one step puts the program counter on the first byte that was
/// encoded after the label.
pub proof fn lemma_jump_lands_on_label(
    tokens: Seq<TokenView>,
    resolved: Seq<TokenView>,
    i: int,
    k: int,
    s: Machine,
)
    requires
        passes_succeed(tokens, resolved),
        0 <= i < tokens.len() - 1,
        0 <= k < tokens.len(),
        tokens[i].ttype == TokenType::INSTRUCTION,
        mnemonic_of(tokens[i].text) == Some(Mnemonic::JMP) || mnemonic_of(tokens[i].text) == Some(
            Mnemonic::JSR,
        ),
        mode_at(tokens, i) == Some(AddrMode::Absolute),
        tokens[i + 1].ttype == TokenType::UNKNOWN,
        tokens[k].ttype == TokenType::LABEL,
        tokens[k].text == tokens[i + 1].text,
        holds_program(s, emit(resolved, resolved.len())->Ok_0),
        s.pc == ORIGIN + emit(resolved, i as nat)->Ok_0.len(),
    ensures
        s.step() is Some,
        s.step()->0.pc == address_after(emit(resolved, k as nat)->Ok_0.len()),
{
    lemma_jump_in_memory(tokens, resolved, i, k, s);
    lemma_jump_executes(
        s,
        mnemonic_of(tokens[i].text)->0,
        address_after(emit(resolved, k as nat)->Ok_0.len()),
    );
}

/// Round trip of a branch. Where the passes succeed, and a machine holds the
/// program with the program counter on a conditional branch whose operand is
/// a label, one step puts the program counter on the first byte that was
/// encoded after the label if the branch is taken, and on the instruction
/// after the branch if it is not.
pub proof fn lemma_branch_lands_on_label(
    tokens: Seq<TokenView>,
    resolved: Seq<TokenView>,
    i: int,
    k: int,
    s: Machine,
)
    requires
        passes_succeed(tokens, resolved),
        0 <= i < tokens.len() - 1,
        0 <= k < tokens.len(),
        tokens[i].ttype == TokenType::INSTRUCTION,
        mnemonic_of(tokens[i].text) is Some,
        mnemonic_of(tokens[i].text)->0.is_branch(),
        tokens[i + 1].ttype == TokenType::UNKNOWN,
        tokens[k].ttype == TokenType::LABEL,
        tokens[k].text == tokens[i + 1].text,
        holds_program(s, emit(resolved, resolved.len())->Ok_0),
        s.pc == ORIGIN + emit(resolved, i as nat)->Ok_0.len(),
    ensures
        s.step() is Some,
        s.step()->0.pc == if branch_taken(mnemonic_of(tokens[i].text)->0, s.sr) {
            address_after(emit(resolved, k as nat)->Ok_0.len())
        } else {
            ((s.pc + 2) % 65536) as u16
        },
{
    lemma_branch_in_memory(tokens, resolved, i, k, s);
    lemma_branch_executes(s, mnemonic_of(tokens[i].text)->0);
    lemma_branch_target(
        s.pc,
        s.mem[(s.pc + 1) % 65536],
        address_after(emit(resolved, k as nat)->Ok_0.len()),
    );
}

} // verus!
