//! Laws of the assembler, and of the assembler together with the engine:
//! labels are unique and defined, every label stands for the address of the
//! instruction that follows it, and what the encoder writes is what the
//! engine reads.

use vstd::prelude::*;
use crate::assembler::{
    address_after, address_at, assemble_tokens, branch_byte, classify, emit, failure, instruction_bytes,
    layout, lemma_emit_failure_stays, lemma_layout_failure_stays, lemma_resolve_failure_stays,
    lookup, operand_bytes, resolve, resolve_token, AsmErrorKind, AsmErrorView,
};
use crate::isa::{decode_spec, lemma_decode_inverts, mnemonic_of, opcode_of, AddrMode, Mnemonic};
use crate::lexer::{type_of, SymbolView, TokenType, TokenView};
use crate::machine::{signed, Machine};
use crate::mode::{mode_at, operand_at};

verus! {

/// Looking a name up after an entry was added finds the new entry if it has
/// that name, and what was found before if not.
pub proof fn lemma_lookup_push(symbols: Seq<SymbolView>, entry: SymbolView, name: Seq<char>)
    ensures
        lookup(symbols.push(entry), name) == if entry.name == name {
            Some(entry.offset)
        } else {
            lookup(symbols, name)
        },
{
    assert(symbols.push(entry).drop_last() =~= symbols);
}

/// Once the layout pass has gone past a label, the symbol table holds it,
/// with the offset that the next instruction had when the label was met.
pub proof fn lemma_layout_records(tokens: Seq<TokenView>, n: nat, i: int)
    requires
        0 <= i < n,
        layout(tokens, n) is Ok,
        tokens[i].ttype == TokenType::LABEL,
    ensures
        layout(tokens, i as nat) is Ok,
        lookup(layout(tokens, n)->Ok_0.symbols, tokens[i].text) == Some(
            layout(tokens, i as nat)->Ok_0.offset,
        ),
    decreases n,
{
    let before = layout(tokens, (n - 1) as nat)->Ok_0;
    let t = tokens[n - 1];
    if n - 1 == i {
        lemma_lookup_push(
            before.symbols,
            SymbolView { name: t.text, offset: before.offset },
            t.text,
        );
    } else {
        lemma_layout_records(tokens, (n - 1) as nat, i);
        if t.ttype == TokenType::LABEL {
            lemma_lookup_push(
                before.symbols,
                SymbolView { name: t.text, offset: before.offset },
                tokens[i].text,
            );
        }
    }
}

/// Every name in the symbol table is the name of a label that the layout
/// pass has gone past.
pub proof fn lemma_layout_holds_labels_only(tokens: Seq<TokenView>, n: nat, name: Seq<char>)
    requires
        layout(tokens, n) is Ok,
        lookup(layout(tokens, n)->Ok_0.symbols, name) is Some,
    ensures
        exists|i: int|
            0 <= i < n && (#[trigger] tokens[i]).ttype == TokenType::LABEL && tokens[i].text
                == name,
    decreases n,
{
    if n > 0 {
        let before = layout(tokens, (n - 1) as nat)->Ok_0;
        let t = tokens[n - 1];
        if t.ttype == TokenType::LABEL {
            lemma_lookup_push(
                before.symbols,
                SymbolView { name: t.text, offset: before.offset },
                name,
            );
            if t.text != name {
                lemma_layout_holds_labels_only(tokens, (n - 1) as nat, name);
            }
        } else {
            lemma_layout_holds_labels_only(tokens, (n - 1) as nat, name);
        }
    }
}

/// Label uniqueness: where two labels have the same name the layout pass
/// fails. It fails with the duplicate-label error at the second of them,
/// unless the pass has failed before it gets there.
pub proof fn lemma_duplicate_label(tokens: Seq<TokenView>, i: int, j: int)
    requires
        0 <= i < j < tokens.len(),
        tokens[i].ttype == TokenType::LABEL,
        tokens[j].ttype == TokenType::LABEL,
        tokens[i].text == tokens[j].text,
    ensures
        layout(tokens, tokens.len()) is Err,
        layout(tokens, j as nat) is Ok ==> layout(tokens, tokens.len()) == Err::<
            crate::assembler::Layout,
            AsmErrorView,
        >(failure(AsmErrorKind::DuplicateLabel, tokens[j])),
{
    if layout(tokens, j as nat) is Ok {
        lemma_layout_records(tokens, j as nat, i);
        assert(layout(tokens, (j + 1) as nat) is Err);
        lemma_layout_failure_stays(tokens, (j + 1) as nat, tokens.len());
    } else {
        lemma_layout_failure_stays(tokens, j as nat, tokens.len());
    }
}

/// A reference to a name that the symbol table does not hold makes the pass
/// that fills in addresses fail. It fails with the undefined-label error at
/// that reference, unless the pass has failed before it gets there.
pub proof fn lemma_undefined_label(tokens: Seq<TokenView>, symbols: Seq<SymbolView>, k: int)
    requires
        0 <= k < tokens.len(),
        tokens[k].ttype == TokenType::UNKNOWN,
        lookup(symbols, tokens[k].text) is None,
    ensures
        resolve(tokens, symbols, tokens.len()) is Err,
        resolve(tokens, symbols, k as nat) is Ok ==> resolve(tokens, symbols, tokens.len())
            == Err::<Seq<TokenView>, AsmErrorView>(
            failure(AsmErrorKind::UndefinedLabel, tokens[k]),
        ),
{
    if resolve(tokens, symbols, k as nat) is Ok {
        assert(resolve(tokens, symbols, (k + 1) as nat) is Err);
        lemma_resolve_failure_stays(tokens, symbols, (k + 1) as nat, tokens.len());
    } else {
        lemma_resolve_failure_stays(tokens, symbols, k as nat, tokens.len());
    }
}

/// A source in which, after classifying, two labels have the same name
/// assembles to no program.
pub proof fn lemma_duplicate_label_gives_no_program(tokens: Seq<TokenView>, i: int, j: int)
    requires
        0 <= i < j < tokens.len(),
        classify(tokens)[i].ttype == TokenType::LABEL,
        classify(tokens)[j].ttype == TokenType::LABEL,
        classify(tokens)[i].text == classify(tokens)[j].text,
    ensures
        assemble_tokens(tokens) is Err,
        layout(classify(tokens), j as nat) is Ok ==> assemble_tokens(tokens) is Err
            && assemble_tokens(tokens)->Err_0 == failure(
            AsmErrorKind::DuplicateLabel,
            classify(tokens)[j],
        ),
{
    lemma_duplicate_label(classify(tokens), i, j);
}

/// A source in which, after classifying, a name is used that no label has
/// assembles to no program. Where the layout succeeds and every earlier
/// reference is defined, the failure is the undefined-label error at that
/// reference.
pub proof fn lemma_undefined_label_gives_no_program(tokens: Seq<TokenView>, k: int)
    requires
        0 <= k < tokens.len(),
        classify(tokens)[k].ttype == TokenType::UNKNOWN,
        forall|i: int|
            0 <= i < tokens.len() && (#[trigger] classify(tokens)[i]).ttype == TokenType::LABEL
                ==> classify(tokens)[i].text != classify(tokens)[k].text,
    ensures
        assemble_tokens(tokens) is Err,
        layout(classify(tokens), tokens.len()) matches Ok(laid) ==> (resolve(
            classify(tokens),
            laid.symbols,
            k as nat,
        ) is Ok ==> assemble_tokens(tokens)->Err_0 == failure(
            AsmErrorKind::UndefinedLabel,
            classify(tokens)[k],
        )),
{
    let classified = classify(tokens);
    if let Ok(laid) = layout(classified, classified.len()) {
        if lookup(laid.symbols, classified[k].text) is Some {
            lemma_layout_holds_labels_only(classified, classified.len(), classified[k].text);
        }
        lemma_undefined_label(classified, laid.symbols, k);
    }
}

/// Whether `resolved` is `tokens` with references to labels filled in: the
/// same tokens, but that an `UNKNOWN` has become a `LABEL_OPERAND`.
pub open spec fn filled_in(tokens: Seq<TokenView>, resolved: Seq<TokenView>) -> bool {
    &&& resolved.len() == tokens.len()
    &&& forall|k: int|
        0 <= k < tokens.len() ==> if (#[trigger] tokens[k]).ttype == TokenType::UNKNOWN {
            resolved[k].ttype == TokenType::LABEL_OPERAND
        } else {
            resolved[k] == tokens[k]
        }
}

/// The pass that fills in addresses changes the references to labels and
/// nothing else.
pub proof fn lemma_resolve_fills_in(tokens: Seq<TokenView>, symbols: Seq<SymbolView>, n: nat)
    requires
        n <= tokens.len(),
        resolve(tokens, symbols, n) is Ok,
    ensures
        filled_in(tokens.take(n as int), resolve(tokens, symbols, n)->Ok_0),
        forall|k: int|
            0 <= k < n ==> resolve_token(tokens[k], symbols) == Ok::<TokenView, AsmErrorView>(
                #[trigger] resolve(tokens, symbols, n)->Ok_0[k],
            ),
    decreases n,
{
    if n > 0 {
        lemma_resolve_fills_in(tokens, symbols, (n - 1) as nat);
        let done = resolve(tokens, symbols, (n - 1) as nat)->Ok_0;
        let now = resolve(tokens, symbols, n)->Ok_0;
        assert(now == done.push(resolve_token(tokens[n - 1], symbols)->Ok_0));
        assert forall|k: int| 0 <= k < n implies if (#[trigger] tokens.take(n as int)[k]).ttype
            == TokenType::UNKNOWN {
            now[k].ttype == TokenType::LABEL_OPERAND
        } else {
            now[k] == tokens.take(n as int)[k]
        } by {
            if k < n - 1 {
                assert(tokens.take((n - 1) as int)[k] == tokens[k]);
                assert(now[k] == done[k]);
            }
        }
    }
}

/// Filling in the addresses of labels changes no addressing mode: the layout
/// pass and the encoder infer the same mode for every instruction.
pub proof fn lemma_mode_survives(tokens: Seq<TokenView>, resolved: Seq<TokenView>, i: int)
    requires
        filled_in(tokens, resolved),
        0 <= i < tokens.len(),
        tokens[i].ttype == TokenType::INSTRUCTION,
    ensures
        mode_at(resolved, i) == mode_at(tokens, i),
{
    reveal(mode_at);
    assert(resolved[i] == tokens[i]);
    assert forall|k: int| #![trigger type_of(resolved, k)] type_of(resolved, k) == (match type_of(
        tokens,
        k,
    ) {
        Some(TokenType::UNKNOWN) => Some(TokenType::LABEL_OPERAND),
        other => other,
    }) by {
        if 0 <= k < tokens.len() {
            assert(tokens[k].ttype == TokenType::UNKNOWN || resolved[k] == tokens[k]);
        }
    }
    assert forall|k: int| #![trigger operand_at(resolved, k)]
        type_of(tokens, k) != Some(TokenType::UNKNOWN) implies operand_at(resolved, k)
        == operand_at(tokens, k) by {
        if 0 <= k < tokens.len() {
            assert(resolved[k] == tokens[k]);
            if k + 1 < tokens.len() {
                assert(tokens[k + 1].ttype == TokenType::UNKNOWN || resolved[k + 1] == tokens[k
                    + 1]);
            }
        }
    }
}

/// The operand bytes of an instruction are as many as its mode takes.
pub proof fn lemma_operand_bytes_len(tokens: Seq<TokenView>, i: int, mode: AddrMode, address: u16)
    requires
        operand_bytes(tokens, i, mode, address) is Some,
    ensures
        operand_bytes(tokens, i, mode, address)->0.len() == mode.operand_len(),
{
}

/// The bytes of an instruction are one opcode byte and as many operand bytes
/// as its mode takes.
pub proof fn lemma_instruction_len(tokens: Seq<TokenView>, i: int, address: u16)
    requires
        instruction_bytes(tokens, i, address) is Some,
    ensures
        mode_at(tokens, i) is Some,
        instruction_bytes(tokens, i, address)->0.len() == 1 + mode_at(tokens, i)->0.operand_len(),
{
    reveal(instruction_bytes);
    lemma_operand_bytes_len(tokens, i, mode_at(tokens, i)->0, address);
}

/// The layout pass and the encoder agree on where every token stands: the
/// offset that the layout pass counts is the number of bytes that the
/// encoder has written, modulo 65536.
pub proof fn lemma_layout_matches_emit(tokens: Seq<TokenView>, resolved: Seq<TokenView>, n: nat)
    requires
        filled_in(tokens, resolved),
        n <= tokens.len(),
        layout(tokens, n) is Ok,
        emit(resolved, n) is Ok,
    ensures
        layout(tokens, n)->Ok_0.offset == emit(resolved, n)->Ok_0.len() % 65536,
    decreases n,
{
    if n > 0 {
        lemma_layout_matches_emit(tokens, resolved, (n - 1) as nat);
        let t = tokens[n - 1];
        if t.ttype == TokenType::INSTRUCTION {
            assert(resolved[n - 1] == t);
            lemma_mode_survives(tokens, resolved, n - 1);
            let bytes = emit(resolved, (n - 1) as nat)->Ok_0;
            lemma_instruction_len(resolved, n - 1, address_after(bytes.len()));
        } else {
            assert(resolved[n - 1].ttype != TokenType::INSTRUCTION);
        }
    }
}

/// Whether the passes after classifying succeed on the classified tokens
/// `tokens` and leave them as `resolved`: the layout finds the labels, the
/// references are filled in, and every instruction can be encoded.
#[verifier::opaque]
pub open spec fn passes_succeed(tokens: Seq<TokenView>, resolved: Seq<TokenView>) -> bool {
    &&& layout(tokens, tokens.len()) is Ok
    &&& resolve(tokens, layout(tokens, tokens.len())->Ok_0.symbols, tokens.len()) == Ok::<
        Seq<TokenView>,
        AsmErrorView,
    >(resolved)
    &&& emit(resolved, resolved.len()) is Ok
}

/// Where assembling succeeds, the passes after classifying succeed, and the
/// assembly holds what they yield.
pub proof fn lemma_assembly_parts(tokens: Seq<TokenView>)
    requires
        assemble_tokens(tokens) is Ok,
    ensures
        passes_succeed(classify(tokens), assemble_tokens(tokens)->Ok_0.tokens),
        assemble_tokens(tokens)->Ok_0.symbols == layout(
            classify(tokens),
            tokens.len(),
        )->Ok_0.symbols,
        emit(assemble_tokens(tokens)->Ok_0.tokens, tokens.len()) == Ok::<Seq<u8>, AsmErrorView>(
            assemble_tokens(tokens)->Ok_0.bytes,
        ),
        assemble_tokens(tokens)->Ok_0.tokens.len() == tokens.len(),
{
    reveal(passes_succeed);
    let classified = classify(tokens);
    let laid = layout(classified, classified.len())->Ok_0;
    lemma_resolve_fills_in(classified, laid.symbols, classified.len());
}

/// The address of an offset that was counted modulo 65536 is the address
/// after as many bytes.
pub proof fn lemma_address_of_offset(len: nat)
    ensures
        address_at((len % 65536) as u16) == address_after(len),
{
}

/// Every label stands for the byte that the encoder writes next at the place
/// of the label: in a program that is loaded at the origin, the address of
/// the label is that of the first byte of the first instruction after it.
pub proof fn lemma_label_address(tokens: Seq<TokenView>, resolved: Seq<TokenView>, i: int)
    requires
        passes_succeed(tokens, resolved),
        0 <= i < tokens.len(),
        tokens[i].ttype == TokenType::LABEL,
    ensures
        emit(resolved, i as nat) is Ok,
        lookup(layout(tokens, tokens.len())->Ok_0.symbols, tokens[i].text) is Some,
        address_at(lookup(layout(tokens, tokens.len())->Ok_0.symbols, tokens[i].text)->0)
            == address_after(emit(resolved, i as nat)->Ok_0.len()),
{
    reveal(passes_succeed);
    let n = tokens.len();
    let laid = layout(tokens, n)->Ok_0;
    lemma_resolve_fills_in(tokens, laid.symbols, n);
    assert(tokens.take(n as int) =~= tokens);
    lemma_layout_records(tokens, n, i);
    if emit(resolved, i as nat) is Err {
        lemma_emit_failure_stays(resolved, i as nat, n);
    }
    lemma_layout_matches_emit(tokens, resolved, i as nat);
    lemma_address_of_offset(emit(resolved, i as nat)->Ok_0.len());
}

/// A branch whose operand byte the encoder computed for a target goes to that
/// target.
pub proof fn lemma_branch_lands(next: u16, target: u16)
    requires
        branch_byte(next, target) is Some,
    ensures
        (next + signed(branch_byte(next, target)->0)) % 65536 == target as int,
{
}

/// A machine that holds the bytes of an encoded branch to a label, with the
/// program counter on the operand, resolves the branch to the address of the
/// label.
pub proof fn lemma_branch_round_trip(s: Machine, target: u16)
    requires
        s.wf(),
        branch_byte(((s.pc + 1) % 65536) as u16, target) == Some(s.operand8()),
    ensures
        s.effective_address(AddrMode::Relative) == target,
{
    lemma_branch_lands(((s.pc + 1) % 65536) as u16, target);
}

/// A machine that holds the two operand bytes that the encoder writes for an
/// address, with the program counter on the first of them, reads that address
/// back: a jump to a label lands on the label.
pub proof fn lemma_address_round_trip(s: Machine, address: u16)
    requires
        s.wf(),
        s.mem[s.pc as int] == address / 256,
        s.mem[(s.pc + 1) % 65536] == address % 256,
    ensures
        s.operand16() == address,
        s.execute(Mnemonic::JMP, AddrMode::Absolute).pc == address,
        s.execute(Mnemonic::JSR, AddrMode::Absolute).pc == address,
{
}

/// Encoding and decoding are symmetric. Where the encoder writes the bytes
/// of an instruction, they are one opcode byte and as many operand bytes as
/// the mode takes; the engine decodes the opcode to the same mnemonic and
/// mode, resolves the operand by the rule of that mode, and passes over
/// exactly the bytes that were written.
pub proof fn lemma_encoding_symmetry(tokens: Seq<TokenView>, i: int, address: u16, s: Machine)
    requires
        instruction_bytes(tokens, i, address) is Some,
        s.wf(),
        s.opcode() == instruction_bytes(tokens, i, address)->0[0],
    ensures
        mnemonic_of(tokens[i].text) is Some,
        mode_at(tokens, i) is Some,
        instruction_bytes(tokens, i, address)->0.len() == 1 + mode_at(tokens, i)->0.operand_len(),
        decode_spec(s.opcode()) == Some((mnemonic_of(tokens[i].text)->0, mode_at(tokens, i)->0)),
        s.step() == Some(
            s.advance(1).execute(mnemonic_of(tokens[i].text)->0, mode_at(tokens, i)->0),
        ),
        s.advance(1).skip_operand(mode_at(tokens, i)->0) == s.advance(
            instruction_bytes(tokens, i, address)->0.len() as int,
        ),
{
    reveal(instruction_bytes);
    let m = mnemonic_of(tokens[i].text)->0;
    let mode = mode_at(tokens, i)->0;
    let op = opcode_of(m, mode)->0;
    lemma_operand_bytes_len(tokens, i, mode, address);
    lemma_decode_inverts(m, mode, op);
}

/// Every pairing in the opcode table decodes to itself, and the engine passes
/// over as many operand bytes as the mode of the pairing takes.
pub proof fn lemma_table_symmetry(m: Mnemonic, mode: AddrMode, s: Machine)
    requires
        s.wf(),
        opcode_of(m, mode) == Some(s.opcode()),
    ensures
        s.step() == Some(s.advance(1).execute(m, mode)),
        s.advance(1).skip_operand(mode).pc == (s.pc + 1 + mode.operand_len()) % 65536,
{
    lemma_decode_inverts(m, mode, s.opcode());
}

} // verus!
