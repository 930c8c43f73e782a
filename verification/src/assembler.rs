//! The passes of the assembler over the tokens: classifying, laying the
//! program out to find the offset of each label, filling in the addresses
//! that the labels stand for once the program is loaded at the origin, and
//! encoding the instructions.
//!
//! Each pass is specified as a function on tokens as plain values, and the
//! executable pass is proved to compute it. A pass that fails changes
//! nothing: there is a whole program or none.

use vstd::prelude::*;
use crate::isa::{encode, mnemonic_of, opcode_of, AddrMode, Mnemonic, Mode};
use crate::lexer::{
    lex, names_unique, scan_source, symbol_views, token_at, token_views, type_of, Lexer,
    LexerView, Symbol, SymbolView, Token, TokenType, TokenView,
};
use crate::machine::ORIGIN;
use crate::mode::{infer_mode, mode_at, operand_at, operand_index, read_operand, type_ahead};
use crate::numeral::{hex_string, hex_text, is_hex, is_hex_text, number_value, parse_number};

verus! {

/// The kinds of failure of the assembler.
#[derive(Clone, Copy, Debug, PartialEq, Eq, Structural)]
pub enum AsmErrorKind {
    /// The operand of an instruction fits no addressing mode, or none that
    /// the mnemonic supports, or does not fit the mode's operand bytes.
    UnknownMode,
    /// A label is defined a second time.
    DuplicateLabel,
    /// A name is used that no label defines.
    UndefinedLabel,
}

/// A failure of the assembler: its kind, the mnemonic or the label it is
/// about, and the line of the source.
#[derive(Debug)]
pub struct AsmError {
    pub kind: AsmErrorKind,
    pub text: String,
    pub line_no: u32,
}

/// A failure of the assembler as plain values.
pub struct AsmErrorView {
    pub kind: AsmErrorKind,
    pub text: Seq<char>,
    pub line_no: u32,
}

impl View for AsmError {
    type V = AsmErrorView;

    open spec fn view(&self) -> AsmErrorView {
        AsmErrorView { kind: self.kind, text: self.text@, line_no: self.line_no }
    }
}

/// The failure of `kind` at the token `t`.
pub open spec fn failure(kind: AsmErrorKind, t: TokenView) -> AsmErrorView {
    AsmErrorView { kind, text: t.text, line_no: t.line_no }
}

/// The failure of `kind` at the token `t`.
fn fail(kind: AsmErrorKind, t: &Token) -> (e: AsmError)
    ensures
        e@ == failure(kind, t@),
{
    AsmError { kind, text: t.tstring.clone(), line_no: t.line_no }
}

/// A copy of a token.
fn copy_token(t: &Token) -> (r: Token)
    ensures
        r@ == t@,
{
    Token { ttype: t.ttype, tstring: t.tstring.clone(), line_no: t.line_no }
}

/// A token with another class and the same text.
fn retype_token(t: &Token, ttype: TokenType) -> (r: Token)
    ensures
        r@ == (TokenView { ttype, ..t@ }),
{
    Token { ttype, tstring: t.tstring.clone(), line_no: t.line_no }
}

/// What the classifying pass makes of a token. An `UNKNOWN` that spells a
/// mnemonic becomes an `INSTRUCTION` with its text in upper case; else one
/// that a colon follows becomes a `LABEL`; else one made of hexadecimal
/// digits becomes a `NUMBER`; any other stays `UNKNOWN`, a reference to a
/// label. A token of another class is left alone.
pub open spec fn classify_token(t: TokenView, before_colon: bool) -> TokenView {
    if t.ttype != TokenType::UNKNOWN {
        t
    } else {
        match mnemonic_of(t.text) {
            Some(m) => TokenView { ttype: TokenType::INSTRUCTION, text: m.text(), ..t },
            None => if before_colon {
                TokenView { ttype: TokenType::LABEL, ..t }
            } else if is_hex_text(t.text) {
                TokenView { ttype: TokenType::NUMBER, ..t }
            } else {
                t
            },
        }
    }
}

/// The tokens after the classifying pass.
pub open spec fn classify(tokens: Seq<TokenView>) -> Seq<TokenView> {
    Seq::new(
        tokens.len(),
        |i: int| classify_token(tokens[i], type_of(tokens, i + 1) == Some(TokenType::COLON)),
    )
}

/// The offset in a symbol table of `name`, if the table holds it.
pub open spec fn lookup(symbols: Seq<SymbolView>, name: Seq<char>) -> Option<u16>
    decreases symbols.len(),
{
    if symbols.len() == 0 {
        None
    } else if symbols.last().name == name {
        Some(symbols.last().offset)
    } else {
        lookup(symbols.drop_last(), name)
    }
}

/// The address of the byte that follows `len` bytes of program, which is
/// loaded at the origin. Addresses wrap round at 65536.
pub open spec fn address_after(len: nat) -> u16 {
    ((ORIGIN + len) % 65536) as u16
}

/// The address that a byte offset into the program stands for once the
/// program is loaded at the origin.
pub open spec fn address_at(offset: u16) -> u16 {
    ((ORIGIN + offset) % 65536) as u16
}

/// What the layout pass knows after a prefix of the tokens: the byte offset
/// of the next instruction, and the labels defined so far.
pub struct Layout {
    pub offset: u16,
    pub symbols: Seq<SymbolView>,
}

/// The layout after the first `n` tokens. The offset starts at 0. A label
/// takes the offset of the next instruction; an instruction takes one byte
/// and the operand bytes of its mode. A label defined before is a failure,
/// and so is an instruction whose operand fits no mode.
pub open spec fn layout(tokens: Seq<TokenView>, n: nat) -> Result<Layout, AsmErrorView>
    decreases n,
{
    if n == 0 {
        Ok(Layout { offset: 0, symbols: Seq::empty() })
    } else {
        match layout(tokens, (n - 1) as nat) {
            Err(e) => Err(e),
            Ok(before) => {
                let t = tokens[n - 1];
                if t.ttype == TokenType::LABEL {
                    if lookup(before.symbols, t.text) is Some {
                        Err(failure(AsmErrorKind::DuplicateLabel, t))
                    } else {
                        Ok(
                            Layout {
                                symbols: before.symbols.push(
                                    SymbolView { name: t.text, offset: before.offset },
                                ),
                                ..before
                            },
                        )
                    }
                } else if t.ttype == TokenType::INSTRUCTION {
                    match mode_at(tokens, n - 1) {
                        Some(mode) => Ok(
                            Layout {
                                offset: ((before.offset + 1 + mode.operand_len()) % 65536) as u16,
                                ..before
                            },
                        ),
                        None => Err(failure(AsmErrorKind::UnknownMode, t)),
                    }
                } else {
                    Ok(before)
                }
            },
        }
    }
}

/// What the pass that fills in addresses makes of a token: an `UNKNOWN`
/// becomes a `LABEL_OPERAND` that holds, in hexadecimal, the address that
/// the offset of the label stands for, and fails if no label of that name is
/// defined.
pub open spec fn resolve_token(t: TokenView, symbols: Seq<SymbolView>) -> Result<
    TokenView,
    AsmErrorView,
> {
    if t.ttype == TokenType::UNKNOWN {
        match lookup(symbols, t.text) {
            Some(offset) => Ok(
                TokenView {
                    ttype: TokenType::LABEL_OPERAND,
                    text: hex_text(address_at(offset)),
                    ..t
                },
            ),
            None => Err(failure(AsmErrorKind::UndefinedLabel, t)),
        }
    } else {
        Ok(t)
    }
}

/// The first `n` tokens with the addresses filled in, or the first failure
/// among them.
pub open spec fn resolve(tokens: Seq<TokenView>, symbols: Seq<SymbolView>, n: nat) -> Result<
    Seq<TokenView>,
    AsmErrorView,
>
    decreases n,
{
    if n == 0 {
        Ok(Seq::empty())
    } else {
        match resolve(tokens, symbols, (n - 1) as nat) {
            Err(e) => Err(e),
            Ok(done) => match resolve_token(tokens[n - 1], symbols) {
                Ok(t) => Ok(done.push(t)),
                Err(e) => Err(e),
            },
        }
    }
}

/// The operand byte of a branch that stands just before `next` and goes to
/// `target`: their distance as a signed byte, if it is within -128..=127.
pub open spec fn branch_byte(next: u16, target: u16) -> Option<u8> {
    let distance = (target - next) % 65536;
    if distance < 128 {
        Some(distance as u8)
    } else if distance >= 65536 - 128 {
        Some((distance - 65280) as u8)
    } else {
        None
    }
}

/// The operand bytes of the instruction at token `i` in `mode`, its opcode
/// standing at `address`. One byte for the short modes, two bytes, high then
/// low, for the long ones. A branch to a label takes the distance to it.
/// `None` where there is no operand to read or it does not fit.
pub open spec fn operand_bytes(tokens: Seq<TokenView>, i: int, mode: AddrMode, address: u16)
    -> Option<Seq<u8>> {
    if mode.operand_len() == 0 {
        Some(Seq::empty())
    } else {
        match operand_at(tokens, operand_index(mode, i)) {
            None => None,
            Some(operand) => {
                if mode == AddrMode::Relative && operand.label {
                    match branch_byte(((address + 2) % 65536) as u16, operand.value) {
                        Some(b) => Some(seq![b]),
                        None => None,
                    }
                } else if mode.operand_len() == 1 {
                    if operand.value < 256 {
                        Some(seq![operand.value as u8])
                    } else {
                        None
                    }
                } else {
                    Some(seq![(operand.value / 256) as u8, (operand.value % 256) as u8])
                }
            },
        }
    }
}

/// The bytes of the instruction at token `i`, its opcode standing at
/// `address`: the opcode of the mnemonic in the inferred mode, then the
/// operand bytes. `None` where no mode fits, the mnemonic does not support
/// the mode, or the operand does not fit.
#[verifier::opaque]
pub open spec fn instruction_bytes(tokens: Seq<TokenView>, i: int, address: u16) -> Option<
    Seq<u8>,
> {
    match (mnemonic_of(tokens[i].text), mode_at(tokens, i)) {
        (Some(m), Some(mode)) => match (
            opcode_of(m, mode),
            operand_bytes(tokens, i, mode, address),
        ) {
            (Some(op), Some(bytes)) => Some(seq![op] + bytes),
            _ => None,
        },
        _ => None,
    }
}

/// The program that the first `n` tokens encode, or the first failure among
/// them.
pub open spec fn emit(tokens: Seq<TokenView>, n: nat) -> Result<Seq<u8>, AsmErrorView>
    decreases n,
{
    if n == 0 {
        Ok(Seq::empty())
    } else {
        match emit(tokens, (n - 1) as nat) {
            Err(e) => Err(e),
            Ok(bytes) => {
                let t = tokens[n - 1];
                if t.ttype == TokenType::INSTRUCTION {
                    match instruction_bytes(tokens, n - 1, address_after(bytes.len())) {
                        Some(more) => Ok(bytes + more),
                        None => Err(failure(AsmErrorKind::UnknownMode, t)),
                    }
                } else {
                    Ok(bytes)
                }
            },
        }
    }
}

/// What assembling yields: the tokens with classes and addresses settled, the
/// symbol table, and the program.
pub struct Assembly {
    pub tokens: Seq<TokenView>,
    pub symbols: Seq<SymbolView>,
    pub bytes: Seq<u8>,
}

/// The outcome of the four passes on a sequence of tokens.
pub open spec fn assemble_tokens(tokens: Seq<TokenView>) -> Result<Assembly, AsmErrorView> {
    let classified = classify(tokens);
    match layout(classified, classified.len()) {
        Err(e) => Err(e),
        Ok(laid) => match resolve(classified, laid.symbols, classified.len()) {
            Err(e) => Err(e),
            Ok(resolved) => match emit(resolved, resolved.len()) {
                Err(e) => Err(e),
                Ok(bytes) => Ok(Assembly { tokens: resolved, symbols: laid.symbols, bytes }),
            },
        },
    }
}

/// The program that a source text assembles to.
pub open spec fn assemble_source(source: Seq<char>) -> Result<Seq<u8>, AsmErrorView> {
    match assemble_tokens(lex(source)) {
        Ok(assembly) => Ok(assembly.bytes),
        Err(e) => Err(e),
    }
}

/// A name that is looked up in vain is the name of no entry.
pub proof fn lemma_lookup_none(symbols: Seq<SymbolView>, name: Seq<char>)
    requires
        lookup(symbols, name) is None,
    ensures
        forall|i: int| 0 <= i < symbols.len() ==> (#[trigger] symbols[i]).name != name,
    decreases symbols.len(),
{
    if symbols.len() > 0 {
        lemma_lookup_none(symbols.drop_last(), name);
        assert forall|i: int| 0 <= i < symbols.len() implies (#[trigger] symbols[i]).name
            != name by {
            if i < symbols.len() - 1 {
                assert(symbols.drop_last()[i] == symbols[i]);
            }
        }
    }
}

/// The symbol table that the layout pass builds holds no name twice.
pub proof fn lemma_layout_names_unique(tokens: Seq<TokenView>, n: nat)
    requires
        layout(tokens, n) is Ok,
    ensures
        names_unique(layout(tokens, n)->Ok_0.symbols),
    decreases n,
{
    if n > 0 {
        lemma_layout_names_unique(tokens, (n - 1) as nat);
        let before = layout(tokens, (n - 1) as nat)->Ok_0;
        if tokens[n - 1].ttype == TokenType::LABEL {
            lemma_lookup_none(before.symbols, tokens[n - 1].text);
        }
    }
}

/// A failure of the layout pass stays the outcome however many tokens follow.
pub proof fn lemma_layout_failure_stays(tokens: Seq<TokenView>, n: nat, m: nat)
    requires
        n <= m,
        layout(tokens, n) is Err,
    ensures
        layout(tokens, m) == layout(tokens, n),
    decreases m,
{
    if n < m {
        lemma_layout_failure_stays(tokens, n, (m - 1) as nat);
    }
}

/// A failure to fill in an address stays the outcome however many tokens
/// follow.
pub proof fn lemma_resolve_failure_stays(
    tokens: Seq<TokenView>,
    symbols: Seq<SymbolView>,
    n: nat,
    m: nat,
)
    requires
        n <= m,
        resolve(tokens, symbols, n) is Err,
    ensures
        resolve(tokens, symbols, m) == resolve(tokens, symbols, n),
    decreases m,
{
    if n < m {
        lemma_resolve_failure_stays(tokens, symbols, n, (m - 1) as nat);
    }
}

/// A failure to encode stays the outcome however many tokens follow.
pub proof fn lemma_emit_failure_stays(tokens: Seq<TokenView>, n: nat, m: nat)
    requires
        n <= m,
        emit(tokens, n) is Err,
    ensures
        emit(tokens, m) == emit(tokens, n),
    decreases m,
{
    if n < m {
        lemma_emit_failure_stays(tokens, n, (m - 1) as nat);
    }
}

/// Classifies one token.
fn classify_one(t: &Token, before_colon: bool) -> (r: Token)
    ensures
        r@ == classify_token(t@, before_colon),
{
    if t.ttype == TokenType::UNKNOWN {
        match Mnemonic::from_text(t.tstring.as_str()) {
            Some(m) => Token {
                ttype: TokenType::INSTRUCTION,
                tstring: String::from_str(m.name()),
                line_no: t.line_no,
            },
            None => if before_colon {
                retype_token(t, TokenType::LABEL)
            } else if is_hex(t.tstring.as_str()) {
                retype_token(t, TokenType::NUMBER)
            } else {
                copy_token(t)
            },
        }
    } else {
        copy_token(t)
    }
}

/// The first pass: settles the class of every `UNKNOWN` token that is a
/// mnemonic, the definition of a label, or a number.
pub fn classify_tokens(tokens: &Vec<Token>) -> (out: Vec<Token>)
    ensures
        token_views(out@) == classify(token_views(tokens@)),
{
    let n = tokens.len();
    let ghost views = token_views(tokens@);
    let mut out: Vec<Token> = Vec::new();
    let mut i: usize = 0;
    while i < n
        invariant
            n == tokens.len(),
            views == token_views(tokens@),
            i <= n,
            out.len() == i,
            forall|j: int|
                0 <= j < i ==> (#[trigger] out@[j])@ == classify_token(
                    views[j],
                    type_of(views, j + 1) == Some(TokenType::COLON),
                ),
        decreases n - i,
    {
        let before_colon = match type_ahead(tokens, i, 1) {
            Some(TokenType::COLON) => true,
            _ => false,
        };
        let t = classify_one(&tokens[i], before_colon);
        out.push(t);
        i += 1;
    }
    assert(token_views(out@) =~= classify(views));
    out
}

/// Looks a name up in a symbol table.
pub fn find_symbol(symbols: &Vec<Symbol>, name: &String) -> (r: Option<u16>)
    ensures
        r == lookup(symbol_views(symbols@), name@),
{
    let ghost views = symbol_views(symbols@);
    let mut i: usize = symbols.len();
    assert(views.take(i as int) =~= views);
    while i > 0
        invariant
            views == symbol_views(symbols@),
            i <= symbols.len(),
            lookup(views, name@) == lookup(views.take(i as int), name@),
        decreases i,
    {
        assert(views.take(i as int).drop_last() =~= views.take(i - 1));
        assert(views.take(i as int).last() == symbols@[i - 1]@);
        i -= 1;
        if symbols[i].name == *name {
            return Some(symbols[i].offset);
        }
    }
    None
}

/// The second pass: walks the tokens, keeps count of the byte offset of the
/// next instruction, and records each label with the offset it stands at.
pub fn layout_labels(tokens: &Vec<Token>) -> (r: Result<Vec<Symbol>, AsmError>)
    ensures
        match layout(token_views(tokens@), tokens@.len()) {
            Ok(laid) => r matches Ok(symbols) && symbol_views(symbols@) == laid.symbols,
            Err(e) => r matches Err(err) && err@ == e,
        },
        r matches Ok(symbols) ==> names_unique(symbol_views(symbols@)),
{
    let n = tokens.len();
    let ghost views = token_views(tokens@);
    let mut symbols: Vec<Symbol> = Vec::new();
    let mut offset: u16 = 0;
    let mut i: usize = 0;
    assert(symbol_views(symbols@) =~= Seq::empty());
    while i < n
        invariant
            n == tokens.len(),
            views == token_views(tokens@),
            i <= n,
            layout(views, i as nat) == Ok::<Layout, AsmErrorView>(
                Layout { offset, symbols: symbol_views(symbols@) },
            ),
        decreases n - i,
    {
        let t = &tokens[i];
        assert(views[i as int] == t@);
        if t.ttype == TokenType::LABEL {
            if find_symbol(&symbols, &t.tstring).is_some() {
                proof {
                    lemma_layout_failure_stays(views, (i + 1) as nat, n as nat);
                }
                return Err(fail(AsmErrorKind::DuplicateLabel, t));
            }
            let ghost before = symbol_views(symbols@);
            symbols.push(Symbol { name: t.tstring.clone(), offset });
            assert(symbol_views(symbols@) =~= before.push(
                SymbolView { name: t@.text, offset },
            ));
        } else if t.ttype == TokenType::INSTRUCTION {
            match infer_mode(tokens, i) {
                Some(mode) => {
                    offset = offset.wrapping_add(1 + (mode.operand_len() as u16));
                },
                None => {
                    proof {
                        lemma_layout_failure_stays(views, (i + 1) as nat, n as nat);
                    }
                    return Err(fail(AsmErrorKind::UnknownMode, t));
                },
            }
        }
        i += 1;
    }
    proof {
        lemma_layout_names_unique(views, n as nat);
    }
    Ok(symbols)
}

/// The address that a byte offset into the program stands for once the
/// program is loaded at the origin.
pub fn address_of_offset(offset: u16) -> (address: u16)
    ensures
        address == address_at(offset),
{
    ORIGIN.wrapping_add(offset)
}

/// The third pass: replaces every reference to a label by the address of the
/// label, written in hexadecimal.
pub fn resolve_labels(tokens: &Vec<Token>, symbols: &Vec<Symbol>) -> (r: Result<
    Vec<Token>,
    AsmError,
>)
    ensures
        match resolve(token_views(tokens@), symbol_views(symbols@), tokens@.len()) {
            Ok(resolved) => r matches Ok(out) && token_views(out@) == resolved,
            Err(e) => r matches Err(err) && err@ == e,
        },
{
    let n = tokens.len();
    let ghost views = token_views(tokens@);
    let ghost table = symbol_views(symbols@);
    let mut out: Vec<Token> = Vec::new();
    let mut i: usize = 0;
    assert(token_views(out@) =~= Seq::empty());
    while i < n
        invariant
            n == tokens.len(),
            views == token_views(tokens@),
            table == symbol_views(symbols@),
            i <= n,
            resolve(views, table, i as nat) == Ok::<Seq<TokenView>, AsmErrorView>(
                token_views(out@),
            ),
        decreases n - i,
    {
        let t = &tokens[i];
        assert(views[i as int] == t@);
        let ghost before = token_views(out@);
        if t.ttype == TokenType::UNKNOWN {
            match find_symbol(symbols, &t.tstring) {
                Some(offset) => {
                    out.push(
                        Token {
                            ttype: TokenType::LABEL_OPERAND,
                            tstring: hex_string(address_of_offset(offset)),
                            line_no: t.line_no,
                        },
                    );
                },
                None => {
                    proof {
                        lemma_resolve_failure_stays(views, table, (i + 1) as nat, n as nat);
                    }
                    return Err(fail(AsmErrorKind::UndefinedLabel, t));
                },
            }
        } else {
            out.push(copy_token(t));
        }
        assert(token_views(out@) =~= before.push(resolve_token(t@, table)->Ok_0));
        i += 1;
    }
    Ok(out)
}

/// The operand byte of a branch that stands just before `next` and goes to
/// `target`.
pub fn branch_operand(next: u16, target: u16) -> (r: Option<u8>)
    ensures
        r == branch_byte(next, target),
{
    let distance = target.wrapping_sub(next);
    if distance < 128 {
        Some(distance as u8)
    } else if distance >= 65408 {
        Some((distance - 65280) as u8)
    } else {
        None
    }
}

/// Appends the operand bytes of the instruction at token `i` to `out`, or
/// leaves `out` alone and returns `false` where the operand does not fit.
fn encode_operand(tokens: &Vec<Token>, i: usize, mode: AddrMode, address: u16, out: &mut Vec<u8>)
    -> (done: bool)
    requires
        i < tokens.len(),
    ensures
        match operand_bytes(token_views(tokens@), i as int, mode, address) {
            Some(bytes) => done && final(out)@ == old(out)@ + bytes,
            None => !done && final(out)@ == old(out)@,
        },
{
    let len = mode.operand_len();
    if len == 0 {
        assert(out@ =~= out@ + Seq::<u8>::empty());
        return true;
    }
    let start = match mode {
        AddrMode::Immediate | AddrMode::Indirect | AddrMode::IndirectX | AddrMode::IndirectY => 2,
        _ => 1,
    };
    let operand = match i.checked_add(start) {
        Some(j) => read_operand(tokens, j),
        None => None,
    };
    match operand {
        None => false,
        Some(operand) => {
            let relative = match mode {
                AddrMode::Relative => true,
                _ => false,
            };
            if relative && operand.label {
                match branch_operand(address.wrapping_add(2), operand.value) {
                    Some(b) => {
                        out.push(b);
                        assert(out@ =~= old(out)@ + seq![b]);
                        true
                    },
                    None => false,
                }
            } else if len == 1 {
                if operand.value < 256 {
                    out.push(operand.value as u8);
                    assert(out@ =~= old(out)@ + seq![operand.value as u8]);
                    true
                } else {
                    false
                }
            } else {
                out.push((operand.value / 256) as u8);
                out.push((operand.value % 256) as u8);
                assert(out@ =~= old(out)@ + seq![
                    (operand.value / 256) as u8,
                    (operand.value % 256) as u8,
                ]);
                true
            }
        },
    }
}

/// Appends the bytes of the instruction at token `i` to `out`, or leaves
/// `out` alone and returns `false` where the instruction cannot be encoded.
pub fn encode_instruction(tokens: &Vec<Token>, i: usize, address: u16, out: &mut Vec<u8>) -> (done:
    bool)
    requires
        i < tokens.len(),
    ensures
        match instruction_bytes(token_views(tokens@), i as int, address) {
            Some(bytes) => done && final(out)@ == old(out)@ + bytes,
            None => !done && final(out)@ == old(out)@,
        },
{
    proof {
        reveal(instruction_bytes);
    }
    let mnemonic = Mnemonic::from_text(tokens[i].tstring.as_str());
    let mode = infer_mode(tokens, i);
    match (mnemonic, mode) {
        (Some(m), Some(mode)) => match encode(m, mode) {
            Some(op) => {
                let mut operand: Vec<u8> = Vec::new();
                if encode_operand(tokens, i, mode, address, &mut operand) {
                    let ghost bytes = operand@;
                    out.push(op);
                    out.append(&mut operand);
                    assert(out@ =~= old(out)@ + (seq![op] + bytes));
                    true
                } else {
                    false
                }
            },
            None => false,
        },
        _ => false,
    }
}

/// The fourth pass: encodes every instruction as its opcode and operand
/// bytes.
pub fn encode_tokens(tokens: &Vec<Token>) -> (r: Result<Vec<u8>, AsmError>)
    ensures
        match emit(token_views(tokens@), tokens@.len()) {
            Ok(bytes) => r matches Ok(out) && out@ == bytes,
            Err(e) => r matches Err(err) && err@ == e,
        },
{
    let n = tokens.len();
    let ghost views = token_views(tokens@);
    let mut out: Vec<u8> = Vec::new();
    let mut address: u16 = ORIGIN;
    let mut i: usize = 0;
    while i < n
        invariant
            n == tokens.len(),
            views == token_views(tokens@),
            i <= n,
            emit(views, i as nat) == Ok::<Seq<u8>, AsmErrorView>(out@),
            address == address_after(out@.len()),
        decreases n - i,
    {
        let t = &tokens[i];
        assert(views[i as int] == t@);
        if t.ttype == TokenType::INSTRUCTION {
            if !encode_instruction(tokens, i, address, &mut out) {
                proof {
                    lemma_emit_failure_stays(views, (i + 1) as nat, n as nat);
                }
                return Err(fail(AsmErrorKind::UnknownMode, t));
            }
            address = address_of(out.len());
        }
        i += 1;
    }
    Ok(out)
}

/// The address of the byte that follows `len` bytes of program.
pub fn address_of(len: usize) -> (address: u16)
    ensures
        address == address_after(len as nat),
{
    (((len % 65536) as u32 + ORIGIN as u32) % 65536) as u16
}

/// The numeric code of an inferred mode; `Mode::UNKNOWN` where none fits.
pub open spec fn mode_code(mode: Option<AddrMode>) -> u32 {
    match mode {
        Some(mode) => mode.code(),
        None => Mode::UNKNOWN,
    }
}

/// The text that an operand is read from, and the radix it is read in, for
/// the operand that starts at token `j`: after `$` the text of the next token
/// in radix 16, after `%` the text of the next token in radix 2, for a
/// `LABEL_OPERAND` its own text in radix 16, for a token of any other class
/// its own text in radix 10. `None` where there is no token `j`, or none
/// after a `$` or a `%`.
pub open spec fn operand_text(tokens: Seq<TokenView>, j: int) -> Option<(Seq<char>, int)> {
    match type_of(tokens, j) {
        None => None,
        Some(TokenType::DOLLAR) => if type_of(tokens, j + 1) is Some {
            Some((tokens[j + 1].text, 16int))
        } else {
            None
        },
        Some(TokenType::PERCENT) => if type_of(tokens, j + 1) is Some {
            Some((tokens[j + 1].text, 2int))
        } else {
            None
        },
        Some(TokenType::LABEL_OPERAND) => Some((tokens[j].text, 16int)),
        Some(_) => Some((tokens[j].text, 10int)),
    }
}

/// The number that the operand at token `j` denotes: the text chosen by
/// [`operand_text`], whatever the class of its token, read as a number in the
/// radix chosen with it. `None` where no text is chosen or it is no number up
/// to 0xFFFF.
pub open spec fn operand_value(tokens: Seq<TokenView>, j: int) -> Option<u16> {
    match operand_text(tokens, j) {
        Some((text, radix)) => number_value(text, radix),
        None => None,
    }
}

/// The number that the operand at token `j` denotes, if it denotes one and
/// that is at most 255.
pub open spec fn operand_byte(tokens: Seq<TokenView>, j: int) -> Option<u8> {
    match operand_value(tokens, j) {
        Some(value) if value < 256 => Some(value as u8),
        _ => None,
    }
}

/// Reads the number that the operand at token `j` denotes, from the text of
/// the token that stands there or, after `$` or `%`, of the next one.
pub fn read_operand_value(tokens: &Vec<Token>, j: usize) -> (r: Option<u16>)
    ensures
        r == operand_value(token_views(tokens@), j as int),
{
    let n = tokens.len();
    match token_at(tokens, j) {
        None => None,
        Some(t) => match t.ttype {
            TokenType::DOLLAR => match token_at(tokens, j.saturating_add(1)) {
                Some(digits) => {
                    assert(token_views(tokens@)[j + 1] == digits@);
                    parse_number(digits.tstring.as_str(), 16)
                },
                None => None,
            },
            TokenType::PERCENT => match token_at(tokens, j.saturating_add(1)) {
                Some(digits) => {
                    assert(token_views(tokens@)[j + 1] == digits@);
                    parse_number(digits.tstring.as_str(), 2)
                },
                None => None,
            },
            TokenType::LABEL_OPERAND => {
                assert(token_views(tokens@)[j as int] == t@);
                parse_number(t.tstring.as_str(), 16)
            },
            _ => {
                assert(token_views(tokens@)[j as int] == t@);
                parse_number(t.tstring.as_str(), 10)
            },
        },
    }
}

impl Lexer {
    /// The operand after the cursor as a byte. The text is that of the token
    /// after the cursor, read in radix 10, or in radix 16 if the token is a
    /// `LABEL_OPERAND`; after `$` or `%` it is the text of the token after
    /// that, read in radix 16 or 2. The class of the token that holds the
    /// text does not matter. `None` where there is no such token, where the
    /// text is no number, or where the number is above 255.
    pub fn get_operand_u8(&self) -> (r: Option<u8>)
        ensures
            r == operand_byte(self@.tokens, self.current_token + 1),
    {
        match self.get_operand_u16() {
            Some(value) if value < 256 => Some(value as u8),
            _ => None,
        }
    }

    /// The operand after the cursor, read as [`Lexer::get_operand_u8`] reads
    /// it. `None` where there is no such token, where the text is no number,
    /// or where the number is above 0xFFFF.
    pub fn get_operand_u16(&self) -> (r: Option<u16>)
        ensures
            r == operand_value(self@.tokens, self.current_token + 1),
    {
        let n = self.tokens.len();
        match self.current_token.checked_add(1) {
            Some(j) => read_operand_value(&self.tokens, j),
            None => None,
        }
    }

    /// The addressing mode of the instruction under the cursor, by the
    /// tokens that follow it, as one of the codes of [`Mode`].
    pub fn next_mode(&self) -> (code: u32)
        ensures
            code == mode_code(mode_at(self@.tokens, self.current_token as int)),
    {
        match infer_mode(&self.tokens, self.current_token) {
            Some(mode) => mode.code(),
            None => Mode::UNKNOWN,
        }
    }

    /// Assembles the tokens: runs the four passes and returns the program.
    /// On success the lexer holds the tokens as the passes left them and the
    /// symbol table, in which no name occurs twice, and the cursor stands
    /// behind the last token. On failure the lexer is as it was.
    pub fn parse(&mut self) -> (r: Result<Vec<u8>, AsmError>)
        ensures
            match assemble_tokens(old(self)@.tokens) {
                Ok(assembly) => r matches Ok(bytes) && bytes@ == assembly.bytes && final(self)@
                    == (LexerView {
                    tokens: assembly.tokens,
                    cursor: assembly.tokens.len(),
                    labels: assembly.symbols,
                }),
                Err(e) => r matches Err(err) && err@ == e && final(self)@ == old(self)@,
            },
            r is Ok ==> final(self).wf(),
            old(self).wf() ==> final(self).wf(),
    {
        let classified = classify_tokens(&self.tokens);
        let symbols = match layout_labels(&classified) {
            Ok(symbols) => symbols,
            Err(e) => {
                return Err(e);
            },
        };
        let resolved = match resolve_labels(&classified, &symbols) {
            Ok(resolved) => resolved,
            Err(e) => {
                return Err(e);
            },
        };
        let bytes = match encode_tokens(&resolved) {
            Ok(bytes) => bytes,
            Err(e) => {
                return Err(e);
            },
        };
        self.current_token = resolved.len();
        self.tokens = resolved;
        self.labels = symbols;
        Ok(bytes)
    }
}

/// Assembles a source text to the program it describes.
pub fn assemble(source: &str) -> (r: Result<Vec<u8>, AsmError>)
    ensures
        match assemble_source(source@) {
            Ok(bytes) => r matches Ok(out) && out@ == bytes,
            Err(e) => r matches Err(err) && err@ == e,
        },
{
    let mut lexer = Lexer::new();
    scan_source(source, &mut lexer.tokens);
    assert(token_views(lexer.tokens@) =~= lex(source@));
    lexer.parse()
}

} // verus!
