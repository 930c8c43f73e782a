//! Operands and addressing modes as the assembler reads them off the tokens
//! that follow a mnemonic.

use vstd::prelude::*;
use crate::isa::{mnemonic_of, AddrMode, Mnemonic};
use crate::lexer::{token_views, type_at, type_of, Token, TokenType, TokenView};
use crate::numeral::{number_value, parse_number};

verus! {

/// An operand read off the tokens.
#[derive(Clone, Copy, Debug, PartialEq, Eq, Structural)]
pub struct Operand {
    /// The number it denotes.
    pub value: u16,
    /// Whether it is written as a two-byte operand: a label, a number above
    /// 255, or a number with more digits than one byte takes.
    pub wide: bool,
    /// Whether it is the address of a label.
    pub label: bool,
    /// The number of tokens it takes.
    pub span: usize,
}

/// Whether a numeral of `len` digits in `radix` is written as one byte: up to
/// two hexadecimal, eight binary or three decimal digits.
pub open spec fn is_short(len: nat, radix: int) -> bool {
    if radix == 16 {
        len <= 2
    } else if radix == 2 {
        len <= 8
    } else {
        len <= 3
    }
}

/// The operand that the digits `text` denote in `radix`.
pub open spec fn numeral(text: Seq<char>, radix: int, span: usize) -> Option<Operand> {
    match number_value(text, radix) {
        Some(value) => Some(
            Operand {
                value,
                wide: !(value < 256 && is_short(text.len(), radix)),
                label: false,
                span,
            },
        ),
        None => None,
    }
}

/// The operand that starts at token `j`: `$` and hexadecimal digits, `%` and
/// binary digits, decimal digits, or the address that stands in for a label.
/// `None` where the tokens are none of these or the number is above 0xFFFF.
pub open spec fn operand_at(tokens: Seq<TokenView>, j: int) -> Option<Operand> {
    match type_of(tokens, j) {
        Some(TokenType::DOLLAR) => if type_of(tokens, j + 1) == Some(TokenType::NUMBER) {
            numeral(tokens[j + 1].text, 16, 2)
        } else {
            None
        },
        Some(TokenType::PERCENT) => if type_of(tokens, j + 1) == Some(TokenType::NUMBER) {
            numeral(tokens[j + 1].text, 2, 2)
        } else {
            None
        },
        Some(TokenType::NUMBER) => numeral(tokens[j].text, 10, 1),
        Some(TokenType::LABEL_OPERAND) => match number_value(tokens[j].text, 16) {
            Some(value) => Some(Operand { value, wide: true, label: true, span: 1 }),
            None => None,
        },
        _ => None,
    }
}

/// How the operand that starts at token `j` is written: whether as two bytes,
/// and over how many tokens. A reference to a label counts as two bytes
/// whether or not its address has been filled in yet.
pub open spec fn operand_shape(tokens: Seq<TokenView>, j: int) -> Option<(bool, usize)> {
    match type_of(tokens, j) {
        Some(TokenType::UNKNOWN) | Some(TokenType::LABEL_OPERAND) => Some((true, 1usize)),
        _ => match operand_at(tokens, j) {
            Some(operand) => Some((operand.wide, operand.span)),
            None => None,
        },
    }
}

/// The mode of an operand, wide or not, by what follows it at token `k`:
/// `,X`, `,Y`, or no index.
pub open spec fn indexed_mode(tokens: Seq<TokenView>, k: int, wide: bool) -> Option<AddrMode> {
    if type_of(tokens, k) == Some(TokenType::COMMA) {
        match type_of(tokens, k + 1) {
            Some(TokenType::REGX) => Some(
                if wide {
                    AddrMode::AbsoluteX
                } else {
                    AddrMode::ZeroPageX
                },
            ),
            Some(TokenType::REGY) => Some(
                if wide {
                    AddrMode::AbsoluteY
                } else {
                    AddrMode::ZeroPageY
                },
            ),
            _ => None,
        }
    } else {
        Some(
            if wide {
                AddrMode::Absolute
            } else {
                AddrMode::ZeroPage
            },
        )
    }
}

/// The mode of an operand that starts at token `j` without a bracket.
pub open spec fn direct_mode(tokens: Seq<TokenView>, j: int) -> Option<AddrMode> {
    match operand_shape(tokens, j) {
        Some((wide, span)) => indexed_mode(tokens, j + span, wide),
        None => None,
    }
}

/// The mode of an operand that starts at token `j` after an opening bracket:
/// `(n)` is Indirect, `(n,X)` Indirect,X and `(n),Y` Indirect,Y.
pub open spec fn indirect_mode(tokens: Seq<TokenView>, j: int) -> Option<AddrMode> {
    match operand_shape(tokens, j) {
        Some((_, span)) => {
            let k = j + span;
            if type_of(tokens, k) == Some(TokenType::BRACKETCLOSE) {
                if type_of(tokens, k + 1) == Some(TokenType::COMMA) {
                    if type_of(tokens, k + 2) == Some(TokenType::REGY) {
                        Some(AddrMode::IndirectY)
                    } else {
                        None
                    }
                } else {
                    Some(AddrMode::Indirect)
                }
            } else if type_of(tokens, k) == Some(TokenType::COMMA) && type_of(tokens, k + 1)
                == Some(TokenType::REGX) && type_of(tokens, k + 2) == Some(
                TokenType::BRACKETCLOSE,
            ) {
                Some(AddrMode::IndirectX)
            } else {
                None
            }
        },
        None => None,
    }
}

/// The addressing mode of the instruction whose mnemonic is token `i`, by the
/// tokens that follow it; `None` where they fit no mode.
///
/// Nothing, the end of the source, a label or another instruction: Implied.
/// `#`: Immediate. The accumulator: Accumulator. After a branch mnemonic:
/// Relative. `(`: the Indirect family. Otherwise a number or a label with an
/// optional `,X` or `,Y`: the Zero Page family if it is written as one byte,
/// the Absolute family if not.
#[verifier::opaque]
pub open spec fn mode_at(tokens: Seq<TokenView>, i: int) -> Option<AddrMode> {
    match type_of(tokens, i + 1) {
        None | Some(TokenType::EOF) | Some(TokenType::LABEL) | Some(TokenType::INSTRUCTION) => Some(
            AddrMode::Implied,
        ),
        Some(TokenType::HASH) => Some(AddrMode::Immediate),
        Some(TokenType::REGA) => Some(AddrMode::Accumulator),
        Some(following) => {
            if is_branch_text(tokens[i].text) {
                Some(AddrMode::Relative)
            } else if following == TokenType::BRACKETOPEN {
                indirect_mode(tokens, i + 2)
            } else {
                direct_mode(tokens, i + 1)
            }
        },
    }
}

/// Whether `text` spells one of the conditional branches.
pub open spec fn is_branch_text(text: Seq<char>) -> bool {
    match mnemonic_of(text) {
        Some(m) => m.is_branch(),
        None => false,
    }
}

/// The token at which the operand of the instruction at token `i` starts:
/// after the `#` or the `(` where the mode has one.
pub open spec fn operand_index(mode: AddrMode, i: int) -> int {
    match mode {
        AddrMode::Immediate | AddrMode::Indirect | AddrMode::IndirectX | AddrMode::IndirectY => i
            + 2,
        _ => i + 1,
    }
}

/// The class of the token `offset` places after `index`, if there is one.
pub fn type_ahead(tokens: &Vec<Token>, index: usize, offset: usize) -> (r: Option<TokenType>)
    ensures
        r == type_of(token_views(tokens@), index + offset),
{
    let n = tokens.len();
    match index.checked_add(offset) {
        Some(k) => type_at(tokens, k),
        None => {
            assert(index + offset > n);
            None
        },
    }
}

/// Reads the digits of token `k` in `radix`.
fn read_numeral(tokens: &Vec<Token>, k: usize, radix: u32, span: usize) -> (r: Option<Operand>)
    requires
        k < tokens.len(),
        radix == 2 || radix == 10 || radix == 16,
    ensures
        r == numeral(token_views(tokens@)[k as int].text, radix as int, span),
{
    let text = tokens[k].tstring.as_str();
    match parse_number(text, radix) {
        Some(value) => {
            let len = text.unicode_len();
            let short = if radix == 16 {
                len <= 2
            } else if radix == 2 {
                len <= 8
            } else {
                len <= 3
            };
            Some(Operand { value, wide: !(value < 256 && short), label: false, span })
        },
        None => None,
    }
}

/// Reads the operand that starts at token `j`.
pub fn read_operand(tokens: &Vec<Token>, j: usize) -> (r: Option<Operand>)
    ensures
        r == operand_at(token_views(tokens@), j as int),
{
    let n = tokens.len();
    match type_at(tokens, j) {
        Some(TokenType::DOLLAR) => match type_ahead(tokens, j, 1) {
            Some(TokenType::NUMBER) => read_numeral(tokens, j + 1, 16, 2),
            _ => None,
        },
        Some(TokenType::PERCENT) => match type_ahead(tokens, j, 1) {
            Some(TokenType::NUMBER) => read_numeral(tokens, j + 1, 2, 2),
            _ => None,
        },
        Some(TokenType::NUMBER) => read_numeral(tokens, j, 10, 1),
        Some(TokenType::LABEL_OPERAND) => match parse_number(tokens[j].tstring.as_str(), 16) {
            Some(value) => Some(Operand { value, wide: true, label: true, span: 1 }),
            None => None,
        },
        _ => None,
    }
}

/// How the operand that starts at token `j` is written.
fn read_shape(tokens: &Vec<Token>, j: usize) -> (r: Option<(bool, usize)>)
    ensures
        r == operand_shape(token_views(tokens@), j as int),
        r matches Some((_, span)) ==> j + span <= tokens.len(),
{
    match type_at(tokens, j) {
        Some(TokenType::UNKNOWN) | Some(TokenType::LABEL_OPERAND) => Some((true, 1)),
        _ => match read_operand(tokens, j) {
            Some(operand) => Some((operand.wide, operand.span)),
            None => None,
        },
    }
}

/// The mode of an operand by the index that follows it at token `k`.
fn read_indexed_mode(tokens: &Vec<Token>, k: usize, wide: bool) -> (r: Option<AddrMode>)
    ensures
        r == indexed_mode(token_views(tokens@), k as int, wide),
{
    match type_at(tokens, k) {
        Some(TokenType::COMMA) => match type_ahead(tokens, k, 1) {
            Some(TokenType::REGX) => Some(
                if wide {
                    AddrMode::AbsoluteX
                } else {
                    AddrMode::ZeroPageX
                },
            ),
            Some(TokenType::REGY) => Some(
                if wide {
                    AddrMode::AbsoluteY
                } else {
                    AddrMode::ZeroPageY
                },
            ),
            _ => None,
        },
        _ => Some(
            if wide {
                AddrMode::Absolute
            } else {
                AddrMode::ZeroPage
            },
        ),
    }
}

/// The mode of a bracketed operand that starts at token `j`.
fn read_indirect_mode(tokens: &Vec<Token>, j: usize) -> (r: Option<AddrMode>)
    ensures
        r == indirect_mode(token_views(tokens@), j as int),
{
    match read_shape(tokens, j) {
        Some((_, span)) => {
            let k = j + span;
            let first = type_at(tokens, k);
            let second = type_ahead(tokens, k, 1);
            let third = type_ahead(tokens, k, 2);
            match first {
                Some(TokenType::BRACKETCLOSE) => match second {
                    Some(TokenType::COMMA) => match third {
                        Some(TokenType::REGY) => Some(AddrMode::IndirectY),
                        _ => None,
                    },
                    _ => Some(AddrMode::Indirect),
                },
                Some(TokenType::COMMA) => match (second, third) {
                    (Some(TokenType::REGX), Some(TokenType::BRACKETCLOSE)) => Some(
                        AddrMode::IndirectX,
                    ),
                    _ => None,
                },
                _ => None,
            }
        },
        None => None,
    }
}

/// Whether the text of a token spells a conditional branch.
fn spells_branch(text: &str) -> (r: bool)
    ensures
        r == is_branch_text(text@),
{
    match Mnemonic::from_text(text) {
        Some(m) => m.is_branch(),
        None => false,
    }
}

/// Infers the addressing mode of the instruction whose mnemonic is token `i`.
pub fn infer_mode(tokens: &Vec<Token>, i: usize) -> (r: Option<AddrMode>)
    ensures
        r == mode_at(token_views(tokens@), i as int),
{
    proof {
        reveal(mode_at);
    }
    let n = tokens.len();
    match type_ahead(tokens, i, 1) {
        None | Some(TokenType::EOF) | Some(TokenType::LABEL) | Some(TokenType::INSTRUCTION) => Some(
            AddrMode::Implied,
        ),
        Some(TokenType::HASH) => Some(AddrMode::Immediate),
        Some(TokenType::REGA) => Some(AddrMode::Accumulator),
        Some(following) => {
            assert(i + 1 < n);
            if spells_branch(tokens[i].tstring.as_str()) {
                Some(AddrMode::Relative)
            } else if following == TokenType::BRACKETOPEN {
                read_indirect_mode(tokens, i + 2)
            } else {
                match read_shape(tokens, i + 1) {
                    Some((wide, span)) => read_indexed_mode(tokens, i + 1 + span, wide),
                    None => None,
                }
            }
        },
    }
}

} // verus!
