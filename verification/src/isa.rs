//! The instruction set: addressing modes, mnemonics, and the table that gives
//! every legal pairing of a mnemonic with an addressing mode its opcode byte.
//!
//! The opcode numbering is a dense enumeration private to this machine. The
//! table is written once, as [`opcode_of`]; the decoder [`decode`] is checked
//! against it, and the encoder [`encode`] searches the decoder, so the two
//! directions cannot drift apart.

use vstd::prelude::*;

verus! {

/// Numeric codes of the addressing modes, as the assembler reports them.
pub struct Mode;

impl Mode {
    pub const ACC: u32 = 0x00;
    pub const ABS: u32 = 0x01;
    pub const ABSX: u32 = 0x02;
    pub const ABSY: u32 = 0x03;
    pub const IMM: u32 = 0x04;
    pub const IMP: u32 = 0x05;
    pub const IND: u32 = 0x06;
    pub const INDX: u32 = 0x07;
    pub const INDY: u32 = 0x08;
    pub const REL: u32 = 0x09;
    pub const ZP: u32 = 0x0a;
    pub const ZPY: u32 = 0x0b;
    pub const ZPX: u32 = 0x0c;
    /// Not a mode: the code reported when no mode fits.
    pub const UNKNOWN: u32 = 0x0d;
}

/// The opcode bytes, one constant per legal (mnemonic, mode) pairing.
pub struct Instruction;

impl Instruction {
    pub const ADC_IMM: u8 = 0x00;
    pub const ADC_ABS: u8 = 0x01;
    pub const ADC_ABSX: u8 = 0x02;
    pub const ADC_ABSY: u8 = 0x03;
    pub const ADC_INDX: u8 = 0x04;
    pub const ADC_INDY: u8 = 0x05;
    pub const ADC_ZP: u8 = 0x06;
    pub const ADC_ZPX: u8 = 0x07;
    pub const AND_ABS: u8 = 0x08;
    pub const AND_ABSX: u8 = 0x09;
    pub const AND_ABSY: u8 = 0x0a;
    pub const AND_IMM: u8 = 0x0b;
    pub const AND_INDX: u8 = 0x0c;
    pub const AND_INDY: u8 = 0x0d;
    pub const AND_ZP: u8 = 0x0e;
    pub const AND_ZPX: u8 = 0x0f;
    pub const ASL_ACC: u8 = 0x10;
    pub const ASL_ABS: u8 = 0x11;
    pub const ASL_ABSX: u8 = 0x12;
    pub const ASL_ZP: u8 = 0x13;
    pub const ASL_ZPX: u8 = 0x14;
    pub const BCC_REL: u8 = 0x15;
    pub const BCS_REL: u8 = 0x16;
    pub const BEQ_REL: u8 = 0x17;
    pub const BIT_ABS: u8 = 0x18;
    pub const BIT_ZP: u8 = 0x19;
    pub const BMI_REL: u8 = 0x1a;
    pub const BNE_REL: u8 = 0x1b;
    pub const BPL_REL: u8 = 0x1c;
    pub const BRK_IMP: u8 = 0x1d;
    pub const BVC_REL: u8 = 0x1e;
    pub const CLC_IMP: u8 = 0x1f;
    pub const CLD_IMP: u8 = 0x20;
    pub const CLI_IMP: u8 = 0x21;
    pub const CLV_IMP: u8 = 0x22;
    pub const CMP_ABS: u8 = 0x23;
    pub const CMP_ABSX: u8 = 0x24;
    pub const CMP_ABSY: u8 = 0x25;
    pub const CMP_IMM: u8 = 0x26;
    pub const CMP_INDX: u8 = 0x27;
    pub const CMP_INDY: u8 = 0x28;
    pub const CMP_ZP: u8 = 0x29;
    pub const CMP_ZPX: u8 = 0x2a;
    pub const CPX_ABS: u8 = 0x2b;
    pub const CPX_IMM: u8 = 0x2c;
    pub const CPX_ZP: u8 = 0x2d;
    pub const CPY_ABS: u8 = 0x2e;
    pub const CPY_IMM: u8 = 0x2f;
    pub const CPY_ZP: u8 = 0x30;
    pub const DEC_ABS: u8 = 0x31;
    pub const DEC_ABSX: u8 = 0x32;
    pub const DEC_ZP: u8 = 0x33;
    pub const DEC_ZPX: u8 = 0x34;
    pub const DEX_IMP: u8 = 0x35;
    pub const DEY_IMP: u8 = 0x36;
    pub const EOR_ABS: u8 = 0x37;
    pub const EOR_ABSX: u8 = 0x38;
    pub const EOR_ABSY: u8 = 0x39;
    pub const EOR_IMM: u8 = 0x3a;
    pub const EOR_INDX: u8 = 0x3b;
    pub const EOR_INDY: u8 = 0x3c;
    pub const EOR_ZP: u8 = 0x3d;
    pub const EOR_ZPX: u8 = 0x3e;
    pub const INC_ABS: u8 = 0x3f;
    pub const INC_ABSX: u8 = 0x40;
    pub const INC_ZP: u8 = 0x41;
    pub const INC_ZPX: u8 = 0x42;
    pub const INX_IMP: u8 = 0x43;
    pub const INY_IMP: u8 = 0x44;
    pub const JMP_ABS: u8 = 0x45;
    pub const JMP_IND: u8 = 0x46;
    pub const JSR_ABS: u8 = 0x47;
    pub const LDA_ABS: u8 = 0x48;
    pub const LDA_ABSX: u8 = 0x49;
    pub const LDA_ABSY: u8 = 0x4a;
    pub const LDA_IMM: u8 = 0x4b;
    pub const LDA_INDX: u8 = 0x4c;
    pub const LDA_INDY: u8 = 0x4d;
    pub const LDA_ZP: u8 = 0x4e;
    pub const LDA_ZPX: u8 = 0x4f;
    pub const LDX_ABS: u8 = 0x50;
    pub const LDX_ABSY: u8 = 0x51;
    pub const LDX_IMM: u8 = 0x52;
    pub const LDX_ZP: u8 = 0x53;
    pub const LDX_ZPY: u8 = 0x54;
    pub const LDY_ABS: u8 = 0x55;
    pub const LDY_ABSX: u8 = 0x56;
    pub const LDY_IMM: u8 = 0x57;
    pub const LDY_ZP: u8 = 0x58;
    pub const LDY_ZPX: u8 = 0x59;
    pub const LSR_ACC: u8 = 0x5a;
    pub const LSR_ABS: u8 = 0x5b;
    pub const LSR_ABSX: u8 = 0x5c;
    pub const LSR_ZP: u8 = 0x5d;
    pub const LSR_ZPX: u8 = 0x5e;
    pub const NOP_IMP: u8 = 0x5f;
    pub const ORA_ABS: u8 = 0x60;
    pub const ORA_ABSX: u8 = 0x61;
    pub const ORA_ABSY: u8 = 0x62;
    pub const ORA_IMM: u8 = 0x63;
    pub const ORA_INDX: u8 = 0x64;
    pub const ORA_INDY: u8 = 0x65;
    pub const ORA_ZP: u8 = 0x66;
    pub const ORA_ZPX: u8 = 0x67;
    pub const PHA_IMP: u8 = 0x68;
    pub const PHP_IMP: u8 = 0x69;
    pub const PLA_IMP: u8 = 0x6a;
    pub const PLP_IMP: u8 = 0x6b;
    pub const ROL_ACC: u8 = 0x6c;
    pub const ROL_ABS: u8 = 0x6d;
    pub const ROL_ABSX: u8 = 0x6e;
    pub const ROL_ZP: u8 = 0x6f;
    pub const ROL_ZPX: u8 = 0x70;
    pub const ROR_ACC: u8 = 0x71;
    pub const ROR_ABS: u8 = 0x72;
    pub const ROR_ABSX: u8 = 0x73;
    pub const ROR_ZP: u8 = 0x74;
    pub const ROR_ZPX: u8 = 0x75;
    pub const RTI_IMP: u8 = 0x76;
    pub const RTS_IMP: u8 = 0x77;
    pub const SBC_ABS: u8 = 0x78;
    pub const SBC_ABSX: u8 = 0x79;
    pub const SBC_ABSY: u8 = 0x7a;
    pub const SBC_IMM: u8 = 0x7b;
    pub const SBC_INDX: u8 = 0x7c;
    pub const SBC_INDY: u8 = 0x7d;
    pub const SBC_ZP: u8 = 0x7e;
    pub const SBC_ZPX: u8 = 0x7f;
    pub const SEC_IMP: u8 = 0x80;
    pub const SED_IMP: u8 = 0x81;
    pub const SEI_IMP: u8 = 0x82;
    pub const STA_ABS: u8 = 0x83;
    pub const STA_ABSX: u8 = 0x84;
    pub const STA_ABSY: u8 = 0x85;
    pub const STA_INDX: u8 = 0x86;
    pub const STA_INDY: u8 = 0x87;
    pub const STA_ZP: u8 = 0x88;
    pub const STA_ZPX: u8 = 0x89;
    pub const STX_ABS: u8 = 0x8a;
    pub const STX_ZP: u8 = 0x8b;
    pub const STX_ZPY: u8 = 0x8c;
    pub const STY_ABS: u8 = 0x8d;
    pub const STY_ZP: u8 = 0x8e;
    pub const STY_ZPX: u8 = 0x8f;
    pub const TAX_IMP: u8 = 0x90;
    pub const TAY_IMP: u8 = 0x91;
    pub const TSX_IMP: u8 = 0x92;
    pub const TXA_IMP: u8 = 0x93;
    pub const TXS_IMP: u8 = 0x94;
    pub const TYA_IMP: u8 = 0x95;
    pub const BVS_REL: u8 = 0x96;
}

/// The highest opcode byte in use; every byte up to it is an opcode.
pub const LAST_OPCODE: u8 = 0x96;

/// How an instruction locates its operand.
#[derive(Clone, Copy, Debug, PartialEq, Eq, Structural)]
pub enum AddrMode {
    Accumulator,
    Absolute,
    AbsoluteX,
    AbsoluteY,
    Immediate,
    Implied,
    Indirect,
    IndirectX,
    IndirectY,
    Relative,
    ZeroPage,
    ZeroPageY,
    ZeroPageX,
}

impl AddrMode {
    /// The numeric code of the mode (one of the constants of [`Mode`]).
    pub open spec fn spec_code(self) -> u32 {
        match self {
            AddrMode::Accumulator => Mode::ACC,
            AddrMode::Absolute => Mode::ABS,
            AddrMode::AbsoluteX => Mode::ABSX,
            AddrMode::AbsoluteY => Mode::ABSY,
            AddrMode::Immediate => Mode::IMM,
            AddrMode::Implied => Mode::IMP,
            AddrMode::Indirect => Mode::IND,
            AddrMode::IndirectX => Mode::INDX,
            AddrMode::IndirectY => Mode::INDY,
            AddrMode::Relative => Mode::REL,
            AddrMode::ZeroPage => Mode::ZP,
            AddrMode::ZeroPageY => Mode::ZPY,
            AddrMode::ZeroPageX => Mode::ZPX,
        }
    }

    #[verifier::when_used_as_spec(spec_code)]
    pub fn code(self) -> (c: u32)
        ensures
            c == self.spec_code(),
            c < Mode::UNKNOWN,
    {
        match self {
            AddrMode::Accumulator => Mode::ACC,
            AddrMode::Absolute => Mode::ABS,
            AddrMode::AbsoluteX => Mode::ABSX,
            AddrMode::AbsoluteY => Mode::ABSY,
            AddrMode::Immediate => Mode::IMM,
            AddrMode::Implied => Mode::IMP,
            AddrMode::Indirect => Mode::IND,
            AddrMode::IndirectX => Mode::INDX,
            AddrMode::IndirectY => Mode::INDY,
            AddrMode::Relative => Mode::REL,
            AddrMode::ZeroPage => Mode::ZP,
            AddrMode::ZeroPageY => Mode::ZPY,
            AddrMode::ZeroPageX => Mode::ZPX,
        }
    }

    /// The mode with the given code, if the code names one.
    pub fn from_code(code: u32) -> (r: Option<AddrMode>)
        ensures
            code < Mode::UNKNOWN ==> r is Some && r->0.code() == code,
            code >= Mode::UNKNOWN ==> r is None,
    {
        if code == Mode::ACC {
            Some(AddrMode::Accumulator)
        } else if code == Mode::ABS {
            Some(AddrMode::Absolute)
        } else if code == Mode::ABSX {
            Some(AddrMode::AbsoluteX)
        } else if code == Mode::ABSY {
            Some(AddrMode::AbsoluteY)
        } else if code == Mode::IMM {
            Some(AddrMode::Immediate)
        } else if code == Mode::IMP {
            Some(AddrMode::Implied)
        } else if code == Mode::IND {
            Some(AddrMode::Indirect)
        } else if code == Mode::INDX {
            Some(AddrMode::IndirectX)
        } else if code == Mode::INDY {
            Some(AddrMode::IndirectY)
        } else if code == Mode::REL {
            Some(AddrMode::Relative)
        } else if code == Mode::ZP {
            Some(AddrMode::ZeroPage)
        } else if code == Mode::ZPY {
            Some(AddrMode::ZeroPageY)
        } else if code == Mode::ZPX {
            Some(AddrMode::ZeroPageX)
        } else {
            None
        }
    }

    /// The number of operand bytes that follow the opcode in this mode.
    pub open spec fn spec_operand_len(self) -> u8 {
        match self {
            AddrMode::Accumulator | AddrMode::Implied => 0,
            AddrMode::Absolute | AddrMode::AbsoluteX | AddrMode::AbsoluteY | AddrMode::Indirect => 2,
            _ => 1,
        }
    }

    #[verifier::when_used_as_spec(spec_operand_len)]
    pub fn operand_len(self) -> (n: u8)
        ensures
            n == self.spec_operand_len(),
            n <= 2,
    {
        match self {
            AddrMode::Accumulator | AddrMode::Implied => 0,
            AddrMode::Absolute | AddrMode::AbsoluteX | AddrMode::AbsoluteY | AddrMode::Indirect => 2,
            _ => 1,
        }
    }
}

/// The operations of the processor.
#[derive(Clone, Copy, Debug, PartialEq, Eq, Structural)]
pub enum Mnemonic {
    ADC,
    AND,
    ASL,
    BCC,
    BCS,
    BEQ,
    BIT,
    BMI,
    BNE,
    BPL,
    BRK,
    BVC,
    BVS,
    CLC,
    CLD,
    CLI,
    CLV,
    CMP,
    CPX,
    CPY,
    DEC,
    DEX,
    DEY,
    EOR,
    INC,
    INX,
    INY,
    JMP,
    JSR,
    LDA,
    LDX,
    LDY,
    LSR,
    NOP,
    ORA,
    PHA,
    PHP,
    PLA,
    PLP,
    ROL,
    ROR,
    RTI,
    RTS,
    SBC,
    SEC,
    SED,
    SEI,
    STA,
    STX,
    STY,
    TAX,
    TAY,
    TSX,
    TXA,
    TXS,
    TYA,
}

/// The upper-case form of an ASCII letter; any other character is unchanged.
pub open spec fn upper_char(c: char) -> char {
    if 'a' <= c && c <= 'z' {
        ((c as u32 - 32) as u8) as char
    } else {
        c
    }
}

/// A text with every ASCII letter in upper case.
pub open spec fn upper_text(s: Seq<char>) -> Seq<char> {
    Seq::new(s.len(), |i: int| upper_char(s[i]))
}

/// Executable form of [`upper_char`].
pub fn to_upper(c: char) -> (r: char)
    ensures
        r == upper_char(c),
{
    if 'a' <= c && c <= 'z' {
        ((c as u32 - 32) as u8) as char
    } else {
        c
    }
}

impl Mnemonic {
    /// The three upper-case letters of the mnemonic.
    pub open spec fn letters(self) -> (char, char, char) {
        match self {
            Mnemonic::ADC => ('A', 'D', 'C'),
            Mnemonic::AND => ('A', 'N', 'D'),
            Mnemonic::ASL => ('A', 'S', 'L'),
            Mnemonic::BCC => ('B', 'C', 'C'),
            Mnemonic::BCS => ('B', 'C', 'S'),
            Mnemonic::BEQ => ('B', 'E', 'Q'),
            Mnemonic::BIT => ('B', 'I', 'T'),
            Mnemonic::BMI => ('B', 'M', 'I'),
            Mnemonic::BNE => ('B', 'N', 'E'),
            Mnemonic::BPL => ('B', 'P', 'L'),
            Mnemonic::BRK => ('B', 'R', 'K'),
            Mnemonic::BVC => ('B', 'V', 'C'),
            Mnemonic::BVS => ('B', 'V', 'S'),
            Mnemonic::CLC => ('C', 'L', 'C'),
            Mnemonic::CLD => ('C', 'L', 'D'),
            Mnemonic::CLI => ('C', 'L', 'I'),
            Mnemonic::CLV => ('C', 'L', 'V'),
            Mnemonic::CMP => ('C', 'M', 'P'),
            Mnemonic::CPX => ('C', 'P', 'X'),
            Mnemonic::CPY => ('C', 'P', 'Y'),
            Mnemonic::DEC => ('D', 'E', 'C'),
            Mnemonic::DEX => ('D', 'E', 'X'),
            Mnemonic::DEY => ('D', 'E', 'Y'),
            Mnemonic::EOR => ('E', 'O', 'R'),
            Mnemonic::INC => ('I', 'N', 'C'),
            Mnemonic::INX => ('I', 'N', 'X'),
            Mnemonic::INY => ('I', 'N', 'Y'),
            Mnemonic::JMP => ('J', 'M', 'P'),
            Mnemonic::JSR => ('J', 'S', 'R'),
            Mnemonic::LDA => ('L', 'D', 'A'),
            Mnemonic::LDX => ('L', 'D', 'X'),
            Mnemonic::LDY => ('L', 'D', 'Y'),
            Mnemonic::LSR => ('L', 'S', 'R'),
            Mnemonic::NOP => ('N', 'O', 'P'),
            Mnemonic::ORA => ('O', 'R', 'A'),
            Mnemonic::PHA => ('P', 'H', 'A'),
            Mnemonic::PHP => ('P', 'H', 'P'),
            Mnemonic::PLA => ('P', 'L', 'A'),
            Mnemonic::PLP => ('P', 'L', 'P'),
            Mnemonic::ROL => ('R', 'O', 'L'),
            Mnemonic::ROR => ('R', 'O', 'R'),
            Mnemonic::RTI => ('R', 'T', 'I'),
            Mnemonic::RTS => ('R', 'T', 'S'),
            Mnemonic::SBC => ('S', 'B', 'C'),
            Mnemonic::SEC => ('S', 'E', 'C'),
            Mnemonic::SED => ('S', 'E', 'D'),
            Mnemonic::SEI => ('S', 'E', 'I'),
            Mnemonic::STA => ('S', 'T', 'A'),
            Mnemonic::STX => ('S', 'T', 'X'),
            Mnemonic::STY => ('S', 'T', 'Y'),
            Mnemonic::TAX => ('T', 'A', 'X'),
            Mnemonic::TAY => ('T', 'A', 'Y'),
            Mnemonic::TSX => ('T', 'S', 'X'),
            Mnemonic::TXA => ('T', 'X', 'A'),
            Mnemonic::TXS => ('T', 'X', 'S'),
            Mnemonic::TYA => ('T', 'Y', 'A'),
        }
    }

    /// The mnemonic as text.
    pub open spec fn text(self) -> Seq<char> {
        seq![self.letters().0, self.letters().1, self.letters().2]
    }

    /// Whether this is one of the eight conditional branches.
    pub open spec fn spec_is_branch(self) -> bool {
        self == Mnemonic::BCC || self == Mnemonic::BCS || self == Mnemonic::BEQ
            || self == Mnemonic::BMI || self == Mnemonic::BNE || self == Mnemonic::BPL
            || self == Mnemonic::BVC || self == Mnemonic::BVS
    }

    #[verifier::when_used_as_spec(spec_is_branch)]
    pub fn is_branch(self) -> (b: bool)
        ensures
            b == self.spec_is_branch(),
    {
        match self {
            Mnemonic::BCC | Mnemonic::BCS | Mnemonic::BEQ | Mnemonic::BMI | Mnemonic::BNE
            | Mnemonic::BPL | Mnemonic::BVC | Mnemonic::BVS => true,
            _ => false,
        }
    }

    /// The mnemonic spelled in upper case.
    pub fn name(self) -> (r: &'static str)
        ensures
            r@ == self.text(),
    {
        match self {
            Mnemonic::ADC => {
                proof {
                    reveal_strlit("ADC");
                }
                assert("ADC"@ =~= self.text());
                "ADC"
            },
            Mnemonic::AND => {
                proof {
                    reveal_strlit("AND");
                }
                assert("AND"@ =~= self.text());
                "AND"
            },
            Mnemonic::ASL => {
                proof {
                    reveal_strlit("ASL");
                }
                assert("ASL"@ =~= self.text());
                "ASL"
            },
            Mnemonic::BCC => {
                proof {
                    reveal_strlit("BCC");
                }
                assert("BCC"@ =~= self.text());
                "BCC"
            },
            Mnemonic::BCS => {
                proof {
                    reveal_strlit("BCS");
                }
                assert("BCS"@ =~= self.text());
                "BCS"
            },
            Mnemonic::BEQ => {
                proof {
                    reveal_strlit("BEQ");
                }
                assert("BEQ"@ =~= self.text());
                "BEQ"
            },
            Mnemonic::BIT => {
                proof {
                    reveal_strlit("BIT");
                }
                assert("BIT"@ =~= self.text());
                "BIT"
            },
            Mnemonic::BMI => {
                proof {
                    reveal_strlit("BMI");
                }
                assert("BMI"@ =~= self.text());
                "BMI"
            },
            Mnemonic::BNE => {
                proof {
                    reveal_strlit("BNE");
                }
                assert("BNE"@ =~= self.text());
                "BNE"
            },
            Mnemonic::BPL => {
                proof {
                    reveal_strlit("BPL");
                }
                assert("BPL"@ =~= self.text());
                "BPL"
            },
            Mnemonic::BRK => {
                proof {
                    reveal_strlit("BRK");
                }
                assert("BRK"@ =~= self.text());
                "BRK"
            },
            Mnemonic::BVC => {
                proof {
                    reveal_strlit("BVC");
                }
                assert("BVC"@ =~= self.text());
                "BVC"
            },
            Mnemonic::BVS => {
                proof {
                    reveal_strlit("BVS");
                }
                assert("BVS"@ =~= self.text());
                "BVS"
            },
            Mnemonic::CLC => {
                proof {
                    reveal_strlit("CLC");
                }
                assert("CLC"@ =~= self.text());
                "CLC"
            },
            Mnemonic::CLD => {
                proof {
                    reveal_strlit("CLD");
                }
                assert("CLD"@ =~= self.text());
                "CLD"
            },
            Mnemonic::CLI => {
                proof {
                    reveal_strlit("CLI");
                }
                assert("CLI"@ =~= self.text());
                "CLI"
            },
            Mnemonic::CLV => {
                proof {
                    reveal_strlit("CLV");
                }
                assert("CLV"@ =~= self.text());
                "CLV"
            },
            Mnemonic::CMP => {
                proof {
                    reveal_strlit("CMP");
                }
                assert("CMP"@ =~= self.text());
                "CMP"
            },
            Mnemonic::CPX => {
                proof {
                    reveal_strlit("CPX");
                }
                assert("CPX"@ =~= self.text());
                "CPX"
            },
            Mnemonic::CPY => {
                proof {
                    reveal_strlit("CPY");
                }
                assert("CPY"@ =~= self.text());
                "CPY"
            },
            Mnemonic::DEC => {
                proof {
                    reveal_strlit("DEC");
                }
                assert("DEC"@ =~= self.text());
                "DEC"
            },
            Mnemonic::DEX => {
                proof {
                    reveal_strlit("DEX");
                }
                assert("DEX"@ =~= self.text());
                "DEX"
            },
            Mnemonic::DEY => {
                proof {
                    reveal_strlit("DEY");
                }
                assert("DEY"@ =~= self.text());
                "DEY"
            },
            Mnemonic::EOR => {
                proof {
                    reveal_strlit("EOR");
                }
                assert("EOR"@ =~= self.text());
                "EOR"
            },
            Mnemonic::INC => {
                proof {
                    reveal_strlit("INC");
                }
                assert("INC"@ =~= self.text());
                "INC"
            },
            Mnemonic::INX => {
                proof {
                    reveal_strlit("INX");
                }
                assert("INX"@ =~= self.text());
                "INX"
            },
            Mnemonic::INY => {
                proof {
                    reveal_strlit("INY");
                }
                assert("INY"@ =~= self.text());
                "INY"
            },
            Mnemonic::JMP => {
                proof {
                    reveal_strlit("JMP");
                }
                assert("JMP"@ =~= self.text());
                "JMP"
            },
            Mnemonic::JSR => {
                proof {
                    reveal_strlit("JSR");
                }
                assert("JSR"@ =~= self.text());
                "JSR"
            },
            Mnemonic::LDA => {
                proof {
                    reveal_strlit("LDA");
                }
                assert("LDA"@ =~= self.text());
                "LDA"
            },
            Mnemonic::LDX => {
                proof {
                    reveal_strlit("LDX");
                }
                assert("LDX"@ =~= self.text());
                "LDX"
            },
            Mnemonic::LDY => {
                proof {
                    reveal_strlit("LDY");
                }
                assert("LDY"@ =~= self.text());
                "LDY"
            },
            Mnemonic::LSR => {
                proof {
                    reveal_strlit("LSR");
                }
                assert("LSR"@ =~= self.text());
                "LSR"
            },
            Mnemonic::NOP => {
                proof {
                    reveal_strlit("NOP");
                }
                assert("NOP"@ =~= self.text());
                "NOP"
            },
            Mnemonic::ORA => {
                proof {
                    reveal_strlit("ORA");
                }
                assert("ORA"@ =~= self.text());
                "ORA"
            },
            Mnemonic::PHA => {
                proof {
                    reveal_strlit("PHA");
                }
                assert("PHA"@ =~= self.text());
                "PHA"
            },
            Mnemonic::PHP => {
                proof {
                    reveal_strlit("PHP");
                }
                assert("PHP"@ =~= self.text());
                "PHP"
            },
            Mnemonic::PLA => {
                proof {
                    reveal_strlit("PLA");
                }
                assert("PLA"@ =~= self.text());
                "PLA"
            },
            Mnemonic::PLP => {
                proof {
                    reveal_strlit("PLP");
                }
                assert("PLP"@ =~= self.text());
                "PLP"
            },
            Mnemonic::ROL => {
                proof {
                    reveal_strlit("ROL");
                }
                assert("ROL"@ =~= self.text());
                "ROL"
            },
            Mnemonic::ROR => {
                proof {
                    reveal_strlit("ROR");
                }
                assert("ROR"@ =~= self.text());
                "ROR"
            },
            Mnemonic::RTI => {
                proof {
                    reveal_strlit("RTI");
                }
                assert("RTI"@ =~= self.text());
                "RTI"
            },
            Mnemonic::RTS => {
                proof {
                    reveal_strlit("RTS");
                }
                assert("RTS"@ =~= self.text());
                "RTS"
            },
            Mnemonic::SBC => {
                proof {
                    reveal_strlit("SBC");
                }
                assert("SBC"@ =~= self.text());
                "SBC"
            },
            Mnemonic::SEC => {
                proof {
                    reveal_strlit("SEC");
                }
                assert("SEC"@ =~= self.text());
                "SEC"
            },
            Mnemonic::SED => {
                proof {
                    reveal_strlit("SED");
                }
                assert("SED"@ =~= self.text());
                "SED"
            },
            Mnemonic::SEI => {
                proof {
                    reveal_strlit("SEI");
                }
                assert("SEI"@ =~= self.text());
                "SEI"
            },
            Mnemonic::STA => {
                proof {
                    reveal_strlit("STA");
                }
                assert("STA"@ =~= self.text());
                "STA"
            },
            Mnemonic::STX => {
                proof {
                    reveal_strlit("STX");
                }
                assert("STX"@ =~= self.text());
                "STX"
            },
            Mnemonic::STY => {
                proof {
                    reveal_strlit("STY");
                }
                assert("STY"@ =~= self.text());
                "STY"
            },
            Mnemonic::TAX => {
                proof {
                    reveal_strlit("TAX");
                }
                assert("TAX"@ =~= self.text());
                "TAX"
            },
            Mnemonic::TAY => {
                proof {
                    reveal_strlit("TAY");
                }
                assert("TAY"@ =~= self.text());
                "TAY"
            },
            Mnemonic::TSX => {
                proof {
                    reveal_strlit("TSX");
                }
                assert("TSX"@ =~= self.text());
                "TSX"
            },
            Mnemonic::TXA => {
                proof {
                    reveal_strlit("TXA");
                }
                assert("TXA"@ =~= self.text());
                "TXA"
            },
            Mnemonic::TXS => {
                proof {
                    reveal_strlit("TXS");
                }
                assert("TXS"@ =~= self.text());
                "TXS"
            },
            Mnemonic::TYA => {
                proof {
                    reveal_strlit("TYA");
                }
                assert("TYA"@ =~= self.text());
                "TYA"
            },
        }
    }

    /// The mnemonic with the given three letters, which must be in upper case.
    pub fn from_letters(c0: char, c1: char, c2: char) -> (r: Option<Mnemonic>)
        ensures
            match r {
                Some(m) => m.letters() == (c0, c1, c2),
                None => forall|m: Mnemonic| m.letters() != (c0, c1, c2),
            },
    {
        match (c0, c1, c2) {
            ('A', 'D', 'C') => Some(Mnemonic::ADC),
            ('A', 'N', 'D') => Some(Mnemonic::AND),
            ('A', 'S', 'L') => Some(Mnemonic::ASL),
            ('B', 'C', 'C') => Some(Mnemonic::BCC),
            ('B', 'C', 'S') => Some(Mnemonic::BCS),
            ('B', 'E', 'Q') => Some(Mnemonic::BEQ),
            ('B', 'I', 'T') => Some(Mnemonic::BIT),
            ('B', 'M', 'I') => Some(Mnemonic::BMI),
            ('B', 'N', 'E') => Some(Mnemonic::BNE),
            ('B', 'P', 'L') => Some(Mnemonic::BPL),
            ('B', 'R', 'K') => Some(Mnemonic::BRK),
            ('B', 'V', 'C') => Some(Mnemonic::BVC),
            ('B', 'V', 'S') => Some(Mnemonic::BVS),
            ('C', 'L', 'C') => Some(Mnemonic::CLC),
            ('C', 'L', 'D') => Some(Mnemonic::CLD),
            ('C', 'L', 'I') => Some(Mnemonic::CLI),
            ('C', 'L', 'V') => Some(Mnemonic::CLV),
            ('C', 'M', 'P') => Some(Mnemonic::CMP),
            ('C', 'P', 'X') => Some(Mnemonic::CPX),
            ('C', 'P', 'Y') => Some(Mnemonic::CPY),
            ('D', 'E', 'C') => Some(Mnemonic::DEC),
            ('D', 'E', 'X') => Some(Mnemonic::DEX),
            ('D', 'E', 'Y') => Some(Mnemonic::DEY),
            ('E', 'O', 'R') => Some(Mnemonic::EOR),
            ('I', 'N', 'C') => Some(Mnemonic::INC),
            ('I', 'N', 'X') => Some(Mnemonic::INX),
            ('I', 'N', 'Y') => Some(Mnemonic::INY),
            ('J', 'M', 'P') => Some(Mnemonic::JMP),
            ('J', 'S', 'R') => Some(Mnemonic::JSR),
            ('L', 'D', 'A') => Some(Mnemonic::LDA),
            ('L', 'D', 'X') => Some(Mnemonic::LDX),
            ('L', 'D', 'Y') => Some(Mnemonic::LDY),
            ('L', 'S', 'R') => Some(Mnemonic::LSR),
            ('N', 'O', 'P') => Some(Mnemonic::NOP),
            ('O', 'R', 'A') => Some(Mnemonic::ORA),
            ('P', 'H', 'A') => Some(Mnemonic::PHA),
            ('P', 'H', 'P') => Some(Mnemonic::PHP),
            ('P', 'L', 'A') => Some(Mnemonic::PLA),
            ('P', 'L', 'P') => Some(Mnemonic::PLP),
            ('R', 'O', 'L') => Some(Mnemonic::ROL),
            ('R', 'O', 'R') => Some(Mnemonic::ROR),
            ('R', 'T', 'I') => Some(Mnemonic::RTI),
            ('R', 'T', 'S') => Some(Mnemonic::RTS),
            ('S', 'B', 'C') => Some(Mnemonic::SBC),
            ('S', 'E', 'C') => Some(Mnemonic::SEC),
            ('S', 'E', 'D') => Some(Mnemonic::SED),
            ('S', 'E', 'I') => Some(Mnemonic::SEI),
            ('S', 'T', 'A') => Some(Mnemonic::STA),
            ('S', 'T', 'X') => Some(Mnemonic::STX),
            ('S', 'T', 'Y') => Some(Mnemonic::STY),
            ('T', 'A', 'X') => Some(Mnemonic::TAX),
            ('T', 'A', 'Y') => Some(Mnemonic::TAY),
            ('T', 'S', 'X') => Some(Mnemonic::TSX),
            ('T', 'X', 'A') => Some(Mnemonic::TXA),
            ('T', 'X', 'S') => Some(Mnemonic::TXS),
            ('T', 'Y', 'A') => Some(Mnemonic::TYA),
            _ => None,
        }
    }

    /// The mnemonic that a text spells, in upper case, lower case or a mixture.
    pub fn from_text(s: &str) -> (r: Option<Mnemonic>)
        ensures
            r == mnemonic_of(s@),
    {
        if s.unicode_len() != 3 {
            assert forall|m: Mnemonic| m.text() != upper_text(s@) by {
                assert(m.text().len() == 3);
            }
            return None;
        }
        let c0 = to_upper(s.get_char(0));
        let c1 = to_upper(s.get_char(1));
        let c2 = to_upper(s.get_char(2));
        let r = Mnemonic::from_letters(c0, c1, c2);
        proof {
            assert(upper_text(s@) =~= seq![c0, c1, c2]);
            match r {
                Some(m) => {
                    assert(m.text() =~= upper_text(s@));
                    lemma_mnemonic_of(s@, m);
                },
                None => {
                    assert forall|m: Mnemonic| m.text() != upper_text(s@) by {
                        assert(m.text()[0] == m.letters().0);
                        assert(m.text()[1] == m.letters().1);
                        assert(m.text()[2] == m.letters().2);
                    }
                },
            }
        }
        r
    }
}

/// The mnemonic that a text spells when letter case is ignored, if it spells one.
pub open spec fn mnemonic_of(s: Seq<char>) -> Option<Mnemonic> {
    if exists|m: Mnemonic| #[trigger] m.text() == upper_text(s) {
        Some(choose|m: Mnemonic| #[trigger] m.text() == upper_text(s))
    } else {
        None
    }
}

/// Two mnemonics with the same spelling are the same mnemonic.
pub proof fn lemma_text_injective(m1: Mnemonic, m2: Mnemonic)
    requires
        m1.text() == m2.text(),
    ensures
        m1 == m2,
{
    assert(m1.text()[0] == m2.text()[0]);
    assert(m1.text()[1] == m2.text()[1]);
    assert(m1.text()[2] == m2.text()[2]);
}

/// A text that spells `m`, in any letter case, names `m` and no other mnemonic.
pub proof fn lemma_mnemonic_of(s: Seq<char>, m: Mnemonic)
    requires
        m.text() == upper_text(s),
    ensures
        mnemonic_of(s) == Some(m),
{
    let chosen = choose|k: Mnemonic| #[trigger] k.text() == upper_text(s);
    lemma_text_injective(chosen, m);
}

/// The opcode table: the byte that stands for a mnemonic in an addressing
/// mode, or `None` where the mnemonic does not support the mode.
pub open spec fn opcode_of(m: Mnemonic, a: AddrMode) -> Option<u8> {
    match (m, a) {
        (Mnemonic::ADC, AddrMode::Immediate) => Some(Instruction::ADC_IMM),
        (Mnemonic::ADC, AddrMode::Absolute) => Some(Instruction::ADC_ABS),
        (Mnemonic::ADC, AddrMode::AbsoluteX) => Some(Instruction::ADC_ABSX),
        (Mnemonic::ADC, AddrMode::AbsoluteY) => Some(Instruction::ADC_ABSY),
        (Mnemonic::ADC, AddrMode::IndirectX) => Some(Instruction::ADC_INDX),
        (Mnemonic::ADC, AddrMode::IndirectY) => Some(Instruction::ADC_INDY),
        (Mnemonic::ADC, AddrMode::ZeroPage) => Some(Instruction::ADC_ZP),
        (Mnemonic::ADC, AddrMode::ZeroPageX) => Some(Instruction::ADC_ZPX),
        (Mnemonic::AND, AddrMode::Absolute) => Some(Instruction::AND_ABS),
        (Mnemonic::AND, AddrMode::AbsoluteX) => Some(Instruction::AND_ABSX),
        (Mnemonic::AND, AddrMode::AbsoluteY) => Some(Instruction::AND_ABSY),
        (Mnemonic::AND, AddrMode::Immediate) => Some(Instruction::AND_IMM),
        (Mnemonic::AND, AddrMode::IndirectX) => Some(Instruction::AND_INDX),
        (Mnemonic::AND, AddrMode::IndirectY) => Some(Instruction::AND_INDY),
        (Mnemonic::AND, AddrMode::ZeroPage) => Some(Instruction::AND_ZP),
        (Mnemonic::AND, AddrMode::ZeroPageX) => Some(Instruction::AND_ZPX),
        (Mnemonic::ASL, AddrMode::Accumulator) => Some(Instruction::ASL_ACC),
        (Mnemonic::ASL, AddrMode::Absolute) => Some(Instruction::ASL_ABS),
        (Mnemonic::ASL, AddrMode::AbsoluteX) => Some(Instruction::ASL_ABSX),
        (Mnemonic::ASL, AddrMode::ZeroPage) => Some(Instruction::ASL_ZP),
        (Mnemonic::ASL, AddrMode::ZeroPageX) => Some(Instruction::ASL_ZPX),
        (Mnemonic::BCC, AddrMode::Relative) => Some(Instruction::BCC_REL),
        (Mnemonic::BCS, AddrMode::Relative) => Some(Instruction::BCS_REL),
        (Mnemonic::BEQ, AddrMode::Relative) => Some(Instruction::BEQ_REL),
        (Mnemonic::BIT, AddrMode::Absolute) => Some(Instruction::BIT_ABS),
        (Mnemonic::BIT, AddrMode::ZeroPage) => Some(Instruction::BIT_ZP),
        (Mnemonic::BMI, AddrMode::Relative) => Some(Instruction::BMI_REL),
        (Mnemonic::BNE, AddrMode::Relative) => Some(Instruction::BNE_REL),
        (Mnemonic::BPL, AddrMode::Relative) => Some(Instruction::BPL_REL),
        (Mnemonic::BRK, AddrMode::Implied) => Some(Instruction::BRK_IMP),
        (Mnemonic::BVC, AddrMode::Relative) => Some(Instruction::BVC_REL),
        (Mnemonic::CLC, AddrMode::Implied) => Some(Instruction::CLC_IMP),
        (Mnemonic::CLD, AddrMode::Implied) => Some(Instruction::CLD_IMP),
        (Mnemonic::CLI, AddrMode::Implied) => Some(Instruction::CLI_IMP),
        (Mnemonic::CLV, AddrMode::Implied) => Some(Instruction::CLV_IMP),
        (Mnemonic::CMP, AddrMode::Absolute) => Some(Instruction::CMP_ABS),
        (Mnemonic::CMP, AddrMode::AbsoluteX) => Some(Instruction::CMP_ABSX),
        (Mnemonic::CMP, AddrMode::AbsoluteY) => Some(Instruction::CMP_ABSY),
        (Mnemonic::CMP, AddrMode::Immediate) => Some(Instruction::CMP_IMM),
        (Mnemonic::CMP, AddrMode::IndirectX) => Some(Instruction::CMP_INDX),
        (Mnemonic::CMP, AddrMode::IndirectY) => Some(Instruction::CMP_INDY),
        (Mnemonic::CMP, AddrMode::ZeroPage) => Some(Instruction::CMP_ZP),
        (Mnemonic::CMP, AddrMode::ZeroPageX) => Some(Instruction::CMP_ZPX),
        (Mnemonic::CPX, AddrMode::Absolute) => Some(Instruction::CPX_ABS),
        (Mnemonic::CPX, AddrMode::Immediate) => Some(Instruction::CPX_IMM),
        (Mnemonic::CPX, AddrMode::ZeroPage) => Some(Instruction::CPX_ZP),
        (Mnemonic::CPY, AddrMode::Absolute) => Some(Instruction::CPY_ABS),
        (Mnemonic::CPY, AddrMode::Immediate) => Some(Instruction::CPY_IMM),
        (Mnemonic::CPY, AddrMode::ZeroPage) => Some(Instruction::CPY_ZP),
        (Mnemonic::DEC, AddrMode::Absolute) => Some(Instruction::DEC_ABS),
        (Mnemonic::DEC, AddrMode::AbsoluteX) => Some(Instruction::DEC_ABSX),
        (Mnemonic::DEC, AddrMode::ZeroPage) => Some(Instruction::DEC_ZP),
        (Mnemonic::DEC, AddrMode::ZeroPageX) => Some(Instruction::DEC_ZPX),
        (Mnemonic::DEX, AddrMode::Implied) => Some(Instruction::DEX_IMP),
        (Mnemonic::DEY, AddrMode::Implied) => Some(Instruction::DEY_IMP),
        (Mnemonic::EOR, AddrMode::Absolute) => Some(Instruction::EOR_ABS),
        (Mnemonic::EOR, AddrMode::AbsoluteX) => Some(Instruction::EOR_ABSX),
        (Mnemonic::EOR, AddrMode::AbsoluteY) => Some(Instruction::EOR_ABSY),
        (Mnemonic::EOR, AddrMode::Immediate) => Some(Instruction::EOR_IMM),
        (Mnemonic::EOR, AddrMode::IndirectX) => Some(Instruction::EOR_INDX),
        (Mnemonic::EOR, AddrMode::IndirectY) => Some(Instruction::EOR_INDY),
        (Mnemonic::EOR, AddrMode::ZeroPage) => Some(Instruction::EOR_ZP),
        (Mnemonic::EOR, AddrMode::ZeroPageX) => Some(Instruction::EOR_ZPX),
        (Mnemonic::INC, AddrMode::Absolute) => Some(Instruction::INC_ABS),
        (Mnemonic::INC, AddrMode::AbsoluteX) => Some(Instruction::INC_ABSX),
        (Mnemonic::INC, AddrMode::ZeroPage) => Some(Instruction::INC_ZP),
        (Mnemonic::INC, AddrMode::ZeroPageX) => Some(Instruction::INC_ZPX),
        (Mnemonic::INX, AddrMode::Implied) => Some(Instruction::INX_IMP),
        (Mnemonic::INY, AddrMode::Implied) => Some(Instruction::INY_IMP),
        (Mnemonic::JMP, AddrMode::Absolute) => Some(Instruction::JMP_ABS),
        (Mnemonic::JMP, AddrMode::Indirect) => Some(Instruction::JMP_IND),
        (Mnemonic::JSR, AddrMode::Absolute) => Some(Instruction::JSR_ABS),
        (Mnemonic::LDA, AddrMode::Absolute) => Some(Instruction::LDA_ABS),
        (Mnemonic::LDA, AddrMode::AbsoluteX) => Some(Instruction::LDA_ABSX),
        (Mnemonic::LDA, AddrMode::AbsoluteY) => Some(Instruction::LDA_ABSY),
        (Mnemonic::LDA, AddrMode::Immediate) => Some(Instruction::LDA_IMM),
        (Mnemonic::LDA, AddrMode::IndirectX) => Some(Instruction::LDA_INDX),
        (Mnemonic::LDA, AddrMode::IndirectY) => Some(Instruction::LDA_INDY),
        (Mnemonic::LDA, AddrMode::ZeroPage) => Some(Instruction::LDA_ZP),
        (Mnemonic::LDA, AddrMode::ZeroPageX) => Some(Instruction::LDA_ZPX),
        (Mnemonic::LDX, AddrMode::Absolute) => Some(Instruction::LDX_ABS),
        (Mnemonic::LDX, AddrMode::AbsoluteY) => Some(Instruction::LDX_ABSY),
        (Mnemonic::LDX, AddrMode::Immediate) => Some(Instruction::LDX_IMM),
        (Mnemonic::LDX, AddrMode::ZeroPage) => Some(Instruction::LDX_ZP),
        (Mnemonic::LDX, AddrMode::ZeroPageY) => Some(Instruction::LDX_ZPY),
        (Mnemonic::LDY, AddrMode::Absolute) => Some(Instruction::LDY_ABS),
        (Mnemonic::LDY, AddrMode::AbsoluteX) => Some(Instruction::LDY_ABSX),
        (Mnemonic::LDY, AddrMode::Immediate) => Some(Instruction::LDY_IMM),
        (Mnemonic::LDY, AddrMode::ZeroPage) => Some(Instruction::LDY_ZP),
        (Mnemonic::LDY, AddrMode::ZeroPageX) => Some(Instruction::LDY_ZPX),
        (Mnemonic::LSR, AddrMode::Accumulator) => Some(Instruction::LSR_ACC),
        (Mnemonic::LSR, AddrMode::Absolute) => Some(Instruction::LSR_ABS),
        (Mnemonic::LSR, AddrMode::AbsoluteX) => Some(Instruction::LSR_ABSX),
        (Mnemonic::LSR, AddrMode::ZeroPage) => Some(Instruction::LSR_ZP),
        (Mnemonic::LSR, AddrMode::ZeroPageX) => Some(Instruction::LSR_ZPX),
        (Mnemonic::NOP, AddrMode::Implied) => Some(Instruction::NOP_IMP),
        (Mnemonic::ORA, AddrMode::Absolute) => Some(Instruction::ORA_ABS),
        (Mnemonic::ORA, AddrMode::AbsoluteX) => Some(Instruction::ORA_ABSX),
        (Mnemonic::ORA, AddrMode::AbsoluteY) => Some(Instruction::ORA_ABSY),
        (Mnemonic::ORA, AddrMode::Immediate) => Some(Instruction::ORA_IMM),
        (Mnemonic::ORA, AddrMode::IndirectX) => Some(Instruction::ORA_INDX),
        (Mnemonic::ORA, AddrMode::IndirectY) => Some(Instruction::ORA_INDY),
        (Mnemonic::ORA, AddrMode::ZeroPage) => Some(Instruction::ORA_ZP),
        (Mnemonic::ORA, AddrMode::ZeroPageX) => Some(Instruction::ORA_ZPX),
        (Mnemonic::PHA, AddrMode::Implied) => Some(Instruction::PHA_IMP),
        (Mnemonic::PHP, AddrMode::Implied) => Some(Instruction::PHP_IMP),
        (Mnemonic::PLA, AddrMode::Implied) => Some(Instruction::PLA_IMP),
        (Mnemonic::PLP, AddrMode::Implied) => Some(Instruction::PLP_IMP),
        (Mnemonic::ROL, AddrMode::Accumulator) => Some(Instruction::ROL_ACC),
        (Mnemonic::ROL, AddrMode::Absolute) => Some(Instruction::ROL_ABS),
        (Mnemonic::ROL, AddrMode::AbsoluteX) => Some(Instruction::ROL_ABSX),
        (Mnemonic::ROL, AddrMode::ZeroPage) => Some(Instruction::ROL_ZP),
        (Mnemonic::ROL, AddrMode::ZeroPageX) => Some(Instruction::ROL_ZPX),
        (Mnemonic::ROR, AddrMode::Accumulator) => Some(Instruction::ROR_ACC),
        (Mnemonic::ROR, AddrMode::Absolute) => Some(Instruction::ROR_ABS),
        (Mnemonic::ROR, AddrMode::AbsoluteX) => Some(Instruction::ROR_ABSX),
        (Mnemonic::ROR, AddrMode::ZeroPage) => Some(Instruction::ROR_ZP),
        (Mnemonic::ROR, AddrMode::ZeroPageX) => Some(Instruction::ROR_ZPX),
        (Mnemonic::RTI, AddrMode::Implied) => Some(Instruction::RTI_IMP),
        (Mnemonic::RTS, AddrMode::Implied) => Some(Instruction::RTS_IMP),
        (Mnemonic::SBC, AddrMode::Absolute) => Some(Instruction::SBC_ABS),
        (Mnemonic::SBC, AddrMode::AbsoluteX) => Some(Instruction::SBC_ABSX),
        (Mnemonic::SBC, AddrMode::AbsoluteY) => Some(Instruction::SBC_ABSY),
        (Mnemonic::SBC, AddrMode::Immediate) => Some(Instruction::SBC_IMM),
        (Mnemonic::SBC, AddrMode::IndirectX) => Some(Instruction::SBC_INDX),
        (Mnemonic::SBC, AddrMode::IndirectY) => Some(Instruction::SBC_INDY),
        (Mnemonic::SBC, AddrMode::ZeroPage) => Some(Instruction::SBC_ZP),
        (Mnemonic::SBC, AddrMode::ZeroPageX) => Some(Instruction::SBC_ZPX),
        (Mnemonic::SEC, AddrMode::Implied) => Some(Instruction::SEC_IMP),
        (Mnemonic::SED, AddrMode::Implied) => Some(Instruction::SED_IMP),
        (Mnemonic::SEI, AddrMode::Implied) => Some(Instruction::SEI_IMP),
        (Mnemonic::STA, AddrMode::Absolute) => Some(Instruction::STA_ABS),
        (Mnemonic::STA, AddrMode::AbsoluteX) => Some(Instruction::STA_ABSX),
        (Mnemonic::STA, AddrMode::AbsoluteY) => Some(Instruction::STA_ABSY),
        (Mnemonic::STA, AddrMode::IndirectX) => Some(Instruction::STA_INDX),
        (Mnemonic::STA, AddrMode::IndirectY) => Some(Instruction::STA_INDY),
        (Mnemonic::STA, AddrMode::ZeroPage) => Some(Instruction::STA_ZP),
        (Mnemonic::STA, AddrMode::ZeroPageX) => Some(Instruction::STA_ZPX),
        (Mnemonic::STX, AddrMode::Absolute) => Some(Instruction::STX_ABS),
        (Mnemonic::STX, AddrMode::ZeroPage) => Some(Instruction::STX_ZP),
        (Mnemonic::STX, AddrMode::ZeroPageY) => Some(Instruction::STX_ZPY),
        (Mnemonic::STY, AddrMode::Absolute) => Some(Instruction::STY_ABS),
        (Mnemonic::STY, AddrMode::ZeroPage) => Some(Instruction::STY_ZP),
        (Mnemonic::STY, AddrMode::ZeroPageX) => Some(Instruction::STY_ZPX),
        (Mnemonic::TAX, AddrMode::Implied) => Some(Instruction::TAX_IMP),
        (Mnemonic::TAY, AddrMode::Implied) => Some(Instruction::TAY_IMP),
        (Mnemonic::TSX, AddrMode::Implied) => Some(Instruction::TSX_IMP),
        (Mnemonic::TXA, AddrMode::Implied) => Some(Instruction::TXA_IMP),
        (Mnemonic::TXS, AddrMode::Implied) => Some(Instruction::TXS_IMP),
        (Mnemonic::TYA, AddrMode::Implied) => Some(Instruction::TYA_IMP),
        (Mnemonic::BVS, AddrMode::Relative) => Some(Instruction::BVS_REL),
        _ => None,
    }
}

/// The pairing that an opcode byte stands for: the inverse of [`opcode_of`].
pub open spec fn decode_spec(op: u8) -> Option<(Mnemonic, AddrMode)> {
    if exists|p: (Mnemonic, AddrMode)| #[trigger] opcode_of(p.0, p.1) == Some(op) {
        Some(choose|p: (Mnemonic, AddrMode)| #[trigger] opcode_of(p.0, p.1) == Some(op))
    } else {
        None
    }
}

/// No two pairings share an opcode.
#[verifier::rlimit(40)]
pub proof fn lemma_opcode_injective(m1: Mnemonic, a1: AddrMode, m2: Mnemonic, a2: AddrMode)
    requires
        opcode_of(m1, a1) is Some,
        opcode_of(m1, a1) == opcode_of(m2, a2),
    ensures
        m1 == m2,
        a1 == a2,
{
}

/// Every opcode lies at or below [`LAST_OPCODE`].
pub proof fn lemma_opcode_range(m: Mnemonic, a: AddrMode)
    ensures
        opcode_of(m, a) matches Some(op) ==> op <= LAST_OPCODE,
{
}

/// Decoding undoes encoding, and encoding undoes decoding.
pub proof fn lemma_decode_inverts(m: Mnemonic, a: AddrMode, op: u8)
    ensures
        opcode_of(m, a) == Some(op) <==> decode_spec(op) == Some((m, a)),
{
    if opcode_of(m, a) == Some(op) {
        let p = (m, a);
        assert(opcode_of(p.0, p.1) == Some(op));
        let q = choose|q: (Mnemonic, AddrMode)| #[trigger] opcode_of(q.0, q.1) == Some(op);
        lemma_opcode_injective(q.0, q.1, m, a);
    }
}

/// Looks an opcode byte up: the mnemonic and mode that it stands for, or `None`
/// for a byte that is not an opcode.
pub fn decode(op: u8) -> (r: Option<(Mnemonic, AddrMode)>)
    ensures
        r == decode_spec(op),
        r is Some <==> op <= LAST_OPCODE,
{
    let r = match op {
        0x00 => Some((Mnemonic::ADC, AddrMode::Immediate)),
        0x01 => Some((Mnemonic::ADC, AddrMode::Absolute)),
        0x02 => Some((Mnemonic::ADC, AddrMode::AbsoluteX)),
        0x03 => Some((Mnemonic::ADC, AddrMode::AbsoluteY)),
        0x04 => Some((Mnemonic::ADC, AddrMode::IndirectX)),
        0x05 => Some((Mnemonic::ADC, AddrMode::IndirectY)),
        0x06 => Some((Mnemonic::ADC, AddrMode::ZeroPage)),
        0x07 => Some((Mnemonic::ADC, AddrMode::ZeroPageX)),
        0x08 => Some((Mnemonic::AND, AddrMode::Absolute)),
        0x09 => Some((Mnemonic::AND, AddrMode::AbsoluteX)),
        0x0a => Some((Mnemonic::AND, AddrMode::AbsoluteY)),
        0x0b => Some((Mnemonic::AND, AddrMode::Immediate)),
        0x0c => Some((Mnemonic::AND, AddrMode::IndirectX)),
        0x0d => Some((Mnemonic::AND, AddrMode::IndirectY)),
        0x0e => Some((Mnemonic::AND, AddrMode::ZeroPage)),
        0x0f => Some((Mnemonic::AND, AddrMode::ZeroPageX)),
        0x10 => Some((Mnemonic::ASL, AddrMode::Accumulator)),
        0x11 => Some((Mnemonic::ASL, AddrMode::Absolute)),
        0x12 => Some((Mnemonic::ASL, AddrMode::AbsoluteX)),
        0x13 => Some((Mnemonic::ASL, AddrMode::ZeroPage)),
        0x14 => Some((Mnemonic::ASL, AddrMode::ZeroPageX)),
        0x15 => Some((Mnemonic::BCC, AddrMode::Relative)),
        0x16 => Some((Mnemonic::BCS, AddrMode::Relative)),
        0x17 => Some((Mnemonic::BEQ, AddrMode::Relative)),
        0x18 => Some((Mnemonic::BIT, AddrMode::Absolute)),
        0x19 => Some((Mnemonic::BIT, AddrMode::ZeroPage)),
        0x1a => Some((Mnemonic::BMI, AddrMode::Relative)),
        0x1b => Some((Mnemonic::BNE, AddrMode::Relative)),
        0x1c => Some((Mnemonic::BPL, AddrMode::Relative)),
        0x1d => Some((Mnemonic::BRK, AddrMode::Implied)),
        0x1e => Some((Mnemonic::BVC, AddrMode::Relative)),
        0x1f => Some((Mnemonic::CLC, AddrMode::Implied)),
        0x20 => Some((Mnemonic::CLD, AddrMode::Implied)),
        0x21 => Some((Mnemonic::CLI, AddrMode::Implied)),
        0x22 => Some((Mnemonic::CLV, AddrMode::Implied)),
        0x23 => Some((Mnemonic::CMP, AddrMode::Absolute)),
        0x24 => Some((Mnemonic::CMP, AddrMode::AbsoluteX)),
        0x25 => Some((Mnemonic::CMP, AddrMode::AbsoluteY)),
        0x26 => Some((Mnemonic::CMP, AddrMode::Immediate)),
        0x27 => Some((Mnemonic::CMP, AddrMode::IndirectX)),
        0x28 => Some((Mnemonic::CMP, AddrMode::IndirectY)),
        0x29 => Some((Mnemonic::CMP, AddrMode::ZeroPage)),
        0x2a => Some((Mnemonic::CMP, AddrMode::ZeroPageX)),
        0x2b => Some((Mnemonic::CPX, AddrMode::Absolute)),
        0x2c => Some((Mnemonic::CPX, AddrMode::Immediate)),
        0x2d => Some((Mnemonic::CPX, AddrMode::ZeroPage)),
        0x2e => Some((Mnemonic::CPY, AddrMode::Absolute)),
        0x2f => Some((Mnemonic::CPY, AddrMode::Immediate)),
        0x30 => Some((Mnemonic::CPY, AddrMode::ZeroPage)),
        0x31 => Some((Mnemonic::DEC, AddrMode::Absolute)),
        0x32 => Some((Mnemonic::DEC, AddrMode::AbsoluteX)),
        0x33 => Some((Mnemonic::DEC, AddrMode::ZeroPage)),
        0x34 => Some((Mnemonic::DEC, AddrMode::ZeroPageX)),
        0x35 => Some((Mnemonic::DEX, AddrMode::Implied)),
        0x36 => Some((Mnemonic::DEY, AddrMode::Implied)),
        0x37 => Some((Mnemonic::EOR, AddrMode::Absolute)),
        0x38 => Some((Mnemonic::EOR, AddrMode::AbsoluteX)),
        0x39 => Some((Mnemonic::EOR, AddrMode::AbsoluteY)),
        0x3a => Some((Mnemonic::EOR, AddrMode::Immediate)),
        0x3b => Some((Mnemonic::EOR, AddrMode::IndirectX)),
        0x3c => Some((Mnemonic::EOR, AddrMode::IndirectY)),
        0x3d => Some((Mnemonic::EOR, AddrMode::ZeroPage)),
        0x3e => Some((Mnemonic::EOR, AddrMode::ZeroPageX)),
        0x3f => Some((Mnemonic::INC, AddrMode::Absolute)),
        0x40 => Some((Mnemonic::INC, AddrMode::AbsoluteX)),
        0x41 => Some((Mnemonic::INC, AddrMode::ZeroPage)),
        0x42 => Some((Mnemonic::INC, AddrMode::ZeroPageX)),
        0x43 => Some((Mnemonic::INX, AddrMode::Implied)),
        0x44 => Some((Mnemonic::INY, AddrMode::Implied)),
        0x45 => Some((Mnemonic::JMP, AddrMode::Absolute)),
        0x46 => Some((Mnemonic::JMP, AddrMode::Indirect)),
        0x47 => Some((Mnemonic::JSR, AddrMode::Absolute)),
        0x48 => Some((Mnemonic::LDA, AddrMode::Absolute)),
        0x49 => Some((Mnemonic::LDA, AddrMode::AbsoluteX)),
        0x4a => Some((Mnemonic::LDA, AddrMode::AbsoluteY)),
        0x4b => Some((Mnemonic::LDA, AddrMode::Immediate)),
        0x4c => Some((Mnemonic::LDA, AddrMode::IndirectX)),
        0x4d => Some((Mnemonic::LDA, AddrMode::IndirectY)),
        0x4e => Some((Mnemonic::LDA, AddrMode::ZeroPage)),
        0x4f => Some((Mnemonic::LDA, AddrMode::ZeroPageX)),
        0x50 => Some((Mnemonic::LDX, AddrMode::Absolute)),
        0x51 => Some((Mnemonic::LDX, AddrMode::AbsoluteY)),
        0x52 => Some((Mnemonic::LDX, AddrMode::Immediate)),
        0x53 => Some((Mnemonic::LDX, AddrMode::ZeroPage)),
        0x54 => Some((Mnemonic::LDX, AddrMode::ZeroPageY)),
        0x55 => Some((Mnemonic::LDY, AddrMode::Absolute)),
        0x56 => Some((Mnemonic::LDY, AddrMode::AbsoluteX)),
        0x57 => Some((Mnemonic::LDY, AddrMode::Immediate)),
        0x58 => Some((Mnemonic::LDY, AddrMode::ZeroPage)),
        0x59 => Some((Mnemonic::LDY, AddrMode::ZeroPageX)),
        0x5a => Some((Mnemonic::LSR, AddrMode::Accumulator)),
        0x5b => Some((Mnemonic::LSR, AddrMode::Absolute)),
        0x5c => Some((Mnemonic::LSR, AddrMode::AbsoluteX)),
        0x5d => Some((Mnemonic::LSR, AddrMode::ZeroPage)),
        0x5e => Some((Mnemonic::LSR, AddrMode::ZeroPageX)),
        0x5f => Some((Mnemonic::NOP, AddrMode::Implied)),
        0x60 => Some((Mnemonic::ORA, AddrMode::Absolute)),
        0x61 => Some((Mnemonic::ORA, AddrMode::AbsoluteX)),
        0x62 => Some((Mnemonic::ORA, AddrMode::AbsoluteY)),
        0x63 => Some((Mnemonic::ORA, AddrMode::Immediate)),
        0x64 => Some((Mnemonic::ORA, AddrMode::IndirectX)),
        0x65 => Some((Mnemonic::ORA, AddrMode::IndirectY)),
        0x66 => Some((Mnemonic::ORA, AddrMode::ZeroPage)),
        0x67 => Some((Mnemonic::ORA, AddrMode::ZeroPageX)),
        0x68 => Some((Mnemonic::PHA, AddrMode::Implied)),
        0x69 => Some((Mnemonic::PHP, AddrMode::Implied)),
        0x6a => Some((Mnemonic::PLA, AddrMode::Implied)),
        0x6b => Some((Mnemonic::PLP, AddrMode::Implied)),
        0x6c => Some((Mnemonic::ROL, AddrMode::Accumulator)),
        0x6d => Some((Mnemonic::ROL, AddrMode::Absolute)),
        0x6e => Some((Mnemonic::ROL, AddrMode::AbsoluteX)),
        0x6f => Some((Mnemonic::ROL, AddrMode::ZeroPage)),
        0x70 => Some((Mnemonic::ROL, AddrMode::ZeroPageX)),
        0x71 => Some((Mnemonic::ROR, AddrMode::Accumulator)),
        0x72 => Some((Mnemonic::ROR, AddrMode::Absolute)),
        0x73 => Some((Mnemonic::ROR, AddrMode::AbsoluteX)),
        0x74 => Some((Mnemonic::ROR, AddrMode::ZeroPage)),
        0x75 => Some((Mnemonic::ROR, AddrMode::ZeroPageX)),
        0x76 => Some((Mnemonic::RTI, AddrMode::Implied)),
        0x77 => Some((Mnemonic::RTS, AddrMode::Implied)),
        0x78 => Some((Mnemonic::SBC, AddrMode::Absolute)),
        0x79 => Some((Mnemonic::SBC, AddrMode::AbsoluteX)),
        0x7a => Some((Mnemonic::SBC, AddrMode::AbsoluteY)),
        0x7b => Some((Mnemonic::SBC, AddrMode::Immediate)),
        0x7c => Some((Mnemonic::SBC, AddrMode::IndirectX)),
        0x7d => Some((Mnemonic::SBC, AddrMode::IndirectY)),
        0x7e => Some((Mnemonic::SBC, AddrMode::ZeroPage)),
        0x7f => Some((Mnemonic::SBC, AddrMode::ZeroPageX)),
        0x80 => Some((Mnemonic::SEC, AddrMode::Implied)),
        0x81 => Some((Mnemonic::SED, AddrMode::Implied)),
        0x82 => Some((Mnemonic::SEI, AddrMode::Implied)),
        0x83 => Some((Mnemonic::STA, AddrMode::Absolute)),
        0x84 => Some((Mnemonic::STA, AddrMode::AbsoluteX)),
        0x85 => Some((Mnemonic::STA, AddrMode::AbsoluteY)),
        0x86 => Some((Mnemonic::STA, AddrMode::IndirectX)),
        0x87 => Some((Mnemonic::STA, AddrMode::IndirectY)),
        0x88 => Some((Mnemonic::STA, AddrMode::ZeroPage)),
        0x89 => Some((Mnemonic::STA, AddrMode::ZeroPageX)),
        0x8a => Some((Mnemonic::STX, AddrMode::Absolute)),
        0x8b => Some((Mnemonic::STX, AddrMode::ZeroPage)),
        0x8c => Some((Mnemonic::STX, AddrMode::ZeroPageY)),
        0x8d => Some((Mnemonic::STY, AddrMode::Absolute)),
        0x8e => Some((Mnemonic::STY, AddrMode::ZeroPage)),
        0x8f => Some((Mnemonic::STY, AddrMode::ZeroPageX)),
        0x90 => Some((Mnemonic::TAX, AddrMode::Implied)),
        0x91 => Some((Mnemonic::TAY, AddrMode::Implied)),
        0x92 => Some((Mnemonic::TSX, AddrMode::Implied)),
        0x93 => Some((Mnemonic::TXA, AddrMode::Implied)),
        0x94 => Some((Mnemonic::TXS, AddrMode::Implied)),
        0x95 => Some((Mnemonic::TYA, AddrMode::Implied)),
        0x96 => Some((Mnemonic::BVS, AddrMode::Relative)),
        _ => None,
    };
    proof {
        match r {
            Some((m, a)) => {
                assert(opcode_of(m, a) == Some(op));
                lemma_decode_inverts(m, a, op);
            },
            None => {
                assert forall|p: (Mnemonic, AddrMode)| #[trigger]
                    opcode_of(p.0, p.1) != Some(op) by {
                    lemma_opcode_range(p.0, p.1);
                }
            },
        }
    }
    r
}

/// The opcode byte for a mnemonic in an addressing mode, or `None` where the
/// mnemonic does not support the mode. Found by searching the decoder, so that
/// the table is written down once.
pub fn encode(m: Mnemonic, a: AddrMode) -> (r: Option<u8>)
    ensures
        r == opcode_of(m, a),
{
    let mut op: u8 = 0;
    while op <= LAST_OPCODE
        invariant
            op <= LAST_OPCODE + 1,
            forall|k: u8| k < op ==> decode_spec(k) != Some((m, a)),
        decreases LAST_OPCODE + 1 - op,
    {
        match decode(op) {
            Some((dm, da)) => {
                if dm == m && da == a {
                    proof {
                        lemma_decode_inverts(m, a, op);
                    }
                    return Some(op);
                }
            },
            None => {},
        }
        op += 1;
    }
    proof {
        if let Some(v) = opcode_of(m, a) {
            lemma_opcode_range(m, a);
            lemma_decode_inverts(m, a, v);
        }
    }
    None
}

} // verus!
