use e6502::assembler::{
    address_of, address_of_offset, assemble, branch_operand, classify_tokens, encode_instruction,
    encode_tokens, find_symbol, layout_labels, read_operand_value, resolve_labels, AsmErrorKind,
};
use e6502::cpu::Cpu;
use e6502::isa::{decode, AddrMode, Instruction, Mode, LAST_OPCODE};
use e6502::lexer::{
    chars_of, push_token, scan_source, token_at, type_at, Lexer, Symbol, Token, TokenType,
};
use e6502::machine::{BREAK, ORIGIN};
use e6502::mode::{infer_mode, read_operand, type_ahead, Operand};
use e6502::numeral::{digit_of, hex_string, is_hex, parse_digits, parse_number};

fn lexed(source: &str) -> Lexer {
    let mut lexer = Lexer::new();
    lexer.tokenize(source.to_string());
    lexer
}

fn classified(source: &str) -> Vec<Token> {
    classify_tokens(&lexed(source).tokens)
}

fn shape(tokens: &Vec<Token>) -> Vec<(TokenType, String, u32)> {
    tokens.iter().map(|t| (t.ttype, t.tstring.clone(), t.line_no)).collect()
}

fn tok(ttype: TokenType, text: &str, line_no: u32) -> (TokenType, String, u32) {
    (ttype, text.to_string(), line_no)
}

fn mode_of(source: &str) -> Option<AddrMode> {
    infer_mode(&classified(source), 0)
}

fn loaded(program: &Vec<u8>) -> Cpu {
    let mut cpu = Cpu { a: 0, x: 0, y: 0, sp: 0xff, pc: 0x600, sr: 0, mem: [0; 1 << 16] };
    assert!(cpu.load(program));
    cpu
}

#[test]
fn scanner_gives_punctuation_runs_and_eof() {
    let lexer = lexed("LDA #$10 ; load\nloop:\n  STA $0200,X\n");
    assert_eq!(
        shape(&lexer.tokens),
        vec![
            tok(TokenType::UNKNOWN, "LDA", 1),
            tok(TokenType::HASH, "#", 1),
            tok(TokenType::DOLLAR, "$", 1),
            tok(TokenType::UNKNOWN, "10", 1),
            tok(TokenType::UNKNOWN, "loop", 2),
            tok(TokenType::COLON, ":", 2),
            tok(TokenType::UNKNOWN, "STA", 3),
            tok(TokenType::DOLLAR, "$", 3),
            tok(TokenType::UNKNOWN, "0200", 3),
            tok(TokenType::COMMA, ",", 3),
            tok(TokenType::REGX, "X", 3),
            tok(TokenType::EOF, "", 4),
        ]
    );
    assert_eq!(lexer.current_token, 0);
    assert!(lexer.labels.is_empty());
}

#[test]
fn scanner_on_an_empty_source() {
    assert_eq!(shape(&lexed("").tokens), vec![tok(TokenType::EOF, "", 1)]);
    assert_eq!(shape(&lexed("\n\n\n").tokens), vec![tok(TokenType::EOF, "", 4)]);
    assert_eq!(shape(&lexed("; only a comment").tokens), vec![tok(TokenType::EOF, "", 1)]);
}

#[test]
fn scanner_ends_a_run_at_a_comment() {
    assert_eq!(
        shape(&lexed("NOP;x\nRTS").tokens),
        vec![
            tok(TokenType::UNKNOWN, "NOP", 1),
            tok(TokenType::UNKNOWN, "RTS", 2),
            tok(TokenType::EOF, "", 2),
        ]
    );
}

#[test]
fn scanner_takes_all_white_space() {
    assert_eq!(
        shape(&lexed("\tLDA\t%101\r\n\r\n(  )").tokens),
        vec![
            tok(TokenType::UNKNOWN, "LDA", 1),
            tok(TokenType::PERCENT, "%", 1),
            tok(TokenType::UNKNOWN, "101", 1),
            tok(TokenType::BRACKETOPEN, "(", 3),
            tok(TokenType::BRACKETCLOSE, ")", 3),
            tok(TokenType::EOF, "", 3),
        ]
    );
}

#[test]
fn scanner_knows_the_index_registers() {
    assert_eq!(
        shape(&lexed("$1,x $1, y (2),Y x1 INX xy ,Xa").tokens),
        vec![
            tok(TokenType::DOLLAR, "$", 1),
            tok(TokenType::UNKNOWN, "1", 1),
            tok(TokenType::COMMA, ",", 1),
            tok(TokenType::REGX, "X", 1),
            tok(TokenType::DOLLAR, "$", 1),
            tok(TokenType::UNKNOWN, "1", 1),
            tok(TokenType::COMMA, ",", 1),
            tok(TokenType::REGY, "Y", 1),
            tok(TokenType::BRACKETOPEN, "(", 1),
            tok(TokenType::UNKNOWN, "2", 1),
            tok(TokenType::BRACKETCLOSE, ")", 1),
            tok(TokenType::COMMA, ",", 1),
            tok(TokenType::REGY, "Y", 1),
            tok(TokenType::UNKNOWN, "x1", 1),
            tok(TokenType::UNKNOWN, "INX", 1),
            tok(TokenType::UNKNOWN, "xy", 1),
            tok(TokenType::COMMA, ",", 1),
            tok(TokenType::UNKNOWN, "Xa", 1),
            tok(TokenType::EOF, "", 1),
        ]
    );
    // A lone X at the very start follows neither white space nor a comma.
    assert_eq!(
        shape(&lexed("X").tokens),
        vec![tok(TokenType::UNKNOWN, "X", 1), tok(TokenType::EOF, "", 1)]
    );
    assert_eq!(
        shape(&lexed("(y").tokens),
        vec![
            tok(TokenType::BRACKETOPEN, "(", 1),
            tok(TokenType::UNKNOWN, "y", 1),
            tok(TokenType::EOF, "", 1)
        ]
    );
}

#[test]
fn tokenize_appends_and_rewinds() {
    let mut lexer = lexed("NOP");
    lexer.step();
    lexer.tokenize("RTS".to_string());
    assert_eq!(
        shape(&lexer.tokens),
        vec![
            tok(TokenType::UNKNOWN, "NOP", 1),
            tok(TokenType::EOF, "", 1),
            tok(TokenType::UNKNOWN, "RTS", 1),
            tok(TokenType::EOF, "", 1),
        ]
    );
    assert_eq!(lexer.current_token, 0);
    let mut tokens = Vec::new();
    scan_source("é:", &mut tokens);
    assert_eq!(
        shape(&tokens),
        vec![
            tok(TokenType::UNKNOWN, "é", 1),
            tok(TokenType::COLON, ":", 1),
            tok(TokenType::EOF, "", 1)
        ]
    );
    assert_eq!(chars_of("aé$"), vec!['a', 'é', '$']);
}

#[test]
fn cursor_moves_over_the_tokens() {
    let mut lexer = lexed("LDA #5");
    assert!(lexer.previous().is_none());
    assert_eq!(lexer.current().unwrap().tstring, "LDA");
    assert_eq!(lexer.next().unwrap().ttype, TokenType::HASH);
    assert_eq!(lexer.nextx(2).unwrap().tstring, "5");
    assert_eq!(lexer.nextx(3).unwrap().ttype, TokenType::EOF);
    assert!(lexer.nextx(4).is_none());
    assert!(lexer.nextx(usize::MAX).is_none());
    lexer.step();
    assert_eq!(lexer.previous().unwrap().tstring, "LDA");
    assert_eq!(lexer.current().unwrap().ttype, TokenType::HASH);
    lexer.stepx(3);
    assert_eq!(lexer.current_token, 4);
    assert_eq!(lexer.previous().unwrap().ttype, TokenType::EOF);
    assert!(lexer.current().is_none());
    assert!(lexer.next().is_none());
    lexer.step();
    assert!(lexer.previous().is_none());
    assert_eq!(token_at(&lexer.tokens, 1).unwrap().ttype, TokenType::HASH);
    assert!(token_at(&lexer.tokens, 4).is_none());
    assert_eq!(type_at(&lexer.tokens, 0), Some(TokenType::UNKNOWN));
    assert_eq!(type_at(&lexer.tokens, 9), None);
    assert_eq!(type_ahead(&lexer.tokens, 1, 2), Some(TokenType::EOF));
    assert_eq!(type_ahead(&lexer.tokens, 1, usize::MAX), None);
}

#[test]
fn classifying_settles_unknown_tokens() {
    assert_eq!(
        shape(&classified("lda beef\nbeef: JmP there\nDEC: 12g")),
        vec![
            tok(TokenType::INSTRUCTION, "LDA", 1),
            tok(TokenType::NUMBER, "beef", 1),
            tok(TokenType::LABEL, "beef", 2),
            tok(TokenType::COLON, ":", 2),
            tok(TokenType::INSTRUCTION, "JMP", 2),
            tok(TokenType::UNKNOWN, "there", 2),
            tok(TokenType::INSTRUCTION, "DEC", 3),
            tok(TokenType::COLON, ":", 3),
            tok(TokenType::UNKNOWN, "12g", 3),
            tok(TokenType::EOF, "", 3),
        ]
    );
}

#[test]
fn modes_by_operand_syntax() {
    assert_eq!(mode_of("NOP"), Some(AddrMode::Implied));
    assert_eq!(mode_of("NOP\nRTS"), Some(AddrMode::Implied));
    assert_eq!(mode_of("NOP\nhere:"), Some(AddrMode::Implied));
    assert_eq!(mode_of("LDA #$10"), Some(AddrMode::Immediate));
    assert_eq!(mode_of("LDA #%1010"), Some(AddrMode::Immediate));
    assert_eq!(mode_of("LDA #10"), Some(AddrMode::Immediate));
    assert_eq!(mode_of("BNE $05"), Some(AddrMode::Relative));
    assert_eq!(mode_of("bvs there"), Some(AddrMode::Relative));
    assert_eq!(mode_of("JMP ($1234)"), Some(AddrMode::Indirect));
    assert_eq!(mode_of("JMP (there)"), Some(AddrMode::Indirect));
    assert_eq!(mode_of("LDA ($10,X)"), Some(AddrMode::IndirectX));
    assert_eq!(mode_of("LDA ($10),Y"), Some(AddrMode::IndirectY));
    assert_eq!(mode_of("LDA $10"), Some(AddrMode::ZeroPage));
    assert_eq!(mode_of("LDA $10,X"), Some(AddrMode::ZeroPageX));
    assert_eq!(mode_of("LDX $10,Y"), Some(AddrMode::ZeroPageY));
    assert_eq!(mode_of("LDA $1234"), Some(AddrMode::Absolute));
    assert_eq!(mode_of("LDA $1234,x"), Some(AddrMode::AbsoluteX));
    assert_eq!(mode_of("LDA $1234, y"), Some(AddrMode::AbsoluteY));
    assert_eq!(mode_of("JMP there"), Some(AddrMode::Absolute));
    assert_eq!(mode_of("LDA there,X"), Some(AddrMode::AbsoluteX));
    assert_eq!(mode_of("LDA there,Y"), Some(AddrMode::AbsoluteY));
}

#[test]
fn modes_by_operand_width() {
    assert_eq!(mode_of("LDA $ff"), Some(AddrMode::ZeroPage));
    assert_eq!(mode_of("LDA $100"), Some(AddrMode::Absolute));
    assert_eq!(mode_of("LDA $0010"), Some(AddrMode::Absolute));
    assert_eq!(mode_of("LDA $010"), Some(AddrMode::Absolute));
    assert_eq!(mode_of("LDA 255"), Some(AddrMode::ZeroPage));
    assert_eq!(mode_of("LDA 256"), Some(AddrMode::Absolute));
    assert_eq!(mode_of("LDA 0255"), Some(AddrMode::Absolute));
    assert_eq!(mode_of("LDA %11111111"), Some(AddrMode::ZeroPage));
    assert_eq!(mode_of("LDA %100000000"), Some(AddrMode::Absolute));
    assert_eq!(mode_of("LDA %011111111"), Some(AddrMode::Absolute));
}

#[test]
fn modes_that_fit_nothing() {
    assert_eq!(mode_of("LDA $10,"), None);
    assert_eq!(mode_of("LDA $10,5"), None);
    assert_eq!(mode_of("LDA $"), None);
    assert_eq!(mode_of("LDA $zz"), None);
    assert_eq!(mode_of("LDA $10000"), None);
    assert_eq!(mode_of("LDA 65536"), None);
    assert_eq!(mode_of("LDA ff"), None);
    assert_eq!(mode_of("LDA %2"), None);
    assert_eq!(mode_of("LDA :"), None);
    assert_eq!(mode_of("LDA ,X"), None);
    assert_eq!(mode_of("LDA )"), None);
    assert_eq!(mode_of("LDA ($10"), None);
    assert_eq!(mode_of("LDA ($10,Y)"), None);
    assert_eq!(mode_of("LDA ($10),X"), None);
    assert_eq!(mode_of("LDA ($10,X"), None);
    assert_eq!(mode_of("LDA ()"), None);
}

#[test]
fn next_mode_reports_the_code() {
    let mut lexer = lexed("LDA $10,X\nJSR there\nASL $10,");
    lexer.tokens = classify_tokens(&lexer.tokens);
    assert_eq!(lexer.next_mode(), Mode::ZPX);
    lexer.stepx(5);
    assert_eq!(lexer.current().unwrap().tstring, "JSR");
    assert_eq!(lexer.next_mode(), Mode::ABS);
    lexer.stepx(2);
    assert_eq!(lexer.next_mode(), Mode::UNKNOWN);
    lexer.stepx(100);
    assert_eq!(lexer.next_mode(), Mode::IMP);
    let mut accumulator = Vec::new();
    push_token(&mut accumulator, TokenType::INSTRUCTION, "ASL", 1);
    push_token(&mut accumulator, TokenType::REGA, "A", 1);
    assert_eq!(infer_mode(&accumulator, 0), Some(AddrMode::Accumulator));
}

#[test]
fn operands_are_read_in_their_radix() {
    let tokens = classified("$1f %101 42 $0012 65535 $");
    assert_eq!(
        read_operand(&tokens, 0),
        Some(Operand { value: 0x1f, wide: false, label: false, span: 2 })
    );
    assert_eq!(
        read_operand(&tokens, 2),
        Some(Operand { value: 5, wide: false, label: false, span: 2 })
    );
    assert_eq!(
        read_operand(&tokens, 4),
        Some(Operand { value: 42, wide: false, label: false, span: 1 })
    );
    assert_eq!(
        read_operand(&tokens, 5),
        Some(Operand { value: 0x12, wide: true, label: false, span: 2 })
    );
    assert_eq!(
        read_operand(&tokens, 7),
        Some(Operand { value: 65535, wide: true, label: false, span: 1 })
    );
    assert_eq!(read_operand(&tokens, 8), None);
    assert_eq!(read_operand(&tokens, 9), None);
    assert_eq!(read_operand(&tokens, 100), None);
    let mut label = Vec::new();
    push_token(&mut label, TokenType::LABEL_OPERAND, "60a", 1);
    push_token(&mut label, TokenType::LABEL_OPERAND, "60g", 1);
    assert_eq!(
        read_operand(&label, 0),
        Some(Operand { value: 0x60a, wide: true, label: true, span: 1 })
    );
    assert_eq!(read_operand(&label, 1), None);
}

#[test]
fn lexer_reads_the_operand_after_the_cursor() {
    let mut lexer = lexed("LDA #$12 STA $1234 x");
    lexer.tokens = classify_tokens(&lexer.tokens);
    // The token after the cursor is `#`, whose text is no number.
    assert_eq!(lexer.get_operand_u16(), None);
    lexer.step();
    assert_eq!(lexer.get_operand_u8(), Some(0x12));
    assert_eq!(lexer.get_operand_u16(), Some(0x12));
    lexer.stepx(3);
    assert_eq!(lexer.current().unwrap().tstring, "STA");
    assert_eq!(lexer.get_operand_u8(), None);
    assert_eq!(lexer.get_operand_u16(), Some(0x1234));
    lexer.stepx(50);
    assert_eq!(lexer.get_operand_u16(), None);
    lexer.current_token = usize::MAX;
    assert_eq!(lexer.get_operand_u8(), None);
}

#[test]
fn operand_readers_take_the_text_of_any_token() {
    // Straight after scanning every run is still UNKNOWN.
    let lexer = lexed("LDA $10");
    assert_eq!(lexer.tokens[2].ttype, TokenType::UNKNOWN);
    assert_eq!(lexer.get_operand_u8(), Some(0x10));
    assert_eq!(lexer.get_operand_u16(), Some(0x10));
    let lexer = lexed("LDA 12");
    assert_eq!(lexer.tokens[1].ttype, TokenType::UNKNOWN);
    assert_eq!(lexer.get_operand_u8(), Some(12));
    let lexer = lexed("LDA %101");
    assert_eq!(lexer.get_operand_u8(), Some(5));
    let lexer = lexed("LDA $ffff");
    assert_eq!(lexer.get_operand_u8(), None);
    assert_eq!(lexer.get_operand_u16(), Some(0xffff));
    // A bare numeral is decimal, whatever it looks like.
    assert_eq!(lexed("LDA ff").get_operand_u16(), None);
    assert_eq!(lexed("LDA 256").get_operand_u8(), None);
    assert_eq!(lexed("LDA 256").get_operand_u16(), Some(256));
    assert_eq!(lexed("LDA +7").get_operand_u8(), Some(7));
    assert_eq!(lexed("LDA $+7f").get_operand_u8(), Some(0x7f));
    // Nothing after the prefix, or nothing at all.
    assert_eq!(lexed("LDA").get_operand_u16(), None);
    let mut tokens = Vec::new();
    push_token(&mut tokens, TokenType::INSTRUCTION, "LDA", 1);
    push_token(&mut tokens, TokenType::DOLLAR, "$", 1);
    assert_eq!(read_operand_value(&tokens, 1), None);
    assert_eq!(read_operand_value(&tokens, 2), None);
    // The token after `$` is read whatever its class, and so is a bare one.
    push_token(&mut tokens, TokenType::COMMA, "2a", 1);
    assert_eq!(read_operand_value(&tokens, 1), Some(0x2a));
    push_token(&mut tokens, TokenType::REGX, "31", 1);
    assert_eq!(read_operand_value(&tokens, 3), Some(31));
    push_token(&mut tokens, TokenType::PERCENT, "%", 1);
    push_token(&mut tokens, TokenType::LABEL, "11", 1);
    assert_eq!(read_operand_value(&tokens, 4), Some(3));
    push_token(&mut tokens, TokenType::LABEL_OPERAND, "60a", 1);
    assert_eq!(read_operand_value(&tokens, 6), Some(0x60a));
    push_token(&mut tokens, TokenType::LABEL_OPERAND, "+10", 1);
    assert_eq!(read_operand_value(&tokens, 7), Some(0x10));
    assert_eq!(address_of_offset(0x0a), 0x60a);
    assert_eq!(address_of_offset(0xfa00), 0);
}

#[test]
fn numbers_are_parsed_with_bounds() {
    assert_eq!(parse_number("ff", 16), Some(255));
    assert_eq!(parse_number("FFFF", 16), Some(65535));
    assert_eq!(parse_number("10000", 16), None);
    assert_eq!(parse_number("0000000000000000001", 16), Some(1));
    assert_eq!(parse_number("", 10), None);
    assert_eq!(parse_number("12a", 10), None);
    assert_eq!(parse_number("65535", 10), Some(65535));
    assert_eq!(parse_number("65536", 10), None);
    assert_eq!(parse_number("99999999999999999999", 10), None);
    assert_eq!(parse_number("101", 2), Some(5));
    assert_eq!(parse_number("2", 2), None);
    assert_eq!(parse_number("+5", 10), Some(5));
    assert_eq!(parse_number("+ff", 16), Some(255));
    assert_eq!(parse_number("+65536", 10), None);
    assert_eq!(parse_number("+", 10), None);
    assert_eq!(parse_number("++5", 10), None);
    assert_eq!(parse_number("5+", 10), None);
    assert_eq!(parse_number("-5", 10), None);
    assert_eq!(parse_digits("+5", 10), None);
    assert_eq!(parse_digits("101", 2), Some(5));
    assert_eq!(digit_of('7', 10), Some(7));
    assert_eq!(digit_of('a', 16), Some(10));
    assert_eq!(digit_of('F', 16), Some(15));
    assert_eq!(digit_of('a', 10), None);
    assert_eq!(digit_of('g', 16), None);
    assert_eq!(digit_of('1', 2), Some(1));
    assert!(is_hex("0aF9"));
    assert!(!is_hex(""));
    assert!(!is_hex("0x10"));
}

#[test]
fn addresses_are_written_in_hexadecimal() {
    assert_eq!(hex_string(0), "0");
    assert_eq!(hex_string(0xf), "f");
    assert_eq!(hex_string(0x10), "10");
    assert_eq!(hex_string(0x607), "607");
    assert_eq!(hex_string(0x1000), "1000");
    assert_eq!(hex_string(0xabcd), "abcd");
    assert_eq!(hex_string(0xffff), "ffff");
    for v in 0..=65535u16 {
        let text = hex_string(v);
        assert_eq!(text, format!("{:x}", v));
        assert_eq!(parse_number(&text, 16), Some(v));
    }
}

#[test]
fn branch_operands() {
    assert_eq!(branch_operand(0x60d, 0x60a), Some(0xfd));
    assert_eq!(branch_operand(0x604, 0x606), Some(0x02));
    assert_eq!(branch_operand(0x604, 0x604), Some(0x00));
    assert_eq!(branch_operand(0x700, 0x77f), Some(0x7f));
    assert_eq!(branch_operand(0x700, 0x780), None);
    assert_eq!(branch_operand(0x700, 0x680), Some(0x80));
    assert_eq!(branch_operand(0x700, 0x67f), None);
    assert_eq!(branch_operand(0xfffe, 0x0010), Some(0x12));
    assert_eq!(branch_operand(0x0010, 0xfffe), Some(0xee));
    assert_eq!(address_of(0), 0x600);
    assert_eq!(address_of(0x0a), 0x60a);
    assert_eq!(address_of(0xfa00), 0x0000);
    assert_eq!(address_of(65536), 0x600);
}

#[test]
fn assembles_a_program_with_labels() {
    let source = "start:\n    LDX #$03\n    JMP skip\n    LDX #$07\nskip:\n    STX $0200\nloop:\n    DEX\n    BNE loop\n    BRK\n";
    let program = assemble(source).unwrap();
    assert_eq!(
        program,
        vec![0x52, 0x03, 0x45, 0x06, 0x07, 0x52, 0x07, 0x8a, 0x02, 0x00, 0x35, 0x1b, 0xfd, 0x1d]
    );
}

#[test]
fn jump_lands_on_a_forward_label() {
    let source = "start:\n    LDX #$03\n    JMP skip\n    LDX #$07\nskip:\n    STX $0200\nloop:\n    DEX\n    BNE loop\n    BRK\n";
    let mut lexer = lexed(source);
    let program = lexer.parse().unwrap();
    let skip = find_symbol(&lexer.labels, &"skip".to_string()).unwrap();
    let back = find_symbol(&lexer.labels, &"loop".to_string()).unwrap();
    assert_eq!(find_symbol(&lexer.labels, &"start".to_string()), Some(0));
    assert_eq!((skip, back), (0x007, 0x00a));
    assert_eq!(find_symbol(&lexer.labels, &"nowhere".to_string()), None);
    let mut cpu = loaded(&program);
    cpu.step().unwrap();
    assert_eq!(cpu.pc, 0x602);
    cpu.step().unwrap();
    // The jump lands on the first byte of the instruction after the label.
    assert_eq!(cpu.pc, ORIGIN + skip);
    assert_eq!(cpu.mem[cpu.pc as usize], Instruction::STX_ABS);
    cpu.step().unwrap();
    assert_eq!(cpu.mem[0x0200], 0x03);
    assert_eq!(cpu.pc, ORIGIN + back);
    for remaining in [2u8, 1] {
        cpu.step().unwrap();
        assert_eq!(cpu.x, remaining);
        cpu.step().unwrap();
        // The branch lands on the first byte of the instruction after the label.
        assert_eq!(cpu.pc, ORIGIN + back);
        assert_eq!(cpu.mem[cpu.pc as usize], Instruction::DEX_IMP);
    }
    cpu.step().unwrap();
    cpu.step().unwrap();
    assert_eq!((cpu.x, cpu.pc), (0, 0x60d));
    cpu.step().unwrap();
    assert_eq!(cpu.sr & BREAK, BREAK);
    assert_eq!(cpu.pc as usize, 0x600 + program.len());
}

#[test]
fn branch_lands_on_a_forward_label() {
    let program = assemble("  LDA #$00\n  BEQ done\n  LDA #$01\ndone:\n  STA $10\n").unwrap();
    assert_eq!(program, vec![0x4b, 0x00, 0x17, 0x02, 0x4b, 0x01, 0x88, 0x10]);
    let mut cpu = loaded(&program);
    cpu.step().unwrap();
    cpu.step().unwrap();
    assert_eq!(cpu.pc, 0x606);
    assert_eq!(cpu.mem[cpu.pc as usize], Instruction::STA_ZP);
}

#[test]
fn subroutine_through_labels() {
    let program =
        assemble("  JSR work\n  LDY #$02\n  JMP end\nwork:\n  LDX #$01\n  RTS\nend:\n  NOP").unwrap();
    let mut cpu = loaded(&program);
    for _ in 0..5 {
        cpu.step().unwrap();
    }
    assert_eq!((cpu.x, cpu.y, cpu.sp), (1, 2, 0xff));
    assert_eq!(cpu.mem[cpu.pc as usize], Instruction::NOP_IMP);
    assert_eq!(cpu.pc as usize, 0x600 + program.len() - 1);
}

#[test]
fn parse_leaves_the_settled_tokens() {
    let mut lexer = lexed("top: jmp top");
    lexer.labels.push(Symbol { name: "stale".to_string(), offset: 1 });
    assert_eq!(lexer.parse().unwrap(), vec![Instruction::JMP_ABS, 0x06, 0x00]);
    assert_eq!(
        shape(&lexer.tokens),
        vec![
            tok(TokenType::LABEL, "top", 1),
            tok(TokenType::COLON, ":", 1),
            tok(TokenType::INSTRUCTION, "JMP", 1),
            tok(TokenType::LABEL_OPERAND, "600", 1),
            tok(TokenType::EOF, "", 1),
        ]
    );
    assert_eq!(lexer.current_token, 5);
    assert_eq!(lexer.labels.len(), 1);
    assert_eq!((lexer.labels[0].name.as_str(), lexer.labels[0].offset), ("top", 0));
}

#[test]
fn duplicate_label_is_refused() {
    let mut lexer = lexed("here:\n  NOP\nhere:\n  NOP\n");
    let before = shape(&lexer.tokens);
    let error = lexer.parse().unwrap_err();
    assert_eq!(error.kind, AsmErrorKind::DuplicateLabel);
    assert_eq!((error.text.as_str(), error.line_no), ("here", 3));
    assert_eq!(shape(&lexer.tokens), before);
    assert_eq!(lexer.current_token, 0);
    assert!(lexer.labels.is_empty());
    assert!(assemble("a: b: c: a:").is_err());
}

#[test]
fn undefined_label_is_refused() {
    let error = assemble("  NOP\n  JMP nowhere\n").unwrap_err();
    assert_eq!(error.kind, AsmErrorKind::UndefinedLabel);
    assert_eq!((error.text.as_str(), error.line_no), ("nowhere", 2));
    let error = assemble("first second\nsecond:").unwrap_err();
    assert_eq!((error.kind, error.text.as_str()), (AsmErrorKind::UndefinedLabel, "first"));
}

#[test]
fn unknown_mode_is_refused() {
    let error = assemble("  NOP\n  lda $10,\n").unwrap_err();
    assert_eq!(error.kind, AsmErrorKind::UnknownMode);
    assert_eq!((error.text.as_str(), error.line_no), ("LDA", 2));
    // A mode that the mnemonic does not support.
    let error = assemble("STA #$10").unwrap_err();
    assert_eq!((error.kind, error.text.as_str()), (AsmErrorKind::UnknownMode, "STA"));
    let error = assemble("\n\nASL").unwrap_err();
    assert_eq!((error.kind, error.line_no), (AsmErrorKind::UnknownMode, 3));
    // An operand that does not fit the mode.
    let error = assemble("LDA #$100").unwrap_err();
    assert_eq!((error.kind, error.text.as_str()), (AsmErrorKind::UnknownMode, "LDA"));
    assert_eq!(assemble("LDA ($100),Y").unwrap_err().kind, AsmErrorKind::UnknownMode);
    assert_eq!(assemble("BNE $100").unwrap_err().kind, AsmErrorKind::UnknownMode);
    assert_eq!(assemble("LDA #").unwrap_err().kind, AsmErrorKind::UnknownMode);
}

#[test]
fn first_failure_wins() {
    // The layout pass meets the bad operand before the second label.
    let error = assemble("x1:\n LDA $10,\nx1:\n").unwrap_err();
    assert_eq!(error.kind, AsmErrorKind::UnknownMode);
    // The layout pass runs before references are looked up.
    let error = assemble("JMP nowhere\nx1:\nx1:\n").unwrap_err();
    assert_eq!((error.kind, error.line_no), (AsmErrorKind::DuplicateLabel, 3));
}

#[test]
fn branch_out_of_reach_is_refused() {
    let mut source = String::from("far:\n");
    for _ in 0..126 {
        source.push_str(" NOP\n");
    }
    source.push_str(" BNE far\n");
    let program = assemble(&source).unwrap();
    assert_eq!(&program[126..], &[Instruction::BNE_REL, 0x80]);
    let mut source = String::from("far:\n");
    for _ in 0..127 {
        source.push_str(" NOP\n");
    }
    source.push_str(" BNE far\n");
    let error = assemble(&source).unwrap_err();
    assert_eq!((error.kind, error.text.as_str(), error.line_no), (AsmErrorKind::UnknownMode, "BNE", 129));
}

#[test]
fn passes_one_by_one() {
    let tokens = classified("a1: LDA later\nlater: RTS");
    let symbols = layout_labels(&tokens).unwrap();
    assert_eq!(symbols.len(), 2);
    assert_eq!((symbols[0].name.as_str(), symbols[0].offset), ("a1", 0));
    assert_eq!((symbols[1].name.as_str(), symbols[1].offset), ("later", 3));
    let resolved = resolve_labels(&tokens, &symbols).unwrap();
    assert_eq!(resolved[3].ttype, TokenType::LABEL_OPERAND);
    assert_eq!(resolved[3].tstring, "603");
    assert_eq!(encode_tokens(&resolved).unwrap(), vec![Instruction::LDA_ABS, 0x06, 0x03, Instruction::RTS_IMP]);
    assert_eq!(resolve_labels(&tokens, &Vec::new()).unwrap_err().kind, AsmErrorKind::UndefinedLabel);
    // Without the third pass the reference has no address to encode.
    assert_eq!(encode_tokens(&tokens).unwrap_err().kind, AsmErrorKind::UnknownMode);
}

#[test]
fn operands_high_byte_first() {
    assert_eq!(assemble("LDA $1234").unwrap(), vec![Instruction::LDA_ABS, 0x12, 0x34]);
    assert_eq!(assemble("LDA $0034").unwrap(), vec![Instruction::LDA_ABS, 0x00, 0x34]);
    assert_eq!(assemble("JMP ($12)").unwrap(), vec![Instruction::JMP_IND, 0x00, 0x12]);
    assert_eq!(assemble("LDA 4660,X").unwrap(), vec![Instruction::LDA_ABSX, 0x12, 0x34]);
    assert_eq!(assemble("LDA #%10000001").unwrap(), vec![Instruction::LDA_IMM, 0x81]);
    assert_eq!(assemble("CPY #200").unwrap(), vec![Instruction::CPY_IMM, 200]);
    assert_eq!(assemble("ADC $10,X").unwrap(), vec![Instruction::ADC_ZPX, 0x10]);
    assert_eq!(assemble("BVS $fe").unwrap(), vec![Instruction::BVS_REL, 0xfe]);
    assert_eq!(assemble("sta ($20,x)\nsta ($20),y").unwrap(), vec![Instruction::STA_INDX, 0x20, Instruction::STA_INDY, 0x20]);
    assert_eq!(assemble("").unwrap(), Vec::<u8>::new());
}

fn operand_tokens(tokens: &mut Vec<Token>, mode: AddrMode) {
    let number = |tokens: &mut Vec<Token>, digits: &str| {
        push_token(tokens, TokenType::DOLLAR, "$", 1);
        push_token(tokens, TokenType::NUMBER, digits, 1);
    };
    match mode {
        AddrMode::Implied => {}
        AddrMode::Accumulator => push_token(tokens, TokenType::REGA, "A", 1),
        AddrMode::Immediate => {
            push_token(tokens, TokenType::HASH, "#", 1);
            number(tokens, "7e");
        }
        AddrMode::Relative | AddrMode::ZeroPage => number(tokens, "7e"),
        AddrMode::ZeroPageX => {
            number(tokens, "7e");
            push_token(tokens, TokenType::COMMA, ",", 1);
            push_token(tokens, TokenType::REGX, "X", 1);
        }
        AddrMode::ZeroPageY => {
            number(tokens, "7e");
            push_token(tokens, TokenType::COMMA, ",", 1);
            push_token(tokens, TokenType::REGY, "Y", 1);
        }
        AddrMode::Absolute => number(tokens, "3c4d"),
        AddrMode::AbsoluteX => {
            number(tokens, "3c4d");
            push_token(tokens, TokenType::COMMA, ",", 1);
            push_token(tokens, TokenType::REGX, "X", 1);
        }
        AddrMode::AbsoluteY => {
            number(tokens, "3c4d");
            push_token(tokens, TokenType::COMMA, ",", 1);
            push_token(tokens, TokenType::REGY, "Y", 1);
        }
        AddrMode::Indirect => {
            push_token(tokens, TokenType::BRACKETOPEN, "(", 1);
            number(tokens, "3c4d");
            push_token(tokens, TokenType::BRACKETCLOSE, ")", 1);
        }
        AddrMode::IndirectX => {
            push_token(tokens, TokenType::BRACKETOPEN, "(", 1);
            number(tokens, "7e");
            push_token(tokens, TokenType::COMMA, ",", 1);
            push_token(tokens, TokenType::REGX, "X", 1);
            push_token(tokens, TokenType::BRACKETCLOSE, ")", 1);
        }
        AddrMode::IndirectY => {
            push_token(tokens, TokenType::BRACKETOPEN, "(", 1);
            number(tokens, "7e");
            push_token(tokens, TokenType::BRACKETCLOSE, ")", 1);
            push_token(tokens, TokenType::COMMA, ",", 1);
            push_token(tokens, TokenType::REGY, "Y", 1);
        }
    }
}

#[test]
fn every_pairing_encodes_and_decodes_alike() {
    for op in 0..=LAST_OPCODE {
        let (m, mode) = decode(op).unwrap();
        let mut tokens = Vec::new();
        push_token(&mut tokens, TokenType::INSTRUCTION, m.name(), 1);
        operand_tokens(&mut tokens, mode);
        push_token(&mut tokens, TokenType::EOF, "", 1);
        assert_eq!(infer_mode(&tokens, 0), Some(mode));
        let mut bytes = vec![0xaa];
        assert!(encode_instruction(&tokens, 0, 0x600, &mut bytes));
        let expected: Vec<u8> = match mode.operand_len() {
            0 => vec![0xaa, op],
            1 => vec![0xaa, op, 0x7e],
            _ => vec![0xaa, op, 0x3c, 0x4d],
        };
        assert_eq!(bytes, expected);
        assert_eq!(encode_tokens(&tokens).unwrap(), &expected[1..]);

        // The engine decodes the same pairing and resolves the same operand.
        let program = bytes[1..].to_vec();
        let mut cpu = loaded(&program);
        cpu.pc = 0x601;
        let address = cpu.operand_address(mode);
        assert_eq!(cpu.pc as usize, 0x600 + program.len());
        match mode {
            AddrMode::Absolute => assert_eq!(address, 0x3c4d),
            AddrMode::ZeroPage => assert_eq!(address, 0x7e),
            AddrMode::Immediate => assert_eq!(cpu.mem[address as usize], 0x7e),
            AddrMode::Relative => assert_eq!(address, 0x602 + 0x7e),
            _ => {}
        }
    }
}

#[test]
fn instructions_that_cannot_be_encoded_leave_the_output() {
    let tokens = classified("STA #$10");
    let mut bytes = vec![1, 2];
    assert!(!encode_instruction(&tokens, 0, 0x600, &mut bytes));
    assert_eq!(bytes, vec![1, 2]);
    let tokens = classified("LDA #$100");
    assert!(!encode_instruction(&tokens, 0, 0x600, &mut bytes));
    assert_eq!(bytes, vec![1, 2]);
    let mut tokens = Vec::new();
    push_token(&mut tokens, TokenType::INSTRUCTION, "XYZ", 1);
    assert!(!encode_instruction(&tokens, 0, 0x600, &mut bytes));
    assert_eq!(bytes, vec![1, 2]);
}
