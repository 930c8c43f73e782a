//! The front of the assembler: tokens, the cursor over them, and the scanner
//! that turns source text into tokens.

use vstd::prelude::*;

verus! {

/// The classes of tokens. The scanner gives punctuation, registers, `EOF` and
/// `UNKNOWN`; the later passes of the assembler refine `UNKNOWN`.
#[allow(non_camel_case_types)]
#[derive(Clone, Copy, Debug, PartialEq, Eq, Structural)]
pub enum TokenType {
    WHITE,
    HASH,
    COLON,
    DOLLAR,
    PERCENT,
    COMMA,
    BRACKETOPEN,
    BRACKETCLOSE,
    NL,
    UNKNOWN,
    INSTRUCTION,
    NUMBER,
    OPERAND,
    LABEL,
    LABEL_OPERAND,
    REGX,
    REGY,
    REGA,
    EOF,
}

/// A token: its class, its text, and the line of the source it stands on,
/// counted from 1.
#[derive(Debug)]
pub struct Token {
    pub ttype: TokenType,
    pub tstring: String,
    pub line_no: u32,
}

/// A token as plain values.
pub struct TokenView {
    pub ttype: TokenType,
    pub text: Seq<char>,
    pub line_no: u32,
}

impl View for Token {
    type V = TokenView;

    open spec fn view(&self) -> TokenView {
        TokenView { ttype: self.ttype, text: self.tstring@, line_no: self.line_no }
    }
}

/// The tokens of a sequence as plain values.
pub open spec fn token_views(tokens: Seq<Token>) -> Seq<TokenView> {
    Seq::new(tokens.len(), |i: int| tokens[i]@)
}

/// An entry of the symbol table: a label and the byte offset into the
/// program that it stands for.
#[derive(Debug)]
pub struct Symbol {
    pub name: String,
    pub offset: u16,
}

/// An entry of the symbol table as plain values.
pub struct SymbolView {
    pub name: Seq<char>,
    pub offset: u16,
}

impl View for Symbol {
    type V = SymbolView;

    open spec fn view(&self) -> SymbolView {
        SymbolView { name: self.name@, offset: self.offset }
    }
}

/// The entries of a symbol table as plain values.
pub open spec fn symbol_views(symbols: Seq<Symbol>) -> Seq<SymbolView> {
    Seq::new(symbols.len(), |i: int| symbols[i]@)
}

/// Whether no name occurs twice in a symbol table.
pub open spec fn names_unique(symbols: Seq<SymbolView>) -> bool {
    forall|i: int, j: int|
        0 <= i < j < symbols.len() ==> (#[trigger] symbols[i]).name != (#[trigger] symbols[j]).name
}

/// The state of the assembler: the tokens, a cursor into them, and the
/// symbol table, in which every name stands once.
#[derive(Debug)]
pub struct Lexer {
    pub tokens: Vec<Token>,
    pub current_token: usize,
    pub labels: Vec<Symbol>,
}

/// The state of the assembler as plain values.
pub struct LexerView {
    pub tokens: Seq<TokenView>,
    pub cursor: nat,
    pub labels: Seq<SymbolView>,
}

impl View for Lexer {
    type V = LexerView;

    open spec fn view(&self) -> LexerView {
        LexerView {
            tokens: token_views(self.tokens@),
            cursor: self.current_token as nat,
            labels: symbol_views(self.labels@),
        }
    }
}

/// The token at `index`, if there is one.
pub fn token_at(tokens: &Vec<Token>, index: usize) -> (r: Option<&Token>)
    ensures
        index < tokens.len() ==> r == Some(&tokens@[index as int]),
        index >= tokens.len() ==> r is None,
{
    if index < tokens.len() {
        Some(&tokens[index])
    } else {
        None
    }
}

/// The class of the token at `index`, if there is one.
pub fn type_at(tokens: &Vec<Token>, index: usize) -> (r: Option<TokenType>)
    ensures
        r == type_of(token_views(tokens@), index as int),
{
    if index < tokens.len() {
        Some(tokens[index].ttype)
    } else {
        None
    }
}

/// The class of the token at `index`, if there is one.
pub open spec fn type_of(tokens: Seq<TokenView>, index: int) -> Option<TokenType> {
    if 0 <= index < tokens.len() {
        Some(tokens[index].ttype)
    } else {
        None
    }
}

impl Lexer {
    /// Whether the symbol table maps names: no name occurs in it twice.
    pub open spec fn wf(&self) -> bool {
        names_unique(self@.labels)
    }

    /// A lexer without tokens or symbols.
    pub fn new() -> (lexer: Lexer)
        ensures
            lexer@ == (LexerView { tokens: Seq::empty(), cursor: 0, labels: Seq::empty() }),
            lexer.wf(),
    {
        let lexer = Lexer { tokens: Vec::new(), current_token: 0, labels: Vec::new() };
        assert(lexer@.tokens =~= Seq::empty());
        assert(lexer@.labels =~= Seq::empty());
        lexer
    }

    /// The token before the cursor, if there is one.
    pub fn previous(&self) -> (r: Option<&Token>)
        ensures
            1 <= self.current_token <= self.tokens.len() ==> r == Some(
                &self.tokens@[self.current_token - 1],
            ),
            !(1 <= self.current_token <= self.tokens.len()) ==> r is None,
    {
        if self.current_token < 1 {
            return None;
        }
        token_at(&self.tokens, self.current_token - 1)
    }

    /// The token under the cursor, if there is one.
    pub fn current(&self) -> (r: Option<&Token>)
        ensures
            self.current_token < self.tokens.len() ==> r == Some(
                &self.tokens@[self.current_token as int],
            ),
            self.current_token >= self.tokens.len() ==> r is None,
    {
        token_at(&self.tokens, self.current_token)
    }

    /// The token after the cursor, if there is one.
    pub fn next(&self) -> (r: Option<&Token>)
        ensures
            self.current_token + 1 < self.tokens.len() ==> r == Some(
                &self.tokens@[self.current_token + 1],
            ),
            self.current_token + 1 >= self.tokens.len() ==> r is None,
    {
        self.nextx(1)
    }

    /// The token `offset` places after the cursor, if there is one.
    pub fn nextx(&self, offset: usize) -> (r: Option<&Token>)
        ensures
            self.current_token + offset < self.tokens.len() ==> r == Some(
                &self.tokens@[self.current_token + offset],
            ),
            self.current_token + offset >= self.tokens.len() ==> r is None,
    {
        match self.current_token.checked_add(offset) {
            Some(index) => token_at(&self.tokens, index),
            None => None,
        }
    }

    /// Moves the cursor to the next token.
    pub fn step(&mut self)
        requires
            old(self).current_token < usize::MAX,
        ensures
            final(self)@ == (LexerView { cursor: old(self)@.cursor + 1, ..old(self)@ }),
            final(self).wf() == old(self).wf(),
    {
        self.current_token += 1;
    }

    /// Moves the cursor forward by `steps` tokens.
    pub fn stepx(&mut self, steps: usize)
        requires
            old(self).current_token + steps <= usize::MAX,
        ensures
            final(self)@ == (LexerView { cursor: old(self)@.cursor + steps as nat, ..old(self)@ }),
            final(self).wf() == old(self).wf(),
    {
        self.current_token += steps;
    }

    /// Scans `code` and appends its tokens to those already held; the cursor
    /// goes back to the first token.
    pub fn tokenize(&mut self, code: String)
        ensures
            final(self)@ == (LexerView {
                tokens: old(self)@.tokens + lex(code@),
                cursor: 0,
                ..old(self)@
            }),
            final(self).wf() == old(self).wf(),
    {
        scan_source(code.as_str(), &mut self.tokens);
        self.current_token = 0;
    }
}

/// Whether `c` is white space.
pub open spec fn is_space(c: char) -> bool {
    c == ' ' || c == '\t' || c == '\r' || c == '\n'
}

/// The class of a punctuation character; `None` for any other character.
pub open spec fn punctuation(c: char) -> Option<TokenType> {
    if c == '#' {
        Some(TokenType::HASH)
    } else if c == ':' {
        Some(TokenType::COLON)
    } else if c == '$' {
        Some(TokenType::DOLLAR)
    } else if c == '%' {
        Some(TokenType::PERCENT)
    } else if c == ',' {
        Some(TokenType::COMMA)
    } else if c == '(' {
        Some(TokenType::BRACKETOPEN)
    } else if c == ')' {
        Some(TokenType::BRACKETCLOSE)
    } else {
        None
    }
}

/// The line after `line_no`. The count stops at the largest number.
pub open spec fn next_line(line_no: u32) -> u32 {
    if line_no < u32::MAX {
        (line_no + 1) as u32
    } else {
        line_no
    }
}

/// What the scanner knows after a prefix of the source.
pub struct Scan {
    /// The tokens given so far.
    pub tokens: Seq<TokenView>,
    /// The characters of the run that is being gathered.
    pub run: Seq<char>,
    /// Whether that run began right after white space or a comma.
    pub run_after_separator: bool,
    /// Whether the last character was white space or a comma.
    pub after_separator: bool,
    /// Whether the scanner is inside a comment.
    pub in_comment: bool,
    /// The current line, counted from 1.
    pub line_no: u32,
}

/// The token that a finished run of characters becomes: a lone `X` or `Y`
/// right after white space or a comma is a register, any other run is
/// `UNKNOWN`.
pub open spec fn run_token(run: Seq<char>, after_separator: bool, line_no: u32) -> TokenView {
    if after_separator && run.len() == 1 && (run[0] == 'X' || run[0] == 'x') {
        TokenView { ttype: TokenType::REGX, text: seq!['X'], line_no }
    } else if after_separator && run.len() == 1 && (run[0] == 'Y' || run[0] == 'y') {
        TokenView { ttype: TokenType::REGY, text: seq!['Y'], line_no }
    } else {
        TokenView { ttype: TokenType::UNKNOWN, text: run, line_no }
    }
}

impl Scan {
    /// The state before the first character.
    pub open spec fn start() -> Scan {
        Scan {
            tokens: Seq::empty(),
            run: Seq::empty(),
            run_after_separator: false,
            after_separator: false,
            in_comment: false,
            line_no: 1,
        }
    }

    /// The state with the run that is being gathered, if any, given as a
    /// token.
    pub open spec fn flush(self) -> Scan {
        if self.run.len() > 0 {
            Scan {
                tokens: self.tokens.push(
                    run_token(self.run, self.run_after_separator, self.line_no),
                ),
                run: Seq::empty(),
                ..self
            }
        } else {
            self
        }
    }

    /// The state after one more character.
    pub open spec fn feed(self, c: char) -> Scan {
        if self.in_comment {
            if c == '\n' {
                Scan {
                    in_comment: false,
                    after_separator: true,
                    line_no: next_line(self.line_no),
                    ..self
                }
            } else {
                self
            }
        } else if c == ';' {
            Scan { in_comment: true, after_separator: false, ..self.flush() }
        } else if c == '\n' {
            Scan { after_separator: true, line_no: next_line(self.line_no), ..self.flush() }
        } else if is_space(c) {
            Scan { after_separator: true, ..self.flush() }
        } else if let Some(ttype) = punctuation(c) {
            let flushed = self.flush();
            Scan {
                tokens: flushed.tokens.push(
                    TokenView { ttype, text: seq![c], line_no: self.line_no },
                ),
                after_separator: c == ',',
                ..flushed
            }
        } else {
            Scan {
                run: self.run.push(c),
                run_after_separator: if self.run.len() == 0 {
                    self.after_separator
                } else {
                    self.run_after_separator
                },
                after_separator: false,
                ..self
            }
        }
    }

    /// The state after the first `n` characters of `source`.
    pub open spec fn after(source: Seq<char>, n: nat) -> Scan
        decreases n,
    {
        if n == 0 {
            Scan::start()
        } else {
            Scan::after(source, (n - 1) as nat).feed(source[n - 1])
        }
    }
}

/// The tokens of a source text: punctuation one by one, every other run of
/// characters up to white space, punctuation or a comment as one token,
/// comments from `;` to the end of the line dropped, and a closing `EOF`.
pub open spec fn lex(source: Seq<char>) -> Seq<TokenView> {
    let end = Scan::after(source, source.len()).flush();
    end.tokens.push(TokenView { ttype: TokenType::EOF, text: Seq::empty(), line_no: end.line_no })
}

/// The characters of a text.
pub fn chars_of(text: &str) -> (chars: Vec<char>)
    ensures
        chars@ == text@,
{
    broadcast use vstd::string::group_string_axioms;

    let mut chars: Vec<char> = Vec::new();
    for c in it: text.chars()
        invariant
            it.seq() == text@,
            chars@ == text@.take(it.index() as int),
    {
        chars.push(c);
        assert(chars@ =~= text@.take(it.index() + 1));
    }
    assert(chars@ =~= text@);
    chars
}

/// Appends a token with the given class, text and line.
pub fn push_token(tokens: &mut Vec<Token>, ttype: TokenType, text: &str, line_no: u32)
    ensures
        token_views(final(tokens)@) == token_views(old(tokens)@).push(
            TokenView { ttype, text: text@, line_no },
        ),
{
    tokens.push(Token { ttype, tstring: String::from_str(text), line_no });
    assert(token_views(tokens@) =~= token_views(old(tokens)@).push(
        TokenView { ttype, text: text@, line_no },
    ));
}

/// Gives the run `code[from..to]`, if it is not empty, as a token.
fn flush_run(
    tokens: &mut Vec<Token>,
    code: &str,
    chars: &Vec<char>,
    from: usize,
    to: usize,
    after_separator: bool,
    line_no: u32,
    Ghost(base): Ghost<Seq<TokenView>>,
    Ghost(before): Ghost<Scan>,
)
    requires
        chars@ == code@,
        from <= to <= chars.len(),
        before.run == code@.subrange(from as int, to as int),
        before.run_after_separator == after_separator,
        before.line_no == line_no,
        token_views(old(tokens)@) == base + before.tokens,
    ensures
        token_views(final(tokens)@) == base + before.flush().tokens,
{
    if from < to {
        let c = chars[from];
        if after_separator && to - from == 1 && (c == 'X' || c == 'x') {
            proof {
                reveal_strlit("X");
            }
            assert("X"@ =~= seq!['X']);
            push_token(tokens, TokenType::REGX, "X", line_no);
        } else if after_separator && to - from == 1 && (c == 'Y' || c == 'y') {
            proof {
                reveal_strlit("Y");
            }
            assert("Y"@ =~= seq!['Y']);
            push_token(tokens, TokenType::REGY, "Y", line_no);
        } else {
            push_token(tokens, TokenType::UNKNOWN, code.substring_char(from, to), line_no);
        }
        assert(token_views(tokens@) =~= base + before.flush().tokens);
    }
}

/// The class and text of a punctuation character.
fn punctuation_of(c: char) -> (r: Option<(TokenType, &'static str)>)
    ensures
        match r {
            Some((ttype, text)) => punctuation(c) == Some(ttype) && text@ == seq![c],
            None => punctuation(c) is None,
        },
{
    proof {
        reveal_strlit("#");
        reveal_strlit(":");
        reveal_strlit("$");
        reveal_strlit("%");
        reveal_strlit(",");
        reveal_strlit("(");
        reveal_strlit(")");
    }
    let r = if c == '#' {
        Some((TokenType::HASH, "#"))
    } else if c == ':' {
        Some((TokenType::COLON, ":"))
    } else if c == '$' {
        Some((TokenType::DOLLAR, "$"))
    } else if c == '%' {
        Some((TokenType::PERCENT, "%"))
    } else if c == ',' {
        Some((TokenType::COMMA, ","))
    } else if c == '(' {
        Some((TokenType::BRACKETOPEN, "("))
    } else if c == ')' {
        Some((TokenType::BRACKETCLOSE, ")"))
    } else {
        None
    };
    assert(r matches Some((_, text)) ==> text@ =~= seq![c]);
    r
}

/// Scans `code` and appends its tokens to `tokens`.
pub fn scan_source(code: &str, tokens: &mut Vec<Token>)
    ensures
        token_views(final(tokens)@) == token_views(old(tokens)@) + lex(code@),
{
    let chars = chars_of(code);
    let n = chars.len();
    let ghost base = token_views(tokens@);
    let mut run_start: usize = 0;
    let mut run_after_separator = false;
    let mut after_separator = false;
    let mut in_comment = false;
    let mut line_no: u32 = 1;
    let mut i: usize = 0;
    assert(token_views(tokens@) =~= base + Scan::start().tokens);
    assert(code@.subrange(0, 0) =~= Seq::<char>::empty());
    while i < n
        invariant
            chars@ == code@,
            n == chars.len(),
            run_start <= i <= n,
            token_views(tokens@) == base + Scan::after(code@, i as nat).tokens,
            Scan::after(code@, i as nat).run == code@.subrange(run_start as int, i as int),
            Scan::after(code@, i as nat).run_after_separator == run_after_separator,
            Scan::after(code@, i as nat).after_separator == after_separator,
            Scan::after(code@, i as nat).in_comment == in_comment,
            Scan::after(code@, i as nat).line_no == line_no,
        decreases n - i,
    {
        let c = chars[i];
        let ghost before = Scan::after(code@, i as nat);
        assert(Scan::after(code@, (i + 1) as nat) == before.feed(c));
        if in_comment {
            if c == '\n' {
                in_comment = false;
                after_separator = true;
                line_no = if line_no < u32::MAX {
                    line_no + 1
                } else {
                    line_no
                };
            }
            proof {
                lemma_comment_has_no_run(code@, i as nat);
            }
            run_start = i + 1;
            assert(code@.subrange(run_start as int, i + 1) =~= before.run);
        } else if c == ';' || c == ' ' || c == '\t' || c == '\r' || c == '\n' {
            flush_run(
                tokens,
                code,
                &chars,
                run_start,
                i,
                run_after_separator,
                line_no,
                Ghost(base),
                Ghost(before),
            );
            if c == ';' {
                in_comment = true;
                after_separator = false;
            } else {
                after_separator = true;
            }
            if c == '\n' {
                line_no = if line_no < u32::MAX {
                    line_no + 1
                } else {
                    line_no
                };
            }
            run_start = i + 1;
            assert(code@.subrange(run_start as int, i + 1) =~= Seq::<char>::empty());
        } else {
            match punctuation_of(c) {
                Some((ttype, text)) => {
                    flush_run(
                        tokens,
                        code,
                        &chars,
                        run_start,
                        i,
                        run_after_separator,
                        line_no,
                        Ghost(base),
                        Ghost(before),
                    );
                    push_token(tokens, ttype, text, line_no);
                    after_separator = c == ',';
                    run_start = i + 1;
                    assert(code@.subrange(run_start as int, i + 1) =~= Seq::<char>::empty());
                    assert(token_views(tokens@) =~= base + before.feed(c).tokens);
                },
                None => {
                    if run_start == i {
                        run_after_separator = after_separator;
                    }
                    after_separator = false;
                    assert(code@.subrange(run_start as int, i + 1) =~= before.run.push(c));
                },
            }
        }
        i += 1;
    }
    let ghost end = Scan::after(code@, n as nat);
    flush_run(
        tokens,
        code,
        &chars,
        run_start,
        n,
        run_after_separator,
        line_no,
        Ghost(base),
        Ghost(end),
    );
    proof {
        reveal_strlit("");
    }
    assert(""@ =~= Seq::<char>::empty());
    push_token(tokens, TokenType::EOF, "", line_no);
    assert(token_views(tokens@) =~= base + lex(code@));
}

/// Inside a comment no run is being gathered.
pub proof fn lemma_comment_has_no_run(source: Seq<char>, n: nat)
    requires
        n <= source.len(),
    ensures
        Scan::after(source, n).in_comment ==> Scan::after(source, n).run.len() == 0,
    decreases n,
{
    if n > 0 {
        lemma_comment_has_no_run(source, (n - 1) as nat);
    }
}

} // verus!
