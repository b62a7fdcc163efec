//! The scanner: from a buffer of source bytes to one token per call.
use vstd::prelude::*;
use vstd::slice::*;
use vstd::string::*;
use crate::compiler::err::{ScannerErr, SyntaxFault};
use crate::compiler::token::{Token, TokenType, TokenView};
use crate::text::{copy_bytes, decimal, push_bytes, push_decimal, push_text};

verus! {

/// A place in the source: the number of the line and the column in it.
#[derive(Copy, Clone, Debug, PartialEq, Eq, Structural)]
pub struct Line {
    pub number: usize,
    pub offset: usize,
}

pub const FORWARD: u8 = 0;

pub const BACKWARD: u8 = 1;

pub const NEWLINE: u8 = 10;

pub const QUOTE: u8 = 34;

/// Whether `c` is a letter or an underscore.
pub open spec fn alpha(c: u8) -> bool {
    ('a' as u8 <= c <= 'z' as u8) || ('A' as u8 <= c <= 'Z' as u8) || c == '_' as u8
}

/// Whether `c` is a decimal digit.
pub open spec fn digit(c: u8) -> bool {
    '0' as u8 <= c <= '9' as u8
}

/// Whether `c` is a space, a tab, a carriage return or a newline.
pub open spec fn blank(c: u8) -> bool {
    c == ' ' as u8 || c == '\t' as u8 || c == '\r' as u8 || c == NEWLINE
}

/// The classes of bytes that a lexeme runs over.
#[derive(Copy, Clone, Debug, PartialEq, Eq, Structural)]
pub enum ByteClass {
    /// Letters, digits and the underscore.
    Word,
    /// Decimal digits.
    Digit,
    /// Anything but a double quote.
    Quoted,
    /// Anything but a newline.
    Inline,
}

impl ByteClass {
    /// Whether `c` is of the class.
    pub open spec fn holds(self, c: u8) -> bool {
        match self {
            ByteClass::Word => alpha(c) || digit(c),
            ByteClass::Digit => digit(c),
            ByteClass::Quoted => c != QUOTE,
            ByteClass::Inline => c != NEWLINE,
        }
    }

    /// Whether `c` is of the class.
    pub fn contains(self, c: u8) -> (r: bool)
        ensures
            r == self.holds(c),
    {
        match self {
            ByteClass::Word => Scanner::is_alpha(c) || Scanner::is_digit(c),
            ByteClass::Digit => Scanner::is_digit(c),
            ByteClass::Quoted => c != QUOTE,
            ByteClass::Inline => c != NEWLINE,
        }
    }
}

/// The end of the longest run of bytes of `class` that starts at `pos`.
pub open spec fn run_end(src: Seq<u8>, pos: int, class: ByteClass) -> int
    decreases src.len() - pos,
{
    if 0 <= pos < src.len() && class.holds(src[pos]) {
        run_end(src, pos + 1, class)
    } else {
        pos
    }
}

/// The number of newlines in `src[from..to]`.
pub open spec fn newlines(src: Seq<u8>, from: int, to: int) -> nat
    decreases to - from,
{
    if to <= from {
        0
    } else {
        newlines(src, from, to - 1) + if src[to - 1] == NEWLINE {
            1nat
        } else {
            0nat
        }
    }
}

/// Where the next token starts: the first position at or after `pos` that is
/// neither blank nor inside a `//` comment. `in_comment` says whether `pos`
/// itself is inside a comment.
pub open spec fn skip_to(src: Seq<u8>, pos: int, in_comment: bool) -> int
    decreases src.len() - pos,
{
    if pos < 0 || pos >= src.len() {
        pos
    } else if in_comment {
        skip_to(src, pos + 1, src[pos] != NEWLINE)
    } else if blank(src[pos]) {
        skip_to(src, pos + 1, false)
    } else if src[pos] == '/' as u8 && pos + 1 < src.len() && src[pos + 1] == '/' as u8 {
        skip_to(src, pos + 2, true)
    } else {
        pos
    }
}

/// Where the line that holds `pos` starts: just after the last newline before `pos`.
pub open spec fn line_start(src: Seq<u8>, pos: int) -> int
    decreases pos,
{
    if pos <= 0 {
        0
    } else if pos <= src.len() && src[pos - 1] == NEWLINE {
        pos
    } else {
        line_start(src, pos - 1)
    }
}

/// The text of the line that holds `pos`, without its newline.
pub open spec fn line_text(src: Seq<u8>, pos: int) -> Seq<u8> {
    src.subrange(line_start(src, pos), run_end(src, pos, ByteClass::Inline))
}

/// Whether `word` stands in `src` at `pos`.
pub open spec fn has_prefix(src: Seq<u8>, pos: int, word: Seq<u8>) -> bool {
    0 <= pos && pos + word.len() <= src.len() && src.subrange(pos, pos + word.len()) == word
}

/// `kind` where `word` stands at `pos`, and `IDENTIFIER` elsewhere.
pub open spec fn keyword_or_identifier(
    src: Seq<u8>,
    pos: int,
    word: Seq<u8>,
    kind: TokenType,
) -> TokenType {
    if has_prefix(src, pos, word) {
        kind
    } else {
        TokenType::IDENTIFIER
    }
}

/// The kind of the word that starts at `pos`: the first byte picks a keyword
/// (the second too where several keywords share the first), and the word is
/// of that kind where it begins with the keyword's bytes. A word that only
/// begins with a keyword is of the keyword's kind as well.
pub open spec fn word_kind(src: Seq<u8>, pos: int) -> TokenType {
    let c = src[pos];
    let d = if pos + 1 < src.len() {
        src[pos + 1]
    } else {
        0u8
    };
    if c == 'a' as u8 {
        keyword_or_identifier(src, pos, seq!['a' as u8, 'n' as u8, 'd' as u8], TokenType::AND)
    } else if c == 'c' as u8 {
        if d == 'l' as u8 {
            keyword_or_identifier(
                src,
                pos,
                seq!['c' as u8, 'l' as u8, 'a' as u8, 's' as u8, 's' as u8],
                TokenType::CLASS,
            )
        } else if d == 'o' as u8 {
            keyword_or_identifier(
                src,
                pos,
                seq!['c' as u8, 'o' as u8, 'n' as u8, 's' as u8, 't' as u8],
                TokenType::CONST,
            )
        } else {
            TokenType::IDENTIFIER
        }
    } else if c == 'e' as u8 {
        keyword_or_identifier(
            src,
            pos,
            seq!['e' as u8, 'l' as u8, 's' as u8, 'e' as u8],
            TokenType::ELSE,
        )
    } else if c == 'f' as u8 {
        if d == 'a' as u8 {
            keyword_or_identifier(
                src,
                pos,
                seq!['f' as u8, 'a' as u8, 'l' as u8, 's' as u8, 'e' as u8],
                TokenType::FALSE,
            )
        } else if d == 'o' as u8 {
            keyword_or_identifier(src, pos, seq!['f' as u8, 'o' as u8, 'r' as u8], TokenType::FOR)
        } else if d == 'u' as u8 {
            keyword_or_identifier(src, pos, seq!['f' as u8, 'u' as u8, 'n' as u8], TokenType::FUN)
        } else {
            TokenType::IDENTIFIER
        }
    } else if c == 'i' as u8 {
        keyword_or_identifier(src, pos, seq!['i' as u8, 'f' as u8], TokenType::IF)
    } else if c == 'n' as u8 {
        keyword_or_identifier(src, pos, seq!['n' as u8, 'i' as u8, 'l' as u8], TokenType::NIL)
    } else if c == 'o' as u8 {
        keyword_or_identifier(src, pos, seq!['o' as u8, 'r' as u8], TokenType::OR)
    } else if c == 'p' as u8 {
        keyword_or_identifier(
            src,
            pos,
            seq!['p' as u8, 'r' as u8, 'i' as u8, 'n' as u8, 't' as u8],
            TokenType::PRINT,
        )
    } else if c == 'r' as u8 {
        keyword_or_identifier(
            src,
            pos,
            seq!['r' as u8, 'e' as u8, 't' as u8, 'u' as u8, 'r' as u8, 'n' as u8],
            TokenType::RETURN,
        )
    } else if c == 's' as u8 {
        keyword_or_identifier(
            src,
            pos,
            seq!['s' as u8, 'u' as u8, 'p' as u8, 'e' as u8, 'r' as u8],
            TokenType::SUPER,
        )
    } else if c == 't' as u8 {
        if d == 'h' as u8 {
            keyword_or_identifier(
                src,
                pos,
                seq!['t' as u8, 'h' as u8, 'i' as u8, 's' as u8],
                TokenType::THIS,
            )
        } else if d == 'r' as u8 {
            keyword_or_identifier(
                src,
                pos,
                seq!['t' as u8, 'r' as u8, 'u' as u8, 'e' as u8],
                TokenType::TRUE,
            )
        } else {
            TokenType::IDENTIFIER
        }
    } else if c == 'v' as u8 {
        keyword_or_identifier(src, pos, seq!['v' as u8, 'a' as u8, 'r' as u8], TokenType::VAR)
    } else if c == 'w' as u8 {
        keyword_or_identifier(
            src,
            pos,
            seq!['w' as u8, 'h' as u8, 'i' as u8, 'l' as u8, 'e' as u8],
            TokenType::WHILE,
        )
    } else {
        TokenType::IDENTIFIER
    }
}

/// The end of the numeral that starts at `pos`: its digits, and a point with
/// the digits behind it where at least one digit follows the point.
pub open spec fn number_end(src: Seq<u8>, pos: int) -> int {
    let whole = run_end(src, pos, ByteClass::Digit);
    if whole + 1 < src.len() && src[whole] == '.' as u8 && digit(src[whole + 1]) {
        run_end(src, whole + 1, ByteClass::Digit)
    } else {
        whole
    }
}

/// Whether `=` follows the byte at `pos`.
pub open spec fn equal_follows(src: Seq<u8>, pos: int) -> bool {
    pos + 1 < src.len() && src[pos + 1] == '=' as u8
}

/// The kind of the punctuation or operator that starts at `pos`, where one does.
pub open spec fn symbol_kind(src: Seq<u8>, pos: int) -> Option<TokenType> {
    let c = src[pos];
    if c == '(' as u8 {
        Some(TokenType::LEFT_PAREN)
    } else if c == ')' as u8 {
        Some(TokenType::RIGHT_PAREN)
    } else if c == '{' as u8 {
        Some(TokenType::LEFT_BRACE)
    } else if c == '}' as u8 {
        Some(TokenType::RIGHT_BRACE)
    } else if c == ';' as u8 {
        Some(TokenType::SEMICOLON)
    } else if c == ',' as u8 {
        Some(TokenType::COMMA)
    } else if c == '.' as u8 {
        Some(TokenType::DOT)
    } else if c == '-' as u8 {
        Some(TokenType::MINUS)
    } else if c == '+' as u8 {
        Some(TokenType::PLUS)
    } else if c == '/' as u8 {
        Some(TokenType::SLASH)
    } else if c == '*' as u8 {
        Some(TokenType::STAR)
    } else if c == '!' as u8 {
        Some(
            if equal_follows(src, pos) {
                TokenType::BANG_EQUAL
            } else {
                TokenType::BANG
            },
        )
    } else if c == '=' as u8 {
        Some(
            if equal_follows(src, pos) {
                TokenType::EQUAL_EQUAL
            } else {
                TokenType::EQUAL
            },
        )
    } else if c == '<' as u8 {
        Some(
            if equal_follows(src, pos) {
                TokenType::LESS_EQUAL
            } else {
                TokenType::LESS
            },
        )
    } else if c == '>' as u8 {
        Some(
            if equal_follows(src, pos) {
                TokenType::GREATER_EQUAL
            } else {
                TokenType::GREATER
            },
        )
    } else {
        None
    }
}

/// The length of a punctuation or operator token of `kind`.
pub open spec fn symbol_len(kind: TokenType) -> int {
    match kind {
        TokenType::BANG_EQUAL | TokenType::EQUAL_EQUAL | TokenType::LESS_EQUAL
        | TokenType::GREATER_EQUAL => 2,
        _ => 1,
    }
}

/// The message of the error for a byte that starts no token.
pub open spec fn unexpected_message(src: Seq<u8>, pos: int, line: int) -> Seq<u8> {
    "unexpected token on line ".spec_bytes() + decimal(line as nat) + ": ".spec_bytes()
        + src.subrange(pos, pos + 1)
}

/// What one call of the scanner yields.
pub enum Scanned {
    /// A token, whose lexeme is `src[from..to]`; the end of input is a token
    /// of kind `EOF`, whose lexeme is the word `eof`.
    Token { kind: TokenType, from: int, to: int },
    /// No token: the fault, and the message of the error.
    Fault { fault: SyntaxFault, message: Seq<u8> },
}

/// One step of the scanner, from the cursor `pos` on line `line`.
pub struct Step {
    /// Where the token starts, after blanks and comments.
    pub start: int,
    /// The cursor after the step.
    pub current: int,
    /// The line after the step.
    pub line: int,
    /// What was found.
    pub found: Scanned,
}

/// The step that the scanner takes from `pos` on line `line`.
pub open spec fn scan_step(src: Seq<u8>, pos: int, line: int) -> Step {
    let start = skip_to(src, pos, false);
    let line = line + newlines(src, pos, start);
    if start >= src.len() {
        Step {
            start,
            current: start,
            line,
            found: Scanned::Token { kind: TokenType::EOF, from: start, to: start },
        }
    } else if alpha(src[start]) {
        let end = run_end(src, start + 1, ByteClass::Word);
        Step {
            start,
            current: end,
            line,
            found: Scanned::Token { kind: word_kind(src, start), from: start, to: end },
        }
    } else if digit(src[start]) {
        let end = number_end(src, start + 1);
        Step {
            start,
            current: end,
            line,
            found: Scanned::Token { kind: TokenType::NUMBER, from: start, to: end },
        }
    } else if src[start] == QUOTE {
        let close = run_end(src, start + 1, ByteClass::Quoted);
        let line = line + newlines(src, start + 1, close);
        if close >= src.len() {
            Step {
                start,
                current: close,
                line,
                found: Scanned::Fault {
                    fault: SyntaxFault::UnterminatedString,
                    message: "Unterminated string".spec_bytes(),
                },
            }
        } else {
            Step {
                start,
                current: close + 1,
                line,
                found: Scanned::Token { kind: TokenType::STRING, from: start + 1, to: close },
            }
        }
    } else {
        match symbol_kind(src, start) {
            Some(kind) => Step {
                start,
                current: start + symbol_len(kind),
                line,
                found: Scanned::Token { kind, from: start, to: start + symbol_len(kind) },
            },
            None => Step {
                start,
                current: start + 1,
                line,
                found: Scanned::Fault {
                    fault: SyntaxFault::UnexpectedCharacter,
                    message: unexpected_message(src, start, line),
                },
            },
        }
    }
}

/// The lexeme of a token found by a step.
pub open spec fn lexeme_of(src: Seq<u8>, kind: TokenType, from: int, to: int) -> Seq<u8> {
    if kind == TokenType::EOF {
        "eof".spec_bytes()
    } else {
        src.subrange(from, to)
    }
}

/// Proves that a run ends at or after its start, and inside the source.
pub proof fn run_end_bounds(src: Seq<u8>, pos: int, class: ByteClass)
    requires
        0 <= pos <= src.len(),
    ensures
        pos <= run_end(src, pos, class) <= src.len(),
    decreases src.len() - pos,
{
    if pos < src.len() && class.holds(src[pos]) {
        run_end_bounds(src, pos + 1, class);
    }
}

/// Proves that skipping blanks and comments moves forward, and stays
/// inside the source.
pub proof fn skip_to_bounds(src: Seq<u8>, pos: int, in_comment: bool)
    requires
        0 <= pos <= src.len(),
    ensures
        pos <= skip_to(src, pos, in_comment) <= src.len(),
    decreases src.len() - pos,
{
    if pos >= src.len() {
    } else if in_comment {
        skip_to_bounds(src, pos + 1, src[pos] != NEWLINE);
    } else if blank(src[pos]) {
        skip_to_bounds(src, pos + 1, false);
    } else if src[pos] == '/' as u8 && pos + 1 < src.len() && src[pos + 1] == '/' as u8 {
        skip_to_bounds(src, pos + 2, true);
    }
}

/// Proves that a step of the scanner moves the cursor forward and leaves
/// it inside the source, and that every token but `EOF` moves it by at
/// least one byte.
pub proof fn scan_progress(src: Seq<u8>, pos: int, line: int)
    requires
        0 <= pos <= src.len(),
    ensures
        pos <= scan_step(src, pos, line).current <= src.len(),
        pos <= scan_step(src, pos, line).start <= scan_step(src, pos, line).current,
        match scan_step(src, pos, line).found {
            Scanned::Token { kind, from, to } => (kind != TokenType::EOF ==> pos < scan_step(
                src,
                pos,
                line,
            ).current) && scan_step(src, pos, line).start <= from <= to <= scan_step(
                src,
                pos,
                line,
            ).current,
            Scanned::Fault { .. } => true,
        },
{
    let start = skip_to(src, pos, false);
    skip_to_bounds(src, pos, false);
    if start < src.len() {
        run_end_bounds(src, start + 1, ByteClass::Word);
        run_end_bounds(src, start + 1, ByteClass::Digit);
        run_end_bounds(src, start + 1, ByteClass::Quoted);
        let whole = run_end(src, start + 1, ByteClass::Digit);
        if whole + 1 < src.len() {
            run_end_bounds(src, whole + 1, ByteClass::Digit);
        }
        if alpha(src[start]) {
            assert(word_kind(src, start) != TokenType::EOF);
        }
    }
}

/// Whether `err` points at the cursor `pos` on line `line`: it holds the text
/// of that line, the line's number and the cursor's column.
pub open spec fn reported_at(src: Seq<u8>, pos: int, line: int, err: ScannerErr) -> bool {
    &&& err.line_contents@ == line_text(src, pos)
    &&& err.line == line
    &&& err.offset == pos - line_start(src, pos)
}

/// Whether a call that took the scanner from `before` to `after` and returned
/// `r` took the step that `scan_step` describes.
pub open spec fn scanned(
    before: Scanner<'_>,
    after: Scanner<'_>,
    r: Result<Token<'_>, ScannerErr>,
) -> bool {
    let src = before.src();
    let step = scan_step(src, before.current as int, before.line as int);
    &&& after.current == step.current
    &&& after.line == step.line
    &&& match step.found {
        Scanned::Token { kind, from, to } => {
            &&& r is Ok
            &&& after.start == from
            &&& r->Ok_0@ == (TokenView {
                token_type: kind,
                literal: lexeme_of(src, kind, from, to),
                line: step.line as u32,
            })
        },
        Scanned::Fault { fault, message } => {
            &&& r is Err
            &&& after.start == step.start
            &&& r->Err_0.fault == fault
            &&& r->Err_0.message@ == message
            &&& reported_at(src, step.current, step.line, r->Err_0)
        },
    }
}

/// The scanner: the source and a cursor into it.
#[derive(Debug)]
pub struct Scanner<'a> {
    pub input_stream: &'a [u8],
    pub current: usize,
    pub start: usize,
    pub line: usize,
}

impl<'a> Scanner<'a> {
    /// The source bytes.
    pub open spec fn src(&self) -> Seq<u8> {
        self.input_stream@
    }

    /// The cursors are in order and inside the source, and the line counter
    /// has counted no more than the bytes passed.
    pub open spec fn wf(&self) -> bool {
        &&& self.start <= self.current <= self.src().len()
        &&& self.src().len() < usize::MAX
        &&& 1 <= self.line <= self.current + 1
    }

    /// A scanner at the start of `stream`, on line 1.
    pub fn new(stream: &'a [u8]) -> (r: Self)
        requires
            stream@.len() < usize::MAX,
        ensures
            r.wf(),
            r.src() == stream@,
            r.current == 0,
            r.start == 0,
            r.line == 1,
    {
        Scanner { input_stream: stream, current: 0, start: 0, line: 1 }
    }

    fn is_alpha(c: u8) -> (r: bool)
        ensures
            r == alpha(c),
    {
        (c >= 'a' as u8 && c <= 'z' as u8) || (c >= 'A' as u8 && c <= 'Z' as u8) || c == '_' as u8
    }

    fn is_digit(c: u8) -> (r: bool)
        ensures
            r == digit(c),
    {
        c >= '0' as u8 && c <= '9' as u8
    }

    /// Whether the cursor is at the end of the source.
    fn is_at_end(&self) -> (r: bool)
        ensures
            r == (self.current >= self.src().len()),
    {
        self.current >= self.input_stream.len()
    }

    /// The byte under the cursor, or 0 at the end.
    fn peek(&self) -> (r: u8)
        ensures
            r == if self.current < self.src().len() {
                self.src()[self.current as int]
            } else {
                0u8
            },
    {
        if self.current < self.input_stream.len() {
            self.input_stream[self.current]
        } else {
            0
        }
    }

    /// The byte after the one under the cursor, or 0 where there is none.
    fn peek_next(&self) -> (r: u8)
        ensures
            r == if self.current + 1 < self.src().len() {
                self.src()[self.current + 1]
            } else {
                0u8
            },
    {
        if self.current < self.input_stream.len() && self.current + 1 < self.input_stream.len() {
            self.input_stream[self.current + 1]
        } else {
            0
        }
    }

    /// Moves the cursor one byte on, unless it is at the end.
    fn advance(&mut self)
        requires
            old(self).wf(),
        ensures
            final(self).wf(),
            final(self).input_stream == old(self).input_stream,
            final(self).start == old(self).start,
            final(self).line == old(self).line,
            final(self).current == if old(self).current < old(self).src().len() {
                old(self).current + 1
            } else {
                old(self).current as int
            },
    {
        if self.current < self.input_stream.len() {
            self.current += 1;
        }
    }

    /// Consumes the byte under the cursor if the byte after it is `expected`.
    fn match_next(&mut self, expected: u8) -> (r: bool)
        requires
            old(self).wf(),
        ensures
            final(self).wf(),
            final(self).input_stream == old(self).input_stream,
            final(self).start == old(self).start,
            final(self).line == old(self).line,
            r == (old(self).current + 1 < old(self).src().len() && old(self).src()[old(
                self,
            ).current + 1] == expected),
            final(self).current == if r {
                old(self).current + 1
            } else {
                old(self).current as int
            },
    {
        if self.is_at_end() {
            return false;
        }
        if self.current + 1 >= self.input_stream.len() {
            return false;
        }
        if self.peek_next() != expected {
            return false;
        }
        self.advance();
        true
    }

    /// Looks for `c` from `from`: forward to the first position that holds
    /// it (the end of the source where none does), or backward to the
    /// position just after the last one before `from` that holds it (the
    /// start of the source where none does). Only a newline can be looked
    /// for backward.
    fn seek(&self, c: u8, direction: u8, from: usize) -> (r: usize)
        requires
            from <= self.src().len(),
            direction == FORWARD ==> c == NEWLINE || c == QUOTE,
            direction != FORWARD ==> c == NEWLINE,
        ensures
            direction == FORWARD && c == NEWLINE ==> r == run_end(
                self.src(),
                from as int,
                ByteClass::Inline,
            ),
            direction == FORWARD && c == QUOTE ==> r == run_end(
                self.src(),
                from as int,
                ByteClass::Quoted,
            ),
            direction != FORWARD ==> r == line_start(self.src(), from as int),
            direction == FORWARD ==> from <= r <= self.src().len(),
            direction != FORWARD ==> r <= from,
    {
        let ghost src = self.src();
        let mut index = from;
        if direction == FORWARD {
            let class = if c == NEWLINE {
                ByteClass::Inline
            } else {
                ByteClass::Quoted
            };
            while index < self.input_stream.len() && self.input_stream[index] != c
                invariant
                    from <= index <= src.len(),
                    src == self.src(),
                    class.holds(c) == false,
                    forall|b: u8| b != c ==> class.holds(b),
                    run_end(src, from as int, class) == run_end(src, index as int, class),
                decreases src.len() - index,
            {
                index += 1;
            }
            index
        } else {
            while index > 0 && self.input_stream[index - 1] != NEWLINE
                invariant
                    index <= from <= src.len(),
                    src == self.src(),
                    line_start(src, from as int) == line_start(src, index as int),
                decreases index,
            {
                index -= 1;
            }
            index
        }
    }

    /// The line and column of the cursor.
    pub fn line(&self) -> (r: Line)
        requires
            self.wf(),
        ensures
            r.number == self.line,
            r.offset == self.current - line_start(self.src(), self.current as int),
    {
        Line { number: self.line, offset: self.current - self.seek(NEWLINE, BACKWARD, self.current) }
    }

    /// The text of the line under the cursor.
    pub fn line_to_string(&self) -> (r: Vec<u8>)
        requires
            self.wf(),
        ensures
            r@ == line_text(self.src(), self.current as int),
    {
        let start_index = self.seek(NEWLINE, BACKWARD, self.current);
        let end_index = self.seek(NEWLINE, FORWARD, self.current);
        copy_bytes(slice_subrange(self.input_stream, start_index, end_index))
    }

    /// The bytes between the start of the token and the cursor.
    fn current_to_string(&self) -> (r: Vec<u8>)
        requires
            self.wf(),
        ensures
            r@ == self.src().subrange(self.start as int, self.current as int),
    {
        copy_bytes(slice_subrange(self.input_stream, self.start, self.current))
    }

    /// `token_type` where `expected` stands at the cursor, `IDENTIFIER` elsewhere.
    fn check_keyword(&self, expected: &[u8], token_type: TokenType) -> (r: TokenType)
        requires
            self.wf(),
        ensures
            r == keyword_or_identifier(self.src(), self.current as int, expected@, token_type),
    {
        let n = expected.len();
        if n > self.input_stream.len() - self.current {
            return TokenType::IDENTIFIER;
        }
        if crate::text::bytes_eq(
            expected,
            slice_subrange(self.input_stream, self.current, self.current + n),
        ) {
            token_type
        } else {
            TokenType::IDENTIFIER
        }
    }

    /// Moves the cursor over blanks and comments, counting lines.
    fn skip_whitespace(&mut self)
        requires
            old(self).wf(),
        ensures
            final(self).wf(),
            final(self).input_stream == old(self).input_stream,
            final(self).start == old(self).start,
            final(self).current == skip_to(old(self).src(), old(self).current as int, false),
            final(self).line == old(self).line + newlines(
                old(self).src(),
                old(self).current as int,
                final(self).current as int,
            ),
    {
        let ghost src = self.src();
        let ghost from = self.current as int;
        let ghost line0 = self.line as int;
        let mut in_comment = false;
        loop
            invariant
                self.wf(),
                self.input_stream == old(self).input_stream,
                self.start == old(self).start,
                src == self.src(),
                from <= self.current,
                skip_to(src, from, false) == skip_to(src, self.current as int, in_comment),
                self.line == line0 + newlines(src, from, self.current as int),
            ensures
                self.current == skip_to(src, from, false),
            decreases src.len() - self.current,
        {
            if self.current >= self.input_stream.len() {
                break;
            }
            let c = self.input_stream[self.current];
            if in_comment {
                in_comment = c != NEWLINE;
            } else if c == ' ' as u8 || c == '\t' as u8 || c == '\r' as u8 || c == NEWLINE {
            } else if c == '/' as u8 && self.peek_next() == '/' as u8 && self.current + 1
                < self.input_stream.len() {
                in_comment = true;
                self.current += 1;
                assert(newlines(src, from, self.current as int) == newlines(
                    src,
                    from,
                    self.current - 1,
                ));
            } else {
                break;
            }
            if c == NEWLINE {
                self.line += 1;
            }
            self.current += 1;
        }
    }

    /// Moves the cursor to the end of the run of bytes of `class` under it.
    fn skip_run(&mut self, class: ByteClass)
        requires
            old(self).wf(),
            class != ByteClass::Quoted,
        ensures
            final(self).wf(),
            final(self).input_stream == old(self).input_stream,
            final(self).start == old(self).start,
            final(self).line == old(self).line,
            final(self).current == run_end(old(self).src(), old(self).current as int, class),
            final(self).current >= old(self).current,
    {
        let ghost src = self.src();
        let ghost from = self.current as int;
        while self.current < self.input_stream.len() && class.contains(
            self.input_stream[self.current],
        )
            invariant
                self.wf(),
                self.input_stream == old(self).input_stream,
                self.start == old(self).start,
                self.line == old(self).line,
                src == self.src(),
                from <= self.current,
                run_end(src, from, class) == run_end(src, self.current as int, class),
            decreases src.len() - self.current,
        {
            self.current += 1;
        }
    }

    /// The token from the start mark to the cursor.
    fn make_token(&self, token_type: TokenType) -> (r: Token<'a>)
        requires
            self.wf(),
        ensures
            r@ == (TokenView {
                token_type,
                literal: self.src().subrange(self.start as int, self.current as int),
                line: self.line as u32,
            }),
    {
        Token::new(
            token_type,
            slice_subrange(self.input_stream, self.start, self.current),
            self.line as u32,
        )
    }

    /// Scans a numeral whose first digit is under the cursor.
    fn number(&mut self) -> (r: Token<'a>)
        requires
            old(self).wf(),
            old(self).start == old(self).current,
            old(self).current < old(self).src().len(),
        ensures
            final(self).wf(),
            final(self).input_stream == old(self).input_stream,
            final(self).start == old(self).start,
            final(self).line == old(self).line,
            final(self).current == number_end(old(self).src(), old(self).current + 1),
            r@ == (TokenView {
                token_type: TokenType::NUMBER,
                literal: old(self).src().subrange(old(self).start as int, final(self).current as int),
                line: old(self).line as u32,
            }),
    {
        self.current += 1;
        self.skip_run(ByteClass::Digit);
        if self.peek() == '.' as u8 && Self::is_digit(self.peek_next()) && self.current + 1
            < self.input_stream.len() {
            self.current += 1;
            self.skip_run(ByteClass::Digit);
        }
        self.make_token(TokenType::NUMBER)
    }

    /// Scans a word whose first letter is under the cursor.
    fn identifier(&mut self) -> (r: Token<'a>)
        requires
            old(self).wf(),
            old(self).start == old(self).current,
            old(self).current < old(self).src().len(),
        ensures
            final(self).wf(),
            final(self).input_stream == old(self).input_stream,
            final(self).start == old(self).start,
            final(self).line == old(self).line,
            final(self).current == run_end(
                old(self).src(),
                old(self).current + 1,
                ByteClass::Word,
            ),
            r@ == (TokenView {
                token_type: word_kind(old(self).src(), old(self).current as int),
                literal: old(self).src().subrange(old(self).start as int, final(self).current as int),
                line: old(self).line as u32,
            }),
    {
        let c = self.peek();
        let d = self.peek_next();
        let token_type = if c == 'a' as u8 {
            self.check_keyword(&['a' as u8, 'n' as u8, 'd' as u8], TokenType::AND)
        } else if c == 'c' as u8 {
            if d == 'l' as u8 {
                self.check_keyword(
                    &['c' as u8, 'l' as u8, 'a' as u8, 's' as u8, 's' as u8],
                    TokenType::CLASS,
                )
            } else if d == 'o' as u8 {
                self.check_keyword(
                    &['c' as u8, 'o' as u8, 'n' as u8, 's' as u8, 't' as u8],
                    TokenType::CONST,
                )
            } else {
                TokenType::IDENTIFIER
            }
        } else if c == 'e' as u8 {
            self.check_keyword(&['e' as u8, 'l' as u8, 's' as u8, 'e' as u8], TokenType::ELSE)
        } else if c == 'f' as u8 {
            if d == 'a' as u8 {
                self.check_keyword(
                    &['f' as u8, 'a' as u8, 'l' as u8, 's' as u8, 'e' as u8],
                    TokenType::FALSE,
                )
            } else if d == 'o' as u8 {
                self.check_keyword(&['f' as u8, 'o' as u8, 'r' as u8], TokenType::FOR)
            } else if d == 'u' as u8 {
                self.check_keyword(&['f' as u8, 'u' as u8, 'n' as u8], TokenType::FUN)
            } else {
                TokenType::IDENTIFIER
            }
        } else if c == 'i' as u8 {
            self.check_keyword(&['i' as u8, 'f' as u8], TokenType::IF)
        } else if c == 'n' as u8 {
            self.check_keyword(&['n' as u8, 'i' as u8, 'l' as u8], TokenType::NIL)
        } else if c == 'o' as u8 {
            self.check_keyword(&['o' as u8, 'r' as u8], TokenType::OR)
        } else if c == 'p' as u8 {
            self.check_keyword(
                &['p' as u8, 'r' as u8, 'i' as u8, 'n' as u8, 't' as u8],
                TokenType::PRINT,
            )
        } else if c == 'r' as u8 {
            self.check_keyword(
                &['r' as u8, 'e' as u8, 't' as u8, 'u' as u8, 'r' as u8, 'n' as u8],
                TokenType::RETURN,
            )
        } else if c == 's' as u8 {
            self.check_keyword(
                &['s' as u8, 'u' as u8, 'p' as u8, 'e' as u8, 'r' as u8],
                TokenType::SUPER,
            )
        } else if c == 't' as u8 {
            if d == 'h' as u8 {
                self.check_keyword(&['t' as u8, 'h' as u8, 'i' as u8, 's' as u8], TokenType::THIS)
            } else if d == 'r' as u8 {
                self.check_keyword(&['t' as u8, 'r' as u8, 'u' as u8, 'e' as u8], TokenType::TRUE)
            } else {
                TokenType::IDENTIFIER
            }
        } else if c == 'v' as u8 {
            self.check_keyword(&['v' as u8, 'a' as u8, 'r' as u8], TokenType::VAR)
        } else if c == 'w' as u8 {
            self.check_keyword(
                &['w' as u8, 'h' as u8, 'i' as u8, 'l' as u8, 'e' as u8],
                TokenType::WHILE,
            )
        } else {
            TokenType::IDENTIFIER
        };
        self.current += 1;
        self.skip_run(ByteClass::Word);
        self.make_token(token_type)
    }

    /// The error for the cursor's place.
    pub fn fault_here(&self, fault: SyntaxFault, message: Vec<u8>) -> (r: ScannerErr)
        requires
            self.wf(),
        ensures
            r.fault == fault,
            r.message == message,
            reported_at(self.src(), self.current as int, self.line as int, r),
    {
        let place = self.line();
        ScannerErr::new(fault, message, self.line_to_string(), place.number, place.offset)
    }

    /// Scans a string literal whose opening quote is under the cursor. The
    /// token's lexeme is what stands between the quotes.
    fn string(&mut self) -> (r: Result<Token<'a>, ScannerErr>)
        requires
            old(self).wf(),
            old(self).start == old(self).current,
            old(self).current < old(self).src().len(),
        ensures
            final(self).wf(),
            final(self).input_stream == old(self).input_stream,
            ({
                let src = old(self).src();
                let close = run_end(src, old(self).current + 1, ByteClass::Quoted);
                &&& final(self).line == old(self).line + newlines(
                    src,
                    old(self).current + 1,
                    close,
                )
                &&& r is Ok <==> close < src.len()
                &&& r is Ok ==> {
                    &&& final(self).current == close + 1
                    &&& final(self).start == old(self).current + 1
                    &&& r->Ok_0@ == (TokenView {
                        token_type: TokenType::STRING,
                        literal: src.subrange(old(self).current + 1, close),
                        line: final(self).line as u32,
                    })
                }
                &&& r is Err ==> {
                    &&& final(self).current == close
                    &&& final(self).start == old(self).current
                    &&& r->Err_0.fault == SyntaxFault::UnterminatedString
                    &&& r->Err_0.message@ == "Unterminated string".spec_bytes()
                    &&& reported_at(src, close, final(self).line as int, r->Err_0)
                }
            }),
    {
        let ghost src = self.src();
        let ghost from = self.current + 1;
        let ghost line0 = self.line as int;
        self.current += 1;
        while self.current < self.input_stream.len() && self.input_stream[self.current] != QUOTE
            invariant
                self.wf(),
                self.input_stream == old(self).input_stream,
                self.start == old(self).start,
                src == self.src(),
                from <= self.current,
                from == old(self).current + 1,
                run_end(src, from, ByteClass::Quoted) == run_end(
                    src,
                    self.current as int,
                    ByteClass::Quoted,
                ),
                self.line == line0 + newlines(src, from, self.current as int),
                self.line <= self.current,
            decreases src.len() - self.current,
        {
            if self.input_stream[self.current] == NEWLINE {
                self.line += 1;
            }
            self.current += 1;
        }
        if self.current >= self.input_stream.len() {
            return Err(
                self.fault_here(
                    SyntaxFault::UnterminatedString,
                    crate::text::text_bytes("Unterminated string"),
                ),
            );
        }
        self.start += 1;
        let token = self.make_token(TokenType::STRING);
        self.current += 1;
        Ok(token)
    }

    /// Scans the punctuation or operator under the cursor, if one stands there.
    fn symbol(&mut self) -> (r: Option<Token<'a>>)
        requires
            old(self).wf(),
            old(self).start == old(self).current,
            old(self).current < old(self).src().len(),
        ensures
            final(self).wf(),
            final(self).input_stream == old(self).input_stream,
            final(self).start == old(self).start,
            final(self).line == old(self).line,
            ({
                let src = old(self).src();
                let found = symbol_kind(src, old(self).current as int);
                &&& r is Some <==> found is Some
                &&& r is Some ==> {
                    &&& final(self).current == old(self).current + symbol_len(found->Some_0)
                    &&& r->Some_0@ == (TokenView {
                        token_type: found->Some_0,
                        literal: src.subrange(
                            old(self).current as int,
                            old(self).current + symbol_len(found->Some_0),
                        ),
                        line: old(self).line as u32,
                    })
                }
                &&& r is None ==> final(self).current == old(self).current
            }),
    {
        let c = self.input_stream[self.current];
        let token_type = if c == '(' as u8 {
            TokenType::LEFT_PAREN
        } else if c == ')' as u8 {
            TokenType::RIGHT_PAREN
        } else if c == '{' as u8 {
            TokenType::LEFT_BRACE
        } else if c == '}' as u8 {
            TokenType::RIGHT_BRACE
        } else if c == ';' as u8 {
            TokenType::SEMICOLON
        } else if c == ',' as u8 {
            TokenType::COMMA
        } else if c == '.' as u8 {
            TokenType::DOT
        } else if c == '-' as u8 {
            TokenType::MINUS
        } else if c == '+' as u8 {
            TokenType::PLUS
        } else if c == '/' as u8 {
            TokenType::SLASH
        } else if c == '*' as u8 {
            TokenType::STAR
        } else if c == '!' as u8 {
            if self.match_next('=' as u8) {
                TokenType::BANG_EQUAL
            } else {
                TokenType::BANG
            }
        } else if c == '=' as u8 {
            if self.match_next('=' as u8) {
                TokenType::EQUAL_EQUAL
            } else {
                TokenType::EQUAL
            }
        } else if c == '<' as u8 {
            if self.match_next('=' as u8) {
                TokenType::LESS_EQUAL
            } else {
                TokenType::LESS
            }
        } else if c == '>' as u8 {
            if self.match_next('=' as u8) {
                TokenType::GREATER_EQUAL
            } else {
                TokenType::GREATER
            }
        } else {
            return None;
        };
        self.current += 1;
        Some(self.make_token(token_type))
    }

    /// Scans one token: skips blanks and comments, marks the start, and
    /// reads the word, numeral, string or symbol that stands there. At the
    /// end of the source the token is `EOF`, on every call.
    fn scan(&mut self) -> (r: Result<Token<'a>, ScannerErr>)
        requires
            old(self).wf(),
        ensures
            final(self).wf(),
            final(self).input_stream == old(self).input_stream,
            scanned(*old(self), *final(self), r),
    {
        let ghost src = self.src();
        let ghost step = scan_step(src, self.current as int, self.line as int);
        self.skip_whitespace();
        self.start = self.current;
        if self.is_at_end() {
            return Ok(Token::new(TokenType::EOF, "eof".as_bytes(), self.line as u32));
        }
        let c = self.input_stream[self.current];
        if Self::is_alpha(c) {
            return Ok(self.identifier());
        }
        if Self::is_digit(c) {
            return Ok(self.number());
        }
        if c == QUOTE {
            return self.string();
        }
        match self.symbol() {
            Some(token) => Ok(token),
            None => {
                self.current += 1;
                let mut message: Vec<u8> = Vec::new();
                push_text(&mut message, "unexpected token on line ");
                push_decimal(&mut message, self.line);
                push_text(&mut message, ": ");
                let found = self.current_to_string();
                push_bytes(&mut message, found.as_slice());
                assert(message@ =~= unexpected_message(src, self.start as int, self.line as int));
                Err(self.fault_here(SyntaxFault::UnexpectedCharacter, message))
            },
        }
    }

    /// The next token.
    pub fn next(&mut self) -> (r: Result<Token<'a>, ScannerErr>)
        requires
            old(self).wf(),
        ensures
            final(self).wf(),
            final(self).input_stream == old(self).input_stream,
            scanned(*old(self), *final(self), r),
    {
        self.scan()
    }
}

/// The lexemes of the number literals of `src` from the cursor `pos` on, in
/// their order, up to the end of the source or the first byte that starts
/// no token.
pub open spec fn number_lexemes(src: Seq<u8>, pos: int, line: int) -> Seq<Seq<u8>>
    decreases src.len() - pos,
{
    if !(0 <= pos <= src.len()) {
        Seq::empty()
    } else {
        let step = scan_step(src, pos, line);
        match step.found {
            Scanned::Fault { .. } => Seq::empty(),
            Scanned::Token { kind, from, to } => if kind == TokenType::EOF {
                Seq::empty()
            } else {
                proof {
                    scan_progress(src, pos, line);
                }
                (if kind == TokenType::NUMBER {
                    seq![src.subrange(from, to)]
                } else {
                    Seq::empty()
                }) + number_lexemes(src, step.current, step.line)
            },
        }
    }
}

/// The lexemes of the number literals of `src`, in their order. The
/// compiler wants the value of each, as the bits of a double.
pub fn number_literals(src: &[u8]) -> (r: Vec<Vec<u8>>)
    requires
        src@.len() < usize::MAX,
    ensures
        Seq::new(r@.len(), |i: int| r@[i]@) == number_lexemes(src@, 0, 1),
{
    let mut scanner = Scanner::new(src);
    let mut found: Vec<Vec<u8>> = Vec::new();
    assert(Seq::new(found@.len(), |i: int| found@[i]@) =~= Seq::<Seq<u8>>::empty());
    loop
        invariant_except_break
            scanner.wf(),
            scanner.src() == src@,
            number_lexemes(src@, 0, 1) == Seq::new(found@.len(), |i: int| found@[i]@)
                + number_lexemes(src@, scanner.current as int, scanner.line as int),
        ensures
            Seq::new(found@.len(), |i: int| found@[i]@) == number_lexemes(src@, 0, 1),
        decreases src@.len() - scanner.current,
    {
        let ghost before = Seq::new(found@.len(), |i: int| found@[i]@);
        let ghost pos = scanner.current as int;
        let ghost line = scanner.line as int;
        proof {
            scan_progress(src@, pos, line);
        }
        match scanner.next() {
            Err(_) => {
                assert(before + Seq::<Seq<u8>>::empty() =~= before);
                break;
            },
            Ok(token) => {
                match token.token_type {
                    TokenType::EOF => {
                        assert(before + Seq::<Seq<u8>>::empty() =~= before);
                        break;
                    },
                    TokenType::NUMBER => {
                        found.push(token.lexeme());
                        assert(Seq::new(found@.len(), |i: int| found@[i]@) =~= before + seq![
                            token@.literal,
                        ]);
                        assert((before + seq![token@.literal]) + number_lexemes(
                            src@,
                            scanner.current as int,
                            scanner.line as int,
                        ) =~= before + (seq![token@.literal] + number_lexemes(
                            src@,
                            scanner.current as int,
                            scanner.line as int,
                        )));
                    },
                    _ => {
                        assert(Seq::<Seq<u8>>::empty() + number_lexemes(
                            src@,
                            scanner.current as int,
                            scanner.line as int,
                        ) =~= number_lexemes(src@, scanner.current as int, scanner.line as int));
                    },
                }
            },
        }
    }
    found
}

} // verus!
