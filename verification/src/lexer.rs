//! The lexer: source text in, tokens out, one at a time.

use vstd::prelude::*;
use crate::error::{Error, ErrorInfo, ErrorInfoView, ErrorView};
use crate::span::Span;
use crate::text::text_of;
use crate::token::{keyword_or_identifier, lookup_identifier, TokenInfo, TokenInfoView, TokenType, TokenView};

verus! {

/// A place in the text: an offset, the line it lies on (lines count from
/// one) and the offset at which that line begins.
pub struct Cursor {
    pub pos: nat,
    pub line: nat,
    pub line_start: nat,
}

/// The character at offset `i`, or NUL past the end of the text.
pub open spec fn char_at(data: Seq<char>, i: nat) -> char {
    if i < data.len() {
        data[i as int]
    } else {
        '\0'
    }
}

pub open spec fn blank(c: char) -> bool {
    c == ' ' || c == '\r' || c == '\t' || c == '\n'
}

pub open spec fn digit(c: char) -> bool {
    '0' <= c && c <= '9'
}

/// A character that may begin a word.
pub open spec fn word_start(c: char) -> bool {
    ('a' <= c && c <= 'z') || ('A' <= c && c <= 'Z') || c == '_'
}

/// A character that may continue a word: a digit, a lower-case letter or
/// an underscore.
pub open spec fn word_part(c: char) -> bool {
    digit(c) || ('a' <= c && c <= 'z') || c == '_'
}

pub open spec fn number_part(c: char) -> bool {
    digit(c) || c == '.'
}

/// The kinds of run that a token can continue with.
#[derive(Debug, PartialEq, Eq, Clone, Copy, Structural)]
pub enum Run {
    /// Word characters.
    Word,
    /// Digits and points.
    Number,
    /// Anything but `"`.
    Quoted,
}

impl Run {
    /// Whether the run goes on over `c`.
    pub open spec fn keeps(self, c: char) -> bool {
        match self {
            Run::Word => word_part(c),
            Run::Number => number_part(c),
            Run::Quoted => c != '"',
        }
    }
}

/// The line number after one more line break; it stays at the largest
/// number there is.
pub open spec fn line_after(line: nat) -> nat {
    if line < usize::MAX {
        line + 1
    } else {
        line
    }
}

/// The cursor after the character under it; unchanged at the end of the text.
pub open spec fn step(data: Seq<char>, c: Cursor) -> Cursor {
    if c.pos >= data.len() {
        c
    } else if data[c.pos as int] == '\n' {
        Cursor { pos: c.pos + 1, line: line_after(c.line), line_start: c.pos + 1 }
    } else {
        Cursor { pos: c.pos + 1, ..c }
    }
}

/// The cursor after the longest run of characters that satisfy `keep`.
pub open spec fn run(data: Seq<char>, c: Cursor, kind: Run) -> Cursor
    decreases data.len() - c.pos,
{
    if c.pos < data.len() && kind.keeps(data[c.pos as int]) {
        run(data, step(data, c), kind)
    } else {
        c
    }
}

/// The cursor after the blanks and comments that begin at `c`. A comment
/// runs from `#` to the end of its line.
pub open spec fn skip_blank(data: Seq<char>, c: Cursor, comment: bool) -> Cursor
    decreases data.len() - c.pos,
{
    if c.pos >= data.len() {
        c
    } else if comment {
        skip_blank(data, step(data, c), data[c.pos as int] != '\n')
    } else if blank(data[c.pos as int]) {
        skip_blank(data, step(data, c), false)
    } else if data[c.pos as int] == '#' {
        skip_blank(data, step(data, c), true)
    } else {
        c
    }
}

/// How many decimal points `s` holds.
pub open spec fn points(s: Seq<char>) -> nat
    decreases s.len(),
{
    if s.len() == 0 {
        0
    } else {
        points(s.drop_last()) + if s.last() == '.' { 1nat } else { 0nat }
    }
}

/// One token of two characters where `second` follows, else of one.
pub open spec fn pair(data: Seq<char>, c: Cursor, second: char, two: TokenType, one: TokenType) -> (
    Cursor,
    Result<TokenView, ErrorView>,
) {
    if char_at(data, c.pos) == second {
        (step(data, c), Ok(TokenView::Plain(two)))
    } else {
        (c, Ok(TokenView::Plain(one)))
    }
}

/// As `pair`, with two possible second characters.
pub open spec fn triple(
    data: Seq<char>,
    c: Cursor,
    second: char,
    two: TokenType,
    other: char,
    doubled: TokenType,
    one: TokenType,
) -> (Cursor, Result<TokenView, ErrorView>) {
    if char_at(data, c.pos) == second {
        (step(data, c), Ok(TokenView::Plain(two)))
    } else {
        pair(data, c, other, doubled, one)
    }
}

pub open spec fn single(c: Cursor, t: TokenType) -> (Cursor, Result<TokenView, ErrorView>) {
    (c, Ok(TokenView::Plain(t)))
}

pub open spec fn unknown_character(ch: char) -> Seq<char> {
    "unknown character:'"@ + seq![ch] + "'"@
}

pub open spec fn invalid_number(lexeme: Seq<char>) -> Seq<char> {
    "invalid number:'"@ + lexeme + "'"@
}

/// The token that begins at `c`, where no blank or comment begins, and the
/// cursor after it.
///
/// - At the end of the text, and at a NUL character: `Eof`.
/// - Punctuation and operators; an operator of two characters wins over
///   its first character alone.
/// - `"`, then everything up to the next `"`: a string with what lies
///   between them. Without a closing `"` the rest of the text is consumed
///   and the string is unterminated.
/// - A letter or `_`, then the longest run of word characters: a keyword
///   or an identifier.
/// - A digit, then the longest run of digits and points: a number if it
///   holds at most one point, else a value error.
/// - Any other character is unknown.
pub open spec fn token_at(data: Seq<char>, c: Cursor) -> (Cursor, Result<TokenView, ErrorView>) {
    if c.pos >= data.len() {
        (c, Ok(TokenView::Plain(TokenType::Eof)))
    } else {
        let ch = data[c.pos as int];
        let c1 = step(data, c);
        if ch == '\0' {
            single(c1, TokenType::Eof)
        } else if ch == ',' {
            single(c1, TokenType::Comma)
        } else if ch == '.' {
            single(c1, TokenType::Dot)
        } else if ch == '[' {
            single(c1, TokenType::LBrace)
        } else if ch == ']' {
            single(c1, TokenType::RBrace)
        } else if ch == '{' {
            single(c1, TokenType::LCurly)
        } else if ch == '}' {
            single(c1, TokenType::RCurly)
        } else if ch == '(' {
            single(c1, TokenType::LParen)
        } else if ch == ')' {
            single(c1, TokenType::RParen)
        } else if ch == ';' {
            single(c1, TokenType::Semicolon)
        } else if ch == '+' {
            pair(data, c1, '=', TokenType::PlusEq, TokenType::Plus)
        } else if ch == '-' {
            pair(data, c1, '=', TokenType::SubEq, TokenType::Minus)
        } else if ch == '*' {
            pair(data, c1, '=', TokenType::MulEq, TokenType::Times)
        } else if ch == '/' {
            pair(data, c1, '=', TokenType::DivEq, TokenType::Divide)
        } else if ch == '%' {
            pair(data, c1, '=', TokenType::ModEq, TokenType::Mod)
        } else if ch == '=' {
            pair(data, c1, '=', TokenType::Eq, TokenType::Assign)
        } else if ch == '!' {
            pair(data, c1, '=', TokenType::Ne, TokenType::Not)
        } else if ch == '^' {
            pair(data, c1, '=', TokenType::XorEq, TokenType::Xor)
        } else if ch == '&' {
            triple(data, c1, '=', TokenType::AndEq, '&', TokenType::LAnd, TokenType::And)
        } else if ch == '|' {
            triple(data, c1, '=', TokenType::OrEq, '|', TokenType::LOr, TokenType::Or)
        } else if ch == '<' {
            triple(data, c1, '=', TokenType::Lte, '<', TokenType::LShift, TokenType::Lt)
        } else if ch == '>' {
            triple(data, c1, '=', TokenType::Gte, '>', TokenType::RShift, TokenType::Gt)
        } else if ch == '"' {
            let c2 = run(data, c1, Run::Quoted);
            if c2.pos >= data.len() {
                (c2, Err(ErrorView::Syntax("unterminated string"@)))
            } else {
                (step(data, c2), Ok(TokenView::String(data.subrange(c1.pos as int, c2.pos as int))))
            }
        } else if word_start(ch) {
            let c2 = run(data, c1, Run::Word);
            (c2, Ok(keyword_or_identifier(data.subrange(c.pos as int, c2.pos as int))))
        } else if digit(ch) {
            let c2 = run(data, c1, Run::Number);
            let lexeme = data.subrange(c.pos as int, c2.pos as int);
            if points(lexeme) <= 1 {
                (c2, Ok(TokenView::Number(lexeme)))
            } else {
                (c2, Err(ErrorView::Value(invalid_number(lexeme))))
            }
        } else {
            (c1, Err(ErrorView::Syntax(unknown_character(ch))))
        }
    }
}

/// The lexer's state.
pub struct Lexer {
    start: usize,
    curr: usize,
    line: usize,
    line_start: usize,
    token_line: usize,
    token_line_start: usize,
    data: Vec<char>,
    errors: Vec<ErrorInfo>,
}

pub struct LexerView {
    pub data: Seq<char>,
    /// Where the latest token begins.
    pub start: nat,
    /// The line of `start`, and where that line begins.
    pub token_line: nat,
    pub token_line_start: nat,
    /// Where the next token is looked for.
    pub cursor: Cursor,
    pub errors: Seq<ErrorInfoView>,
}

pub open spec fn error_views(errors: Seq<ErrorInfo>) -> Seq<ErrorInfoView> {
    errors.map_values(|e: ErrorInfo| e@)
}

impl View for Lexer {
    type V = LexerView;

    closed spec fn view(&self) -> LexerView {
        LexerView {
            data: self.data@,
            start: self.start as nat,
            token_line: self.token_line as nat,
            token_line_start: self.token_line_start as nat,
            cursor: Cursor {
                pos: self.curr as nat,
                line: self.line as nat,
                line_start: self.line_start as nat,
            },
            errors: error_views(self.errors@),
        }
    }
}

impl LexerView {
    /// The span of the latest token.
    pub open spec fn span(self) -> Span {
        Span {
            line: self.token_line as usize,
            line_start: self.token_line_start as usize,
            start: self.start as usize,
            end: self.cursor.pos as usize,
        }
    }

    pub open spec fn wf(self) -> bool {
        &&& self.token_line_start <= self.start <= self.cursor.pos <= self.data.len() <= usize::MAX
        &&& self.cursor.line_start <= self.cursor.pos
        &&& self.cursor.line <= usize::MAX
        &&& self.token_line <= usize::MAX
    }

    /// The state after one scan, and what the scan found.
    pub open spec fn scan(self) -> (LexerView, Result<TokenView, ErrorView>) {
        let c = skip_blank(self.data, self.cursor, false);
        let (after, found) = token_at(self.data, c);
        (
            LexerView {
                start: c.pos,
                token_line: c.line,
                token_line_start: c.line_start,
                cursor: after,
                ..self
            },
            found,
        )
    }

    /// The state after the next token, and that token. A scan that fails
    /// adds its error to `errors`, and the search goes on behind it.
    #[verifier::opaque]
    pub open spec fn next(self) -> (LexerView, TokenInfoView)
        decreases self.data.len() - self.cursor.pos,
    {
        let (after, found) = self.scan();
        match found {
            Ok(token) => (after, TokenInfoView { token, span: after.span() }),
            Err(error) => {
                let reported = LexerView {
                    errors: after.errors.push(ErrorInfoView { error, span: after.span() }),
                    ..after
                };
                proof {
                    failed_scan_advances(self);
                }
                reported.next()
            },
        }
    }
}

pub open spec fn found_view(r: Result<TokenType, Error>) -> Result<TokenView, ErrorView> {
    match r {
        Ok(t) => Ok(t@),
        Err(e) => Err(e@),
    }
}

pub proof fn step_moves(data: Seq<char>, c: Cursor)
    requires
        c.line_start <= c.pos <= data.len(),
        c.line <= usize::MAX,
    ensures
        step(data, c).line_start <= step(data, c).pos <= data.len(),
        step(data, c).line <= usize::MAX,
        c.pos <= step(data, c).pos <= c.pos + 1,
        c.pos < data.len() ==> step(data, c).pos == c.pos + 1,
{
}

impl Lexer {
    pub open spec fn wf(&self) -> bool {
        self@.wf()
    }

    pub fn new(data: String) -> (l: Self)
        ensures
            l.wf(),
            l@ == (LexerView {
                data: data@,
                start: 0,
                token_line: 1,
                token_line_start: 0,
                cursor: Cursor { pos: 0, line: 1, line_start: 0 },
                errors: Seq::empty(),
            }),
    {
        let chars = crate::text::chars_of(data.as_str());
        let ghost n = chars.len();
        let l = Self {
            start: 0,
            curr: 0,
            line: 1,
            line_start: 0,
            token_line: 1,
            token_line_start: 0,
            data: chars,
            errors: Vec::new(),
        };
        assert(error_views(l.errors@) == Seq::<ErrorInfoView>::empty());
        assert(l@.data.len() == n);
        l
    }

    /// The lexical errors that `next` has passed over, oldest first.
    pub fn errors(&self) -> (errors: &Vec<ErrorInfo>)
        ensures
            error_views(errors@) == self@.errors,
    {
        &self.errors
    }

    pub fn is_eof(&self) -> (b: bool)
        ensures
            b == (self@.cursor.pos >= self@.data.len()),
    {
        self.curr >= self.data.len()
    }

    /// Consumes the character under the cursor and returns it; NUL at the
    /// end of the text, where nothing is consumed.
    pub fn next_char(&mut self) -> (ch: char)
        requires
            old(self).wf(),
        ensures
            final(self).wf(),
            ch == char_at(old(self)@.data, old(self)@.cursor.pos),
            final(self)@ == (LexerView { cursor: step(old(self)@.data, old(self)@.cursor), ..old(self)@ }),
    {
        if self.is_eof() {
            return '\x00';
        }
        let ch = self.data[self.curr];
        if ch == '\n' {
            if self.line < usize::MAX {
                self.line += 1;
            }
            self.line_start = self.curr + 1;
        }
        self.curr += 1;
        ch
    }

    /// The character under the cursor; NUL at the end of the text.
    pub fn peek_char(&self) -> (ch: char)
        ensures
            ch == char_at(self@.data, self@.cursor.pos),
    {
        if self.is_eof() {
            return '\x00';
        }
        self.data[self.curr]
    }

    pub fn is_digit(&self, ch: char) -> (b: bool)
        ensures
            b == digit(ch),
    {
        '0' <= ch && ch <= '9'
    }

    /// Whether `ch` may continue a word, digits aside.
    pub fn is_identifier(&self, ch: char) -> (b: bool)
        ensures
            b == (('a' <= ch && ch <= 'z') || ch == '_'),
    {
        ('a' <= ch && ch <= 'z') || '_' == ch
    }

    /// Consumes the character under the cursor if it is `ch`.
    pub fn is_next_char(&mut self, ch: char) -> (b: bool)
        requires
            old(self).wf(),
        ensures
            final(self).wf(),
            b == (char_at(old(self)@.data, old(self)@.cursor.pos) == ch),
            b ==> final(self)@ == (LexerView {
                cursor: step(old(self)@.data, old(self)@.cursor),
                ..old(self)@
            }),
            !b ==> final(self)@ == old(self)@,
    {
        if self.peek_char() == ch {
            self.next_char();
            return true;
        }
        false
    }

    pub fn is_whitespace(&self, ch: char) -> (b: bool)
        ensures
            b == blank(ch),
    {
        ch == ' ' || ch == '\r' || ch == '\t' || ch == '\n'
    }

    /// Moves the cursor over blanks and comments.
    fn skip_blanks(&mut self)
        requires
            old(self).wf(),
        ensures
            final(self).wf(),
            final(self)@ == (LexerView {
                cursor: skip_blank(old(self)@.data, old(self)@.cursor, false),
                ..old(self)@
            }),
            final(self)@.cursor.pos >= old(self)@.cursor.pos,
    {
        let mut comment = false;
        let mut going = true;
        while going
            invariant
                self.wf(),
                self@ == (LexerView { cursor: self@.cursor, ..old(self)@ }),
                self@.cursor.pos >= old(self)@.cursor.pos,
                going ==> skip_blank(old(self)@.data, old(self)@.cursor, false) == skip_blank(
                    self@.data,
                    self@.cursor,
                    comment,
                ),
                !going ==> skip_blank(old(self)@.data, old(self)@.cursor, false) == self@.cursor,
            decreases self@.data.len() - self@.cursor.pos + if going { 1int } else { 0int },
        {
            if self.is_eof() {
                going = false;
            } else {
                let ch = self.peek_char();
                if comment {
                    self.next_char();
                    comment = ch != '\n';
                } else if self.is_whitespace(ch) {
                    self.next_char();
                } else if ch == '#' {
                    self.next_char();
                    comment = true;
                } else {
                    going = false;
                }
            }
        }
    }

    /// Moves the cursor over the longest run of the given kind.
    fn consume(&mut self, kind: Run)
        requires
            old(self).wf(),
        ensures
            final(self).wf(),
            final(self)@ == (LexerView {
                cursor: run(old(self)@.data, old(self)@.cursor, kind),
                ..old(self)@
            }),
            final(self)@.cursor.pos >= old(self)@.cursor.pos,
    {
        let mut going = true;
        while going
            invariant
                self.wf(),
                self@ == (LexerView { cursor: self@.cursor, ..old(self)@ }),
                self@.cursor.pos >= old(self)@.cursor.pos,
                going ==> run(old(self)@.data, old(self)@.cursor, kind) == run(self@.data, self@.cursor, kind),
                !going ==> run(old(self)@.data, old(self)@.cursor, kind) == self@.cursor,
            decreases self@.data.len() - self@.cursor.pos + if going { 1int } else { 0int },
        {
            if self.is_eof() {
                going = false;
            } else {
                let ch = self.peek_char();
                let keep = match kind {
                    Run::Word => self.is_digit(ch) || self.is_identifier(ch),
                    Run::Number => self.is_digit(ch) || ch == '.',
                    Run::Quoted => ch != '"',
                };
                if keep {
                    self.next_char();
                } else {
                    going = false;
                }
            }
        }
    }

    /// Whether `data[from..to]` holds at most one decimal point.
    fn at_most_one_point(&self, from: usize, to: usize) -> (b: bool)
        requires
            from <= to <= self@.data.len(),
        ensures
            b == (points(self@.data.subrange(from as int, to as int)) <= 1),
    {
        let mut count: usize = 0;
        let mut i: usize = from;
        while i < to
            invariant
                from <= i <= to <= self.data.len(),
                self.data@ == self@.data,
                count == points(self.data@.subrange(from as int, i as int)),
                count <= i - from,
            decreases to - i,
        {
            proof {
                let longer = self.data@.subrange(from as int, i + 1);
                assert(longer.drop_last() == self.data@.subrange(from as int, i as int));
                assert(longer.last() == self.data@[i as int]);
            }
            if self.data[i] == '.' {
                count += 1;
            }
            i += 1;
        }
        count <= 1
    }

    fn pair(&mut self, second: char, two: TokenType, one: TokenType) -> (t: TokenType)
        requires
            old(self).wf(),
            two.is_plain(),
            one.is_plain(),
        ensures
            final(self).wf(),
            (final(self)@.cursor, Ok::<TokenView, ErrorView>(t@)) == pair(
                old(self)@.data,
                old(self)@.cursor,
                second,
                two,
                one,
            ),
            final(self)@ == (LexerView { cursor: final(self)@.cursor, ..old(self)@ }),
            final(self)@.cursor.pos >= old(self)@.cursor.pos,
    {
        if self.is_next_char(second) {
            two
        } else {
            one
        }
    }

    fn triple(&mut self, second: char, two: TokenType, other: char, doubled: TokenType, one: TokenType) -> (t:
        TokenType)
        requires
            old(self).wf(),
            two.is_plain(),
            doubled.is_plain(),
            one.is_plain(),
        ensures
            final(self).wf(),
            (final(self)@.cursor, Ok::<TokenView, ErrorView>(t@)) == triple(
                old(self)@.data,
                old(self)@.cursor,
                second,
                two,
                other,
                doubled,
                one,
            ),
            final(self)@ == (LexerView { cursor: final(self)@.cursor, ..old(self)@ }),
            final(self)@.cursor.pos >= old(self)@.cursor.pos,
    {
        if self.is_next_char(second) {
            two
        } else if self.is_next_char(other) {
            doubled
        } else {
            one
        }
    }

    /// Scans one token: skips blanks and comments, marks where the token
    /// begins, and consumes it.
    pub fn scan(&mut self) -> (r: Result<TokenType, Error>)
        requires
            old(self).wf(),
        ensures
            final(self).wf(),
            (final(self)@, found_view(r)) == old(self)@.scan(),
            old(self)@.cursor.pos <= final(self)@.start,
            r is Err ==> final(self)@.start < final(self)@.cursor.pos,
            r matches Ok(t) ==> (t@ != TokenView::Plain(TokenType::Eof) ==> final(self)@.start
                < final(self)@.cursor.pos),
    {
        self.skip_blanks();
        self.start = self.curr;
        self.token_line = self.line;
        self.token_line_start = self.line_start;
        if self.is_eof() {
            return Ok(TokenType::Eof);
        }
        let ch = self.next_char();
        if ch == '\0' {
            Ok(TokenType::Eof)
        } else if ch == ',' {
            Ok(TokenType::Comma)
        } else if ch == '.' {
            Ok(TokenType::Dot)
        } else if ch == '[' {
            Ok(TokenType::LBrace)
        } else if ch == ']' {
            Ok(TokenType::RBrace)
        } else if ch == '{' {
            Ok(TokenType::LCurly)
        } else if ch == '}' {
            Ok(TokenType::RCurly)
        } else if ch == '(' {
            Ok(TokenType::LParen)
        } else if ch == ')' {
            Ok(TokenType::RParen)
        } else if ch == ';' {
            Ok(TokenType::Semicolon)
        } else if ch == '+' {
            Ok(self.pair('=', TokenType::PlusEq, TokenType::Plus))
        } else if ch == '-' {
            Ok(self.pair('=', TokenType::SubEq, TokenType::Minus))
        } else if ch == '*' {
            Ok(self.pair('=', TokenType::MulEq, TokenType::Times))
        } else if ch == '/' {
            Ok(self.pair('=', TokenType::DivEq, TokenType::Divide))
        } else if ch == '%' {
            Ok(self.pair('=', TokenType::ModEq, TokenType::Mod))
        } else if ch == '=' {
            Ok(self.pair('=', TokenType::Eq, TokenType::Assign))
        } else if ch == '!' {
            Ok(self.pair('=', TokenType::Ne, TokenType::Not))
        } else if ch == '^' {
            Ok(self.pair('=', TokenType::XorEq, TokenType::Xor))
        } else if ch == '&' {
            Ok(self.triple('=', TokenType::AndEq, '&', TokenType::LAnd, TokenType::And))
        } else if ch == '|' {
            Ok(self.triple('=', TokenType::OrEq, '|', TokenType::LOr, TokenType::Or))
        } else if ch == '<' {
            Ok(self.triple('=', TokenType::Lte, '<', TokenType::LShift, TokenType::Lt))
        } else if ch == '>' {
            Ok(self.triple('=', TokenType::Gte, '>', TokenType::RShift, TokenType::Gt))
        } else if ch == '"' {
            let from = self.curr;
            self.consume(Run::Quoted);
            if self.is_eof() {
                Err(Error::Syntax(String::from_str("unterminated string")))
            } else {
                let value = text_of(&self.data, from, self.curr);
                self.next_char();
                Ok(TokenType::String(value))
            }
        } else if ('a' <= ch && ch <= 'z') || ('A' <= ch && ch <= 'Z') || ch == '_' {
            self.consume(Run::Word);
            let word = text_of(&self.data, self.start, self.curr);
            Ok(lookup_identifier(word))
        } else if self.is_digit(ch) {
            self.consume(Run::Number);
            let lexeme = text_of(&self.data, self.start, self.curr);
            if self.at_most_one_point(self.start, self.curr) {
                Ok(TokenType::Number(lexeme))
            } else {
                let mut message = String::from_str("invalid number:'");
                message.append(lexeme.as_str());
                message.append("'");
                Err(Error::Value(message))
            }
        } else {
            let mut message = String::from_str("unknown character:'");
            crate::text::push_char(&mut message, ch);
            message.append("'");
            assert(message@ == unknown_character(ch));
            Err(Error::Syntax(message))
        }
    }

    /// The span of the latest token.
    fn span(&self) -> (s: Span)
        ensures
            s == self@.span(),
    {
        Span::new(self.token_line, self.token_line_start, self.start, self.curr)
    }

    /// The next token. Past the end of the text it is `Eof`, again and
    /// again. A lexical error is recorded in `errors` and passed over.
    pub fn next(&mut self) -> (t: TokenInfo)
        requires
            old(self).wf(),
        ensures
            final(self).wf(),
            (final(self)@, t@) == old(self)@.next(),
            final(self)@.data == old(self)@.data,
            old(self)@.cursor.pos <= t.span.start <= t.span.end,
            t.span.end == final(self)@.cursor.pos,
            t.span.line_start <= t.span.start,
            t.token@ != TokenView::Plain(TokenType::Eof) ==> t.span.start < t.span.end,
    {
        loop
            invariant
                self.wf(),
                self@.next() == old(self)@.next(),
                self@.data == old(self)@.data,
                old(self)@.cursor.pos <= self@.cursor.pos,
            decreases self@.data.len() - self@.cursor.pos,
        {
            let ghost before = self@;
            proof {
                reveal(LexerView::next);
            }
            let result = self.scan();
            let span = self.span();
            match result {
                Ok(token) => {
                    return TokenInfo { token, span };
                },
                Err(error) => {
                    let ghost shown = self.errors@;
                    let info = ErrorInfo::new_with_span(error, span);
                    self.errors.push(info);
                    assert(error_views(self.errors@) == error_views(shown).push(info@));
                },
            }
        }
    }
}

/// Past the end of the text every token is `Eof`, and asking for more
/// moves nothing.
pub proof fn eof_forever(l: LexerView)
    requires
        l.cursor.pos >= l.data.len(),
    ensures
        l.next().1.token == TokenView::Plain(TokenType::Eof),
        l.next().0.cursor == l.cursor,
        l.next().0.errors == l.errors,
        l.next().0.next() == l.next(),
{
    reveal(LexerView::next);
    assert(skip_blank(l.data, l.cursor, false) == l.cursor);
    let after = l.next().0;
    assert(skip_blank(after.data, after.cursor, false) == after.cursor);
}

proof fn skip_blank_reach(data: Seq<char>, c: Cursor, comment: bool)
    ensures
        c.pos <= skip_blank(data, c, comment).pos,
        c.pos <= data.len() ==> skip_blank(data, c, comment).pos <= data.len(),
        c.pos >= data.len() ==> skip_blank(data, c, comment) == c,
    decreases data.len() - c.pos,
{
    if c.pos < data.len() {
        let ch = data[c.pos as int];
        if comment {
            skip_blank_reach(data, step(data, c), ch != '\n');
        } else if blank(ch) {
            skip_blank_reach(data, step(data, c), false);
        } else if ch == '#' {
            skip_blank_reach(data, step(data, c), true);
        }
    }
}

proof fn run_reach(data: Seq<char>, c: Cursor, kind: Run)
    ensures
        c.pos <= run(data, c, kind).pos,
        c.pos <= data.len() ==> run(data, c, kind).pos <= data.len(),
    decreases data.len() - c.pos,
{
    if c.pos < data.len() && kind.keeps(data[c.pos as int]) {
        run_reach(data, step(data, c), kind);
    }
}

/// A scan that fails has consumed at least one character, and none past
/// the end of the text.
pub proof fn failed_scan_advances(l: LexerView)
    ensures
        l.scan().1 is Err ==> l.cursor.pos < l.scan().0.cursor.pos <= l.data.len(),
{
    let c = skip_blank(l.data, l.cursor, false);
    skip_blank_reach(l.data, l.cursor, false);
    if c.pos < l.data.len() {
        let c1 = step(l.data, c);
        run_reach(l.data, c1, Run::Quoted);
        run_reach(l.data, c1, Run::Word);
        run_reach(l.data, c1, Run::Number);
    }
}

/// A cursor that lies within the text, behind the start of its line.
pub open spec fn within(data: Seq<char>, c: Cursor) -> bool {
    c.line_start <= c.pos <= data.len() && c.line <= usize::MAX
}

proof fn skip_blank_moves_on(data: Seq<char>, c: Cursor, comment: bool)
    requires
        within(data, c),
    ensures
        within(data, skip_blank(data, c, comment)),
        c.pos <= skip_blank(data, c, comment).pos,
    decreases data.len() - c.pos,
{
    if c.pos < data.len() {
        let ch = data[c.pos as int];
        if comment {
            skip_blank_moves_on(data, step(data, c), ch != '\n');
        } else if blank(ch) {
            skip_blank_moves_on(data, step(data, c), false);
        } else if ch == '#' {
            skip_blank_moves_on(data, step(data, c), true);
        }
    }
}

proof fn run_moves_on(data: Seq<char>, c: Cursor, kind: Run)
    requires
        within(data, c),
    ensures
        within(data, run(data, c, kind)),
        c.pos <= run(data, c, kind).pos,
    decreases data.len() - c.pos,
{
    if c.pos < data.len() && kind.keeps(data[c.pos as int]) {
        run_moves_on(data, step(data, c), kind);
    }
}

proof fn token_moves_on(data: Seq<char>, c: Cursor)
    requires
        within(data, c),
    ensures
        within(data, token_at(data, c).0),
        c.pos <= token_at(data, c).0.pos,
        token_at(data, c).1 != Ok::<TokenView, ErrorView>(TokenView::Plain(TokenType::Eof)) ==> c.pos
            < token_at(data, c).0.pos,
{
    if c.pos < data.len() {
        let c1 = step(data, c);
        run_moves_on(data, c1, Run::Quoted);
        run_moves_on(data, c1, Run::Word);
        run_moves_on(data, c1, Run::Number);
    }
}

/// The lexer moves forwards: a token begins no earlier than where the
/// search for it began, every token but `Eof` is at least one character
/// long, and the next search begins where the token ends.
pub proof fn next_moves_on(l: LexerView)
    requires
        l.wf(),
    ensures
        l.next().0.wf(),
        l.next().0.data == l.data,
        l.cursor.pos <= l.next().1.span.start <= l.next().1.span.end,
        l.next().1.span.end == l.next().0.cursor.pos,
        l.next().1.token != TokenView::Plain(TokenType::Eof) ==> l.next().1.span.start < l.next().1.span.end,
    decreases l.data.len() - l.cursor.pos,
{
    reveal(LexerView::next);
    let c = skip_blank(l.data, l.cursor, false);
    skip_blank_moves_on(l.data, l.cursor, false);
    token_moves_on(l.data, c);
    let (after, found) = l.scan();
    match found {
        Ok(token) => {},
        Err(error) => {
            let reported = LexerView {
                errors: after.errors.push(ErrorInfoView { error, span: after.span() }),
                ..after
            };
            next_moves_on(reported);
        },
    }
}

} // verus!
