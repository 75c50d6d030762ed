//! The scanner: from source text to tokens and diagnostics.

use vstd::prelude::*;
use vstd::string::*;
use crate::error::{ErrorView, LexerError};
use crate::grammar::terminated;
use crate::lexical::{
    digits_end, errors_from, find, has, is_alpha, is_alpha_numeric, is_digit, is_number_text,
    keyword_table, lemma_blank_text, lemma_lexeme_end_bounds, lemma_newlines_bound,
    lemma_number_lexeme, lemma_number_text, lemma_spans, lemma_unterminated_string,
    lemma_word_kind, lexed_at, lexeme_end, line_at, lookup, newlines, number_end,
    only_blank_from, spans_from, unterminated_string_message, word_end, word_kind, Lexed, Span,
};
use crate::text::{chars_of, string_of};
use crate::token::{views, LiteralView, Token, TokenLiteral, TokenType, TokenView};

verus! {

/// A reserved word and the kind of its token.
#[derive(Debug)]
pub struct Keyword {
    pub word: String,
    pub kind: TokenType,
}

/// The scanner's state: the text, the cursors into it, and what it has
/// produced so far.
#[derive(Debug)]
pub struct Lexer {
    /// Whether the scanner has met an error.
    pub had_error: bool,
    pub source: Vec<char>,
    pub tokens: Vec<Token>,
    pub errors: Vec<LexerError>,
    pub start: usize,
    pub current: usize,
    pub line: usize,
    pub keywords: Vec<Keyword>,
}

/// The table of a scanner as pairs of word and kind.
pub open spec fn keywords_view(keywords: Seq<Keyword>) -> Seq<(Seq<char>, TokenType)> {
    keywords.map_values(|k: Keyword| (k.word@, k.kind))
}

/// The token that ends every scan.
pub open spec fn eof_token(line: nat) -> TokenView {
    TokenView { kind: TokenType::EOF, lexeme: Seq::empty(), literal: LiteralView::Empty, line }
}

/// Whether the token carries the value that its lexeme stands for: a string
/// its text between the quotes, a number what `to_number` made of the lexeme,
/// any other token nothing.
pub open spec fn literal_matches<F: Fn(String) -> u64>(
    token: Token,
    src: Seq<char>,
    span: Span,
    to_number: F,
) -> bool {
    match span.kind {
        TokenType::String => token.literal@ == LiteralView::Text(
            src.subrange(span.start + 1, span.end - 1),
        ),
        TokenType::Number => match token.literal {
            TokenLiteral::Number(bits) => to_number.ensures((token.lexeme,), bits),
            _ => false,
        },
        _ => token.literal@ == LiteralView::Empty,
    }
}

/// Whether the token is the one that the scanner owes for the lexeme `span`.
pub open spec fn token_matches<F: Fn(String) -> u64>(
    token: Token,
    src: Seq<char>,
    span: Span,
    to_number: F,
) -> bool {
    &&& token.token_type == span.kind
    &&& token.lexeme@ == src.subrange(span.start, span.end)
    &&& token.line == line_at(src, span.end)
    &&& literal_matches(token, src, span, to_number)
}

/// Whether `tokens` and `errors` are the complete result of scanning `src`:
/// one token for each lexeme, in order, then the end-of-input token on the
/// last line; and the diagnostics, in order.
pub open spec fn scanned<F: Fn(String) -> u64>(
    tokens: Seq<Token>,
    errors: Seq<LexerError>,
    src: Seq<char>,
    to_number: F,
) -> bool {
    let spans = spans_from(src, 0);
    let errs = errors_from(src, 0);
    &&& tokens.len() == spans.len() + 1
    &&& forall|i: int|
        0 <= i < spans.len() ==> token_matches(#[trigger] tokens[i], src, spans[i], to_number)
    &&& tokens.last()@ == eof_token(line_at(src, src.len() as int))
    &&& errors.len() == errs.len()
    &&& forall|i: int| 0 <= i < errs.len() ==> (#[trigger] errors[i])@ == errs[i]
}

impl Lexer {
    /// The cursors lie in the text, the table is the table of reserved words,
    /// and the flag says whether there are diagnostics.
    pub open spec fn inv(&self) -> bool {
        &&& self.source@.len() < usize::MAX
        &&& self.start <= self.current <= self.source@.len()
        &&& keywords_view(self.keywords@) == keyword_table()
        &&& self.had_error == (self.errors@.len() > 0)
    }

    /// The state before anything is scanned.
    pub open spec fn fresh(&self) -> bool {
        &&& self.inv()
        &&& self.current == 0
        &&& self.line == 1
        &&& self.tokens@.len() == 0
        &&& self.errors@.len() == 0
    }

    /// What has been produced so far is what the text before the cursor owes,
    /// and the line is that of the cursor.
    pub open spec fn progress<F: Fn(String) -> u64>(&self, to_number: F) -> bool {
        let spans = spans_from(self.source@, 0);
        let errs = errors_from(self.source@, 0);
        &&& self.inv()
        &&& self.line == line_at(self.source@, self.current as int)
        &&& self.tokens@.len() <= spans.len()
        &&& spans.skip(self.tokens@.len() as int) == spans_from(self.source@, self.current as int)
        &&& forall|i: int|
            0 <= i < self.tokens@.len() ==> token_matches(
                #[trigger] self.tokens@[i],
                self.source@,
                spans[i],
                to_number,
            )
        &&& self.errors@.len() <= errs.len()
        &&& errs.skip(self.errors@.len() as int) == errors_from(
            self.source@,
            self.current as int,
        )
        &&& forall|i: int| 0 <= i < self.errors@.len() ==> (#[trigger] self.errors@[i])@ == errs[i]
    }

    /// Whether `next` is `self` with the cursors moved and nothing else touched.
    pub open spec fn same_output(&self, next: &Lexer) -> bool {
        &&& next.source == self.source
        &&& next.keywords == self.keywords
        &&& next.tokens == self.tokens
        &&& next.errors == self.errors
        &&& next.had_error == self.had_error
    }

    /// A scanner at the start of `source`.
    pub fn new(source: &String) -> (lexer: Self)
        requires
            source@.len() < usize::MAX,
        ensures
            lexer.fresh(),
            lexer.source@ == source@,
    {
        let keywords = Lexer::get_keywords();
        Lexer {
            source: chars_of(source.as_str()),
            tokens: Vec::new(),
            errors: Vec::new(),
            start: 0,
            current: 0,
            line: 1,
            had_error: false,
            keywords,
        }
    }

    /// Whether the character is a decimal digit.
    fn is_digit(ch: char) -> (r: bool)
        ensures
            r == is_digit(ch),
    {
        ch >= '0' && ch <= '9'
    }

    /// Whether the character is a letter or an underscore.
    fn is_alpha(ch: char) -> (r: bool)
        ensures
            r == is_alpha(ch),
    {
        (ch >= 'a' && ch <= 'z') || (ch >= 'A' && ch <= 'Z') || ch == '_'
    }

    /// Whether the character is a letter, an underscore or a digit.
    fn is_alpha_numeric(ch: char) -> (r: bool)
        ensures
            r == is_alpha_numeric(ch),
    {
        Lexer::is_alpha(ch) || Lexer::is_digit(ch)
    }

    /// Whether the cursor is behind the last character.
    fn is_at_end(&self) -> (r: bool)
        ensures
            r == (self.current >= self.source@.len()),
    {
        self.current >= self.source.len()
    }

    /// The character under the cursor, or NUL at the end of the text.
    fn peek(&self) -> (ch: char)
        ensures
            self.current < self.source@.len() ==> ch == self.source@[self.current as int],
            self.current >= self.source@.len() ==> ch == '\0',
    {
        if self.is_at_end() {
            return '\0';
        }
        self.source[self.current]
    }

    /// The character after the one under the cursor, or NUL where there is
    /// none.
    fn peek_next(&self) -> (ch: char)
        requires
            self.inv(),
        ensures
            self.current + 1 < self.source@.len() ==> ch == self.source@[self.current + 1],
            self.current + 1 >= self.source@.len() ==> ch == '\0',
    {
        if self.current + 1 >= self.source.len() {
            return '\0';
        }
        self.source[self.current + 1]
    }

    /// Takes the character under the cursor.
    fn advance(&mut self) -> (ch: char)
        requires
            old(self).inv(),
            old(self).current < old(self).source@.len(),
        ensures
            final(self).inv(),
            old(self).same_output(final(self)),
            final(self).start == old(self).start,
            final(self).line == old(self).line,
            final(self).current == old(self).current + 1,
            ch == old(self).source@[old(self).current as int],
    {
        let ch = self.source[self.current];
        self.current += 1;
        ch
    }

    /// Takes the character under the cursor if it is the expected one.
    fn match_next_char(&mut self, expected: char) -> (matched: bool)
        requires
            old(self).inv(),
        ensures
            final(self).inv(),
            old(self).same_output(final(self)),
            final(self).start == old(self).start,
            final(self).line == old(self).line,
            matched == has(old(self).source@, old(self).current as int, expected),
            final(self).current == old(self).current + if matched { 1int } else { 0int },
    {
        if self.is_at_end() {
            return false;
        }
        if self.source[self.current] != expected {
            return false;
        }
        self.current += 1;
        true
    }

    /// The table of reserved words.
    fn get_keywords() -> (keywords: Vec<Keyword>)
        ensures
            keywords_view(keywords@) == keyword_table(),
    {
        let mut keywords: Vec<Keyword> = Vec::new();
        keywords.push(Keyword { word: String::from_str("and"), kind: TokenType::And });
        keywords.push(Keyword { word: String::from_str("class"), kind: TokenType::Class });
        keywords.push(Keyword { word: String::from_str("else"), kind: TokenType::Else });
        keywords.push(Keyword { word: String::from_str("false"), kind: TokenType::False });
        keywords.push(Keyword { word: String::from_str("for"), kind: TokenType::For });
        keywords.push(Keyword { word: String::from_str("fun"), kind: TokenType::Fun });
        keywords.push(Keyword { word: String::from_str("if"), kind: TokenType::If });
        keywords.push(Keyword { word: String::from_str("nil"), kind: TokenType::Nil });
        keywords.push(Keyword { word: String::from_str("or"), kind: TokenType::Or });
        keywords.push(Keyword { word: String::from_str("print"), kind: TokenType::Print });
        keywords.push(Keyword { word: String::from_str("return"), kind: TokenType::Return });
        keywords.push(Keyword { word: String::from_str("super"), kind: TokenType::Super });
        keywords.push(Keyword { word: String::from_str("this"), kind: TokenType::This });
        keywords.push(Keyword { word: String::from_str("true"), kind: TokenType::True });
        keywords.push(Keyword { word: String::from_str("var"), kind: TokenType::Var });
        keywords.push(Keyword { word: String::from_str("while"), kind: TokenType::While });
        proof {
            assert(keywords_view(keywords@) =~= keyword_table());
        }
        keywords
    }

    /// Whether `next` is `self` with one token appended.
    pub open spec fn emitted(&self, next: &Lexer) -> bool {
        &&& next.source == self.source
        &&& next.keywords == self.keywords
        &&& next.errors == self.errors
        &&& next.had_error == self.had_error
        &&& next.start == self.start
        &&& next.current == self.current
        &&& next.line == self.line
        &&& next.tokens@ == self.tokens@.push(next.tokens@.last())
    }

    /// Whether `next` is `self` with one diagnostic appended.
    pub open spec fn reported(&self, next: &Lexer, message: Seq<char>) -> bool {
        &&& next.source == self.source
        &&& next.keywords == self.keywords
        &&& next.tokens == self.tokens
        &&& next.had_error
        &&& next.start == self.start
        &&& next.current == self.current
        &&& next.line == self.line
        &&& next.errors@ == self.errors@.push(next.errors@.last())
        &&& next.errors@.last()@ == (ErrorView::Lexer { line: self.line as nat, message })
    }

    /// Appends a token on the current line.
    fn push_token(&mut self, token_type: TokenType, lexeme: String, literal: TokenLiteral)
        requires
            old(self).inv(),
        ensures
            final(self).inv(),
            old(self).emitted(final(self)),
            final(self).tokens@.last() == (Token {
                token_type,
                lexeme,
                literal,
                line: old(self).line,
            }),
    {
        self.tokens.push(Token { token_type, lexeme, literal, line: self.line });
    }

    /// Appends a diagnostic on the current line.
    fn report(&mut self, message: &str)
        requires
            old(self).inv(),
        ensures
            final(self).inv(),
            old(self).reported(final(self), message@),
    {
        self.errors.push(LexerError::new(self.line, message));
        self.had_error = true;
    }

    /// Appends a token without a value for the lexeme between the cursors.
    fn add_token(&mut self, token_type: TokenType)
        requires
            old(self).inv(),
        ensures
            final(self).inv(),
            old(self).emitted(final(self)),
            final(self).tokens@.last()@ == (TokenView {
                kind: token_type,
                lexeme: old(self).source@.subrange(
                    old(self).start as int,
                    old(self).current as int,
                ),
                literal: LiteralView::Empty,
                line: old(self).line as nat,
            }),
    {
        self.add_token_with_literal(token_type, TokenLiteral::Empty);
    }

    /// Appends a token with a value for the lexeme between the cursors.
    fn add_token_with_literal(&mut self, token_type: TokenType, literal: TokenLiteral)
        requires
            old(self).inv(),
        ensures
            final(self).inv(),
            old(self).emitted(final(self)),
            final(self).tokens@.last().token_type == token_type,
            final(self).tokens@.last().lexeme@ == old(self).source@.subrange(
                old(self).start as int,
                old(self).current as int,
            ),
            final(self).tokens@.last().literal == literal,
            final(self).tokens@.last().line == old(self).line,
    {
        let text = string_of(&self.source, self.start, self.current);
        self.push_token(token_type, text, literal);
    }

    /// Scans a string whose opening quote has been taken: to the closing
    /// quote, or to the end of the text, which is an error.
    fn string(&mut self)
        requires
            old(self).inv(),
            old(self).start + 1 == old(self).current,
            old(self).line == line_at(old(self).source@, old(self).current as int),
        ensures
            final(self).inv(),
            final(self).line == line_at(old(self).source@, final(self).current as int),
            find(old(self).source@, old(self).current as int, '"') < old(self).source@.len() ==> {
                &&& final(self).current == find(old(self).source@, old(self).current as int, '"')
                    + 1
                &&& final(self).tokens@ == old(self).tokens@.push(final(self).tokens@.last())
                &&& final(self).errors == old(self).errors
                &&& final(self).tokens@.last()@ == (TokenView {
                    kind: TokenType::String,
                    lexeme: old(self).source@.subrange(
                        old(self).start as int,
                        final(self).current as int,
                    ),
                    literal: LiteralView::Text(
                        old(self).source@.subrange(
                            old(self).start + 1,
                            final(self).current - 1,
                        ),
                    ),
                    line: final(self).line as nat,
                })
            },
            find(old(self).source@, old(self).current as int, '"') >= old(self).source@.len() ==> {
                &&& final(self).current == old(self).source@.len()
                &&& final(self).tokens == old(self).tokens
                &&& final(self).errors@ == old(self).errors@.push(final(self).errors@.last())
                &&& final(self).errors@.last()@ == (ErrorView::Lexer {
                    line: final(self).line as nat,
                    message: unterminated_string_message(),
                })
            },
            final(self).source == old(self).source,
            final(self).keywords == old(self).keywords,
            final(self).start == old(self).start,
    {
        while !self.is_at_end() && self.peek() != '"'
            invariant
                self.inv(),
                old(self).same_output(self),
                self.start == old(self).start,
                old(self).current <= self.current,
                self.line == line_at(self.source@, self.current as int),
                find(self.source@, old(self).current as int, '"') == find(
                    self.source@,
                    self.current as int,
                    '"',
                ),
            decreases self.source@.len() - self.current,
        {
            proof {
                lemma_newlines_bound(self.source@, self.current as int);
            }
            if self.peek() == '\n' {
                self.line += 1;
            }
            self.advance();
        }

        if self.is_at_end() {
            self.report("Unterminated string");
            return ;
        }
        self.advance();

        let value = string_of(&self.source, self.start + 1, self.current - 1);
        let literal = TokenLiteral::String(value);
        self.add_token_with_literal(TokenType::String, literal);
    }

    /// Scans a number whose first digit has been taken, and has `to_number`
    /// read its value from the lexeme.
    fn number<F: Fn(String) -> u64>(&mut self, to_number: &F)
        requires
            old(self).inv(),
            old(self).start + 1 == old(self).current,
            is_digit(old(self).source@[old(self).start as int]),
            old(self).line == line_at(old(self).source@, old(self).current as int),
            forall|text: String| is_number_text(text@) ==> to_number.requires((text,)),
        ensures
            final(self).inv(),
            final(self).source == old(self).source,
            final(self).keywords == old(self).keywords,
            final(self).errors == old(self).errors,
            final(self).had_error == old(self).had_error,
            final(self).start == old(self).start,
            final(self).current == number_end(old(self).source@, old(self).current as int),
            final(self).line == line_at(old(self).source@, final(self).current as int),
            final(self).tokens@ == old(self).tokens@.push(final(self).tokens@.last()),
            token_matches(
                final(self).tokens@.last(),
                old(self).source@,
                Span {
                    kind: TokenType::Number,
                    start: old(self).start as int,
                    end: final(self).current as int,
                },
                *to_number,
            ),
    {
        self.digits();
        if self.peek() == '.' && Lexer::is_digit(self.peek_next()) {
            self.advance();
            self.digits();
        }
        let text = string_of(&self.source, self.start, self.current);
        proof {
            lemma_number_lexeme(self.source@, self.start as int);
        }
        let value = to_number(text.clone());
        self.push_token(TokenType::Number, text, TokenLiteral::Number(value));
    }

    /// Takes the digits under the cursor.
    fn digits(&mut self)
        requires
            old(self).inv(),
            old(self).line == line_at(old(self).source@, old(self).current as int),
        ensures
            final(self).inv(),
            old(self).same_output(final(self)),
            final(self).start == old(self).start,
            final(self).current == digits_end(old(self).source@, old(self).current as int),
            final(self).line == old(self).line,
            final(self).line == line_at(old(self).source@, final(self).current as int),
    {
        while Lexer::is_digit(self.peek())
            invariant
                self.inv(),
                old(self).same_output(self),
                self.start == old(self).start,
                self.line == old(self).line,
                self.line == line_at(self.source@, self.current as int),
                digits_end(self.source@, old(self).current as int) == digits_end(
                    self.source@,
                    self.current as int,
                ),
            decreases self.source@.len() - self.current,
        {
            self.advance();
        }
    }

    /// Scans a word whose first character has been taken: a reserved word or
    /// an identifier.
    fn identifier(&mut self)
        requires
            old(self).inv(),
            old(self).start + 1 == old(self).current,
            old(self).line == line_at(old(self).source@, old(self).current as int),
        ensures
            final(self).inv(),
            final(self).source == old(self).source,
            final(self).keywords == old(self).keywords,
            final(self).errors == old(self).errors,
            final(self).had_error == old(self).had_error,
            final(self).start == old(self).start,
            final(self).current == word_end(old(self).source@, old(self).current as int),
            final(self).line == line_at(old(self).source@, final(self).current as int),
            final(self).tokens@ == old(self).tokens@.push(final(self).tokens@.last()),
            final(self).tokens@.last()@ == (TokenView {
                kind: word_kind(
                    old(self).source@.subrange(old(self).start as int, final(self).current as int),
                ),
                lexeme: old(self).source@.subrange(
                    old(self).start as int,
                    final(self).current as int,
                ),
                literal: LiteralView::Empty,
                line: final(self).line as nat,
            }),
    {
        while Lexer::is_alpha_numeric(self.peek())
            invariant
                self.inv(),
                old(self).same_output(self),
                self.start == old(self).start,
                self.line == line_at(self.source@, self.current as int),
                word_end(self.source@, old(self).current as int) == word_end(
                    self.source@,
                    self.current as int,
                ),
            decreases self.source@.len() - self.current,
        {
            self.advance();
        }
        let text = string_of(&self.source, self.start, self.current);
        let token_type = self.keyword_kind(&text);
        self.add_token(token_type);
    }

    /// Whether `next` is what one step from `self` leaves: the lexeme at
    /// `self.start` is taken, its token or its diagnostic appended, and the
    /// line is that of the cursor.
    pub open spec fn stepped<F: Fn(String) -> u64>(&self, next: &Lexer, to_number: F) -> bool {
        let src = self.source@;
        let start = self.start as int;
        let end = lexeme_end(src, start);
        &&& next.inv()
        &&& next.source == self.source
        &&& next.keywords == self.keywords
        &&& next.current == end
        &&& next.line == line_at(src, end)
        &&& match lexed_at(src, start) {
            Lexed::Token(kind) => {
                &&& next.tokens@ == self.tokens@.push(next.tokens@.last())
                &&& token_matches(next.tokens@.last(), src, Span { kind, start, end }, to_number)
                &&& next.errors == self.errors
            },
            Lexed::Skip => next.tokens == self.tokens && next.errors == self.errors,
            Lexed::Error(message) => {
                &&& next.tokens == self.tokens
                &&& next.errors@ == self.errors@.push(next.errors@.last())
                &&& next.errors@.last()@ == (ErrorView::Lexer { line: line_at(src, end), message })
            },
        }
    }

    /// One step keeps what has been produced in line with the text.
    pub proof fn lemma_step<F: Fn(String) -> u64>(&self, next: &Lexer, to_number: F)
        requires
            self.progress(to_number),
            self.start == self.current,
            self.current < self.source@.len(),
            self.stepped(next, to_number),
        ensures
            next.progress(to_number),
            next.current > self.current,
    {
        let src = self.source@;
        let start = self.start as int;
        let end = lexeme_end(src, start);
        let spans = spans_from(src, 0);
        let errs = errors_from(src, 0);
        let n = self.tokens@.len() as int;
        let m = self.errors@.len() as int;
        lemma_lexeme_end_bounds(src, start);
        match lexed_at(src, start) {
            Lexed::Token(kind) => {
                let span = Span { kind, start, end };
                assert(spans_from(src, start) == seq![span] + spans_from(src, end));
                assert(spans.skip(n)[0] == span);
                assert(spans.skip(n + 1) =~= spans_from(src, end)) by {
                    assert(spans.skip(n + 1) =~= spans.skip(n).skip(1));
                    assert((seq![span] + spans_from(src, end)).skip(1) =~= spans_from(src, end));
                }
                assert(errors_from(src, start) == errors_from(src, end));
                assert forall|i: int| 0 <= i < next.tokens@.len() implies token_matches(
                    #[trigger] next.tokens@[i],
                    src,
                    spans[i],
                    to_number,
                ) by {
                    if i < n {
                        assert(next.tokens@[i] == self.tokens@[i]);
                    }
                }
            },
            Lexed::Skip => {
                assert(spans_from(src, start) == spans_from(src, end));
                assert(errors_from(src, start) == errors_from(src, end));
            },
            Lexed::Error(message) => {
                let err = ErrorView::Lexer { line: line_at(src, end), message };
                assert(spans_from(src, start) == spans_from(src, end));
                assert(errors_from(src, start) == seq![err] + errors_from(src, end));
                assert(errs.skip(m)[0] == err);
                assert(errs.skip(m + 1) =~= errors_from(src, end)) by {
                    assert(errs.skip(m + 1) =~= errs.skip(m).skip(1));
                    assert((seq![err] + errors_from(src, end)).skip(1) =~= errors_from(src, end));
                }
                assert forall|i: int| 0 <= i < next.errors@.len() implies (
                #[trigger] next.errors@[i])@ == errs[i] by {
                    if i < m {
                        assert(next.errors@[i] == self.errors@[i]);
                    }
                }
            },
        }
    }

    /// Takes the lexeme under the cursor and appends its token or its
    /// diagnostic, if it has one.
    fn tokenize<F: Fn(String) -> u64>(&mut self, to_number: &F)
        requires
            old(self).inv(),
            old(self).start == old(self).current,
            old(self).current < old(self).source@.len(),
            old(self).line == line_at(old(self).source@, old(self).current as int),
            forall|text: String| is_number_text(text@) ==> to_number.requires((text,)),
        ensures
            old(self).stepped(final(self), *to_number),
    {
        proof {
            let src = self.source@;
            let start = self.current as int;
            lemma_newlines_bound(src, start);
            assert(newlines(src, start + 1) == newlines(src, start) + if src[start] == '\n' {
                1nat
            } else {
                0nat
            });
            if start + 1 < src.len() {
                assert(newlines(src, start + 2) == newlines(src, start + 1) + if src[start + 1]
                    == '\n' {
                    1nat
                } else {
                    0nat
                });
            }
            lemma_lexeme_end_bounds(src, start);
        }
        let ch = self.advance();
        if ch == '(' {
            self.add_token(TokenType::LeftParen);
        } else if ch == ')' {
            self.add_token(TokenType::RightParen);
        } else if ch == '{' {
            self.add_token(TokenType::LeftBrace);
        } else if ch == '}' {
            self.add_token(TokenType::RightBrace);
        } else if ch == ',' {
            self.add_token(TokenType::Comma);
        } else if ch == '.' {
            self.add_token(TokenType::Dot);
        } else if ch == '-' {
            self.add_token(TokenType::Minus);
        } else if ch == '+' {
            self.add_token(TokenType::Plus);
        } else if ch == ';' {
            self.add_token(TokenType::Semicolon);
        } else if ch == '*' {
            self.add_token(TokenType::Star);
        } else if ch == '!' {
            if self.match_next_char('=') {
                self.add_token(TokenType::BangEqual);
                } else {
                self.add_token(TokenType::Bang);
                }
        } else if ch == '=' {
            if self.match_next_char('=') {
                self.add_token(TokenType::EqualEqual);
                } else {
                self.add_token(TokenType::Equal);
                }
        } else if ch == '<' {
            if self.match_next_char('=') {
                self.add_token(TokenType::LessEqual);
                } else {
                self.add_token(TokenType::Less);
                }
        } else if ch == '>' {
            if self.match_next_char('=') {
                self.add_token(TokenType::GreaterEqual);
                } else {
                self.add_token(TokenType::Greater);
                }
        } else if ch == '/' {
            if self.match_next_char('/') {
                while !self.is_at_end() && self.peek() != '\n'
                    invariant
                        self.inv(),
                        old(self).same_output(self),
                        self.start == old(self).start,
                        old(self).current + 2 <= self.current,
                        self.line == line_at(self.source@, self.current as int),
                        find(self.source@, old(self).current + 2, '\n') == find(
                            self.source@,
                            self.current as int,
                            '\n',
                        ),
                    decreases self.source@.len() - self.current,
                {
                    self.advance();
                }
            } else {
                self.add_token(TokenType::Slash);
                }
        } else if ch == ' ' || ch == '\r' || ch == '\t' {
        } else if ch == '\n' {
            self.line += 1;
        } else if ch == '"' {
            self.string();
        } else if Lexer::is_digit(ch) {
            self.number(to_number);
        } else if Lexer::is_alpha(ch) {
            self.identifier();
            proof {
                lemma_word_kind(
                    self.source@.subrange(self.start as int, self.current as int),
                );
            }
        } else {
            self.report("Unexpected character.");
        }
    }

    /// Scans the whole text. The result holds one token for each lexeme, in
    /// order, and the end-of-input token on the last line; the diagnostics
    /// are in `errors`, and `had_error` says whether there are any.
    pub fn scan_tokens<F: Fn(String) -> u64>(&mut self, to_number: &F) -> (tokens: &Vec<Token>)
        requires
            old(self).fresh(),
            forall|text: String| is_number_text(text@) ==> to_number.requires((text,)),
        ensures
            tokens == final(self).tokens,
            final(self).source == old(self).source,
            final(self).had_error == (final(self).errors@.len() > 0),
            scanned(tokens@, final(self).errors@, old(self).source@, *to_number),
    {
        proof {
            assert(spans_from(self.source@, 0).skip(0) =~= spans_from(self.source@, 0));
            assert(errors_from(self.source@, 0).skip(0) =~= errors_from(self.source@, 0));
        }
        while !self.is_at_end()
            invariant
                self.progress(*to_number),
                self.source == old(self).source,
                forall|text: String| is_number_text(text@) ==> to_number.requires((text,)),
            decreases self.source@.len() - self.current,
        {
            self.start = self.current;
            let ghost before = *self;
            self.tokenize(to_number);
            proof {
                before.lemma_step(self, *to_number);
            }
        }
        let ghost scanned_tokens = self.tokens@;
        self.tokens.push(
            Token {
                token_type: TokenType::EOF,
                lexeme: String::new(),
                literal: TokenLiteral::Empty,
                line: self.line,
            },
        );
        proof {
            let spans = spans_from(self.source@, 0);
            assert(spans.skip(scanned_tokens.len() as int).len() == 0);
            assert forall|i: int| 0 <= i < spans.len() implies token_matches(
                #[trigger] self.tokens@[i],
                self.source@,
                spans[i],
                *to_number,
            ) by {
                assert(self.tokens@[i] == scanned_tokens[i]);
            }
            let errs = errors_from(self.source@, 0);
            assert(errs.skip(self.errors@.len() as int).len() == 0);
        }
        &self.tokens
    }

    /// The kind of the word `text`.
    fn keyword_kind(&self, text: &String) -> (kind: TokenType)
        requires
            self.inv(),
        ensures
            kind == word_kind(text@),
    {
        let mut i: usize = 0;
        while i < self.keywords.len()
            invariant
                i <= self.keywords@.len(),
                keywords_view(self.keywords@) == keyword_table(),
                lookup(keyword_table(), text@, 0) == lookup(keyword_table(), text@, i as int),
            decreases self.keywords@.len() - i,
        {
            proof {
                assert(keywords_view(self.keywords@)[i as int] == (
                    self.keywords@[i as int].word@,
                    self.keywords@[i as int].kind,
                ));
            }
            if self.keywords[i].word == *text {
                return self.keywords[i].kind;
            }
            i += 1;
        }
        TokenType::Identifier
    }
}

/// Scans `source`: the tokens, ending with the end-of-input token, and the
/// diagnostics. The scan never fails; whoever calls decides what a diagnostic
/// means.
pub fn scan<F: Fn(String) -> u64>(source: &String, to_number: &F) -> (result: (
    Vec<Token>,
    Vec<LexerError>,
))
    requires
        source@.len() < usize::MAX,
        forall|text: String| is_number_text(text@) ==> to_number.requires((text,)),
    ensures
        ({
            let (tokens, errors) = result;
            scanned(tokens@, errors@, source@, *to_number)
        }),
{
    let mut lexer = Lexer::new(source);
    lexer.scan_tokens(to_number);
    (lexer.tokens, lexer.errors)
}

/// Every scan ends with the end-of-input token, and holds no other.
pub proof fn lemma_scan_ends<F: Fn(String) -> u64>(
    tokens: Seq<Token>,
    errors: Seq<LexerError>,
    src: Seq<char>,
    to_number: F,
)
    requires
        scanned(tokens, errors, src, to_number),
    ensures
        tokens.len() > 0,
        tokens.last().token_type == TokenType::EOF,
        tokens.last().line == line_at(src, src.len() as int),
        forall|i: int|
            0 <= i < tokens.len() - 1 ==> (#[trigger] tokens[i]).token_type != TokenType::EOF,
        terminated(views(tokens)),
{
    lemma_spans(src, 0);
    assert forall|i: int| 0 <= i < tokens.len() - 1 implies (#[trigger] tokens[i]).token_type
        != TokenType::EOF by {
        assert(token_matches(tokens[i], src, spans_from(src, 0)[i], to_number));
    }
}

/// The scan of a text of blanks, newlines and comments is the end-of-input
/// token alone, without a diagnostic.
pub proof fn lemma_scan_blank<F: Fn(String) -> u64>(
    tokens: Seq<Token>,
    errors: Seq<LexerError>,
    src: Seq<char>,
    to_number: F,
)
    requires
        scanned(tokens, errors, src, to_number),
        only_blank_from(src, 0),
    ensures
        tokens.len() == 1,
        tokens[0]@ == eof_token(line_at(src, src.len() as int)),
        errors.len() == 0,
{
    lemma_blank_text(src, 0);
}

/// The scan of a number literal is one number token, whose lexeme is the text
/// and whose value is what `to_number` made of that lexeme, and the
/// end-of-input token, both on the first line, without a diagnostic.
pub proof fn lemma_scan_number<F: Fn(String) -> u64>(
    tokens: Seq<Token>,
    errors: Seq<LexerError>,
    src: Seq<char>,
    to_number: F,
)
    requires
        scanned(tokens, errors, src, to_number),
        is_number_text(src),
    ensures
        tokens.len() == 2,
        tokens[0].token_type == TokenType::Number,
        tokens[0].lexeme@ == src,
        tokens[0].line == 1,
        tokens[0].literal is Number,
        to_number.ensures((tokens[0].lexeme,), tokens[0].literal->Number_0),
        tokens[1]@ == eof_token(1),
        errors.len() == 0,
{
    lemma_number_text(src);
    let span = Span { kind: TokenType::Number, start: 0, end: src.len() as int };
    assert(spans_from(src, 0)[0] == span);
    assert(token_matches(tokens[0], src, span, to_number));
    assert(src.subrange(0, src.len() as int) =~= src);
}

/// The scan of a text that opens a string and never closes it is the
/// end-of-input token alone, with one diagnostic on the last line.
pub proof fn lemma_scan_unterminated<F: Fn(String) -> u64>(
    tokens: Seq<Token>,
    errors: Seq<LexerError>,
    src: Seq<char>,
    to_number: F,
)
    requires
        scanned(tokens, errors, src, to_number),
        src.len() > 0,
        src[0] == '"',
        forall|i: int| 0 < i < src.len() ==> #[trigger] src[i] != '"',
    ensures
        tokens.len() == 1,
        tokens[0]@ == eof_token(line_at(src, src.len() as int)),
        errors.len() == 1,
        errors[0]@ == (ErrorView::Lexer {
            line: line_at(src, src.len() as int),
            message: unterminated_string_message(),
        }),
{
    lemma_unterminated_string(src, 0);
}

} // verus!
