//! What the scanner is to produce, stated over the source text as a sequence
//! of characters: where each lexeme ends, what it is, and on which line.

use vstd::prelude::*;
use crate::error::ErrorView;
use crate::token::TokenType;

verus! {

/// A decimal digit.
pub open spec fn is_digit(c: char) -> bool {
    '0' <= c && c <= '9'
}

/// A letter of the basic Latin alphabet, or an underscore.
pub open spec fn is_alpha(c: char) -> bool {
    ('a' <= c && c <= 'z') || ('A' <= c && c <= 'Z') || c == '_'
}

/// A letter, an underscore or a digit.
pub open spec fn is_alpha_numeric(c: char) -> bool {
    is_alpha(c) || is_digit(c)
}

/// Space, carriage return and tab: skipped without effect.
pub open spec fn is_blank(c: char) -> bool {
    c == ' ' || c == '\r' || c == '\t'
}

/// The number of newlines among the first `pos` characters.
pub open spec fn newlines(src: Seq<char>, pos: int) -> nat
    decreases pos,
{
    if pos <= 0 || pos > src.len() {
        0
    } else if src[pos - 1] == '\n' {
        newlines(src, pos - 1) + 1
    } else {
        newlines(src, pos - 1)
    }
}

/// The line on which the character at `pos` stands; lines count from 1.
pub open spec fn line_at(src: Seq<char>, pos: int) -> nat {
    newlines(src, pos) + 1
}

/// The end of the longest run of digits that starts at `pos`.
pub open spec fn digits_end(src: Seq<char>, pos: int) -> int
    decreases src.len() - pos,
{
    if 0 <= pos < src.len() && is_digit(src[pos]) {
        digits_end(src, pos + 1)
    } else {
        pos
    }
}

/// The end of the longest run of letters, digits and underscores that starts
/// at `pos`.
pub open spec fn word_end(src: Seq<char>, pos: int) -> int
    decreases src.len() - pos,
{
    if 0 <= pos < src.len() && is_alpha_numeric(src[pos]) {
        word_end(src, pos + 1)
    } else {
        pos
    }
}

/// The place of the first `stop` at or after `pos`, or the end of the text.
pub open spec fn find(src: Seq<char>, pos: int, stop: char) -> int
    decreases src.len() - pos,
{
    if 0 <= pos < src.len() && src[pos] != stop {
        find(src, pos + 1, stop)
    } else {
        pos
    }
}

/// Whether the character at `pos` exists and is `c`.
pub open spec fn has(src: Seq<char>, pos: int, c: char) -> bool {
    0 <= pos < src.len() && src[pos] == c
}

/// The end of a number that starts at `pos`: its digits, and a fraction where
/// a dot and at least one digit follow.
pub open spec fn number_end(src: Seq<char>, pos: int) -> int {
    let whole = digits_end(src, pos);
    if has(src, whole, '.') && whole + 1 < src.len() && is_digit(src[whole + 1]) {
        digits_end(src, whole + 1)
    } else {
        whole
    }
}

/// The kind of a token of one character.
pub open spec fn punctuation(c: char) -> Option<TokenType> {
    if c == '(' {
        Some(TokenType::LeftParen)
    } else if c == ')' {
        Some(TokenType::RightParen)
    } else if c == '{' {
        Some(TokenType::LeftBrace)
    } else if c == '}' {
        Some(TokenType::RightBrace)
    } else if c == ',' {
        Some(TokenType::Comma)
    } else if c == '.' {
        Some(TokenType::Dot)
    } else if c == '-' {
        Some(TokenType::Minus)
    } else if c == '+' {
        Some(TokenType::Plus)
    } else if c == ';' {
        Some(TokenType::Semicolon)
    } else if c == '*' {
        Some(TokenType::Star)
    } else {
        None
    }
}

/// The kind of an operator that an `=` may follow: alone, or with the `=`.
pub open spec fn operator(c: char, followed: bool) -> Option<TokenType> {
    if c == '!' {
        Some(if followed { TokenType::BangEqual } else { TokenType::Bang })
    } else if c == '=' {
        Some(if followed { TokenType::EqualEqual } else { TokenType::Equal })
    } else if c == '<' {
        Some(if followed { TokenType::LessEqual } else { TokenType::Less })
    } else if c == '>' {
        Some(if followed { TokenType::GreaterEqual } else { TokenType::Greater })
    } else {
        None
    }
}

/// The reserved words with their kinds.
pub open spec fn keyword_table() -> Seq<(Seq<char>, TokenType)> {
    seq![
        ("and"@, TokenType::And),
        ("class"@, TokenType::Class),
        ("else"@, TokenType::Else),
        ("false"@, TokenType::False),
        ("for"@, TokenType::For),
        ("fun"@, TokenType::Fun),
        ("if"@, TokenType::If),
        ("nil"@, TokenType::Nil),
        ("or"@, TokenType::Or),
        ("print"@, TokenType::Print),
        ("return"@, TokenType::Return),
        ("super"@, TokenType::Super),
        ("this"@, TokenType::This),
        ("true"@, TokenType::True),
        ("var"@, TokenType::Var),
        ("while"@, TokenType::While),
    ]
}

/// The kind that the first entry of `table` from `from` on with the word
/// `text` gives, if there is one.
pub open spec fn lookup(table: Seq<(Seq<char>, TokenType)>, text: Seq<char>, from: int) -> Option<
    TokenType,
>
    decreases table.len() - from,
{
    if from < 0 || from >= table.len() {
        None
    } else if table[from].0 == text {
        Some(table[from].1)
    } else {
        lookup(table, text, from + 1)
    }
}

/// The kind of a word: that of the reserved word it is, else an identifier.
pub open spec fn word_kind(text: Seq<char>) -> TokenType {
    match lookup(keyword_table(), text, 0) {
        Some(kind) => kind,
        None => TokenType::Identifier,
    }
}

/// Where `lookup` finds a kind, the table holds the word with that kind.
pub proof fn lemma_lookup_found(table: Seq<(Seq<char>, TokenType)>, text: Seq<char>, from: int) -> (at:
    int)
    requires
        0 <= from,
        lookup(table, text, from) is Some,
    ensures
        from <= at < table.len(),
        table[at] == (text, lookup(table, text, from)->0),
    decreases table.len() - from,
{
    if table[from].0 == text {
        from
    } else {
        lemma_lookup_found(table, text, from + 1)
    }
}

/// Whether the kind is that of a reserved word.
pub open spec fn is_reserved(kind: TokenType) -> bool {
    exists|i: int| 0 <= i < keyword_table().len() && (#[trigger] keyword_table()[i]).1 == kind
}

/// A word is an identifier or a reserved word: never a string, a number,
/// punctuation or the end of input.
pub proof fn lemma_word_kind(text: Seq<char>)
    ensures
        word_kind(text) == TokenType::Identifier || is_reserved(word_kind(text)),
        word_kind(text) != TokenType::String,
        word_kind(text) != TokenType::Number,
        word_kind(text) != TokenType::EOF,
{
    let table = keyword_table();
    if lookup(table, text, 0) is Some {
        let at = lemma_lookup_found(table, text, 0);
        assert(table[at].1 == word_kind(text));
        assert(table.len() == 16);
        if at < 4 {
            assert(at == 0 || at == 1 || at == 2 || at == 3);
        } else if at < 8 {
            assert(at == 4 || at == 5 || at == 6 || at == 7);
        } else if at < 12 {
            assert(at == 8 || at == 9 || at == 10 || at == 11);
        } else {
            assert(at == 12 || at == 13 || at == 14 || at == 15);
        }
    }
}

/// What the scanner makes of the characters from one position on.
pub enum Lexed {
    /// Blanks, a newline or a comment: nothing.
    Skip,
    /// A token of this kind.
    Token(TokenType),
    /// A diagnostic with this message.
    Error(Seq<char>),
}

/// The message for a string that is never closed.
pub open spec fn unterminated_string_message() -> Seq<char> {
    "Unterminated string"@
}

/// The message for a character that begins no lexeme.
pub open spec fn unexpected_character_message() -> Seq<char> {
    "Unexpected character."@
}

/// Where the lexeme that starts at `pos` ends. Longest match: an operator takes
/// a following `=`, a comment runs to the end of its line, a string to its
/// closing quote or, without one, to the end of the text.
pub open spec fn lexeme_end(src: Seq<char>, pos: int) -> int
    recommends
        0 <= pos < src.len(),
{
    let c = src[pos];
    if operator(c, false) is Some {
        if has(src, pos + 1, '=') {
            pos + 2
        } else {
            pos + 1
        }
    } else if c == '/' {
        if has(src, pos + 1, '/') {
            find(src, pos + 2, '\n')
        } else {
            pos + 1
        }
    } else if c == '"' {
        let quote = find(src, pos + 1, '"');
        if quote < src.len() {
            quote + 1
        } else {
            quote
        }
    } else if is_digit(c) {
        number_end(src, pos + 1)
    } else if is_alpha(c) {
        word_end(src, pos + 1)
    } else {
        pos + 1
    }
}

/// What the lexeme that starts at `pos` is.
pub open spec fn lexed_at(src: Seq<char>, pos: int) -> Lexed
    recommends
        0 <= pos < src.len(),
{
    let c = src[pos];
    if punctuation(c) is Some {
        Lexed::Token(punctuation(c)->0)
    } else if operator(c, false) is Some {
        Lexed::Token(operator(c, has(src, pos + 1, '='))->0)
    } else if c == '/' {
        if has(src, pos + 1, '/') {
            Lexed::Skip
        } else {
            Lexed::Token(TokenType::Slash)
        }
    } else if is_blank(c) || c == '\n' {
        Lexed::Skip
    } else if c == '"' {
        if find(src, pos + 1, '"') < src.len() {
            Lexed::Token(TokenType::String)
        } else {
            Lexed::Error(unterminated_string_message())
        }
    } else if is_digit(c) {
        Lexed::Token(TokenType::Number)
    } else if is_alpha(c) {
        Lexed::Token(word_kind(src.subrange(pos, word_end(src, pos + 1))))
    } else {
        Lexed::Error(unexpected_character_message())
    }
}

/// Whether every character of the text is a digit.
pub open spec fn all_digits(text: Seq<char>) -> bool {
    forall|i: int| 0 <= i < text.len() ==> is_digit(#[trigger] text[i])
}

/// Whether the text is digits, a dot and digits, with at least one digit on
/// each side, and the dot stands at `dot`.
pub open spec fn is_fraction(text: Seq<char>, dot: int) -> bool {
    &&& 0 < dot < text.len() - 1
    &&& text[dot] == '.'
    &&& all_digits(text.take(dot))
    &&& all_digits(text.skip(dot + 1))
}

/// Whether the text is a number literal: one digit or more, and optionally a
/// dot followed by one digit or more.
pub open spec fn is_number_text(text: Seq<char>) -> bool {
    ||| text.len() > 0 && all_digits(text)
    ||| exists|dot: int| #[trigger] is_fraction(text, dot)
}

/// A lexeme of the source text: its kind and where it stands.
pub struct Span {
    pub kind: TokenType,
    pub start: int,
    pub end: int,
}

/// The runs `find`, `digits_end` and `word_end` end at or after their start
/// and within the text.
pub proof fn lemma_run_bounds(src: Seq<char>, pos: int, stop: char)
    requires
        0 <= pos <= src.len(),
    ensures
        pos <= find(src, pos, stop) <= src.len(),
        pos <= digits_end(src, pos) <= src.len(),
        pos <= word_end(src, pos) <= src.len(),
    decreases src.len() - pos,
{
    if pos < src.len() {
        lemma_run_bounds(src, pos + 1, stop);
    }
}

/// Every lexeme holds at least one character and ends within the text.
pub proof fn lemma_lexeme_end_bounds(src: Seq<char>, pos: int)
    requires
        0 <= pos < src.len(),
    ensures
        pos < lexeme_end(src, pos) <= src.len(),
{
    lemma_run_bounds(src, pos + 1, '"');
    if pos + 2 <= src.len() {
        lemma_run_bounds(src, pos + 2, '\n');
    }
    let whole = digits_end(src, pos + 1);
    if whole + 1 <= src.len() {
        lemma_run_bounds(src, whole + 1, '"');
    }
}

/// No more newlines than characters.
pub proof fn lemma_newlines_bound(src: Seq<char>, pos: int)
    requires
        0 <= pos <= src.len(),
    ensures
        newlines(src, pos) <= pos,
    decreases pos,
{
    if pos > 0 {
        lemma_newlines_bound(src, pos - 1);
    }
}

/// A run of digits holds digits only, and no digit follows it.
pub proof fn lemma_digits_end(src: Seq<char>, pos: int)
    requires
        0 <= pos <= src.len(),
    ensures
        pos <= digits_end(src, pos) <= src.len(),
        forall|i: int| pos <= i < digits_end(src, pos) ==> is_digit(#[trigger] src[i]),
        digits_end(src, pos) < src.len() ==> !is_digit(src[digits_end(src, pos)]),
    decreases src.len() - pos,
{
    if pos < src.len() && is_digit(src[pos]) {
        lemma_digits_end(src, pos + 1);
    }
}

/// The lexeme that starts with a digit is a number literal.
pub proof fn lemma_number_lexeme(src: Seq<char>, pos: int)
    requires
        0 <= pos < src.len(),
        is_digit(src[pos]),
    ensures
        is_number_text(src.subrange(pos, number_end(src, pos + 1))),
{
    let whole = digits_end(src, pos + 1);
    lemma_digits_end(src, pos + 1);
    let end = number_end(src, pos + 1);
    let text = src.subrange(pos, end);
    if end == whole {
        assert forall|i: int| 0 <= i < text.len() implies is_digit(#[trigger] text[i]) by {
            assert(text[i] == src[pos + i]);
        }
    } else {
        lemma_digits_end(src, whole + 1);
        let dot = whole - pos;
        assert forall|i: int| 0 <= i < text.take(dot).len() implies is_digit(
            #[trigger] text.take(dot)[i],
        ) by {
            assert(text.take(dot)[i] == src[pos + i]);
        }
        assert forall|i: int| 0 <= i < text.skip(dot + 1).len() implies is_digit(
            #[trigger] text.skip(dot + 1)[i],
        ) by {
            assert(text.skip(dot + 1)[i] == src[whole + 1 + i]);
        }
        assert(is_fraction(text, dot));
    }
}

/// The tokens that the text holds from `pos` on, in order.
pub open spec fn spans_from(src: Seq<char>, pos: int) -> Seq<Span>
    decreases src.len() - pos,
{
    if 0 <= pos < src.len() {
        let end = lexeme_end(src, pos);
        if end <= pos || end > src.len() {
            Seq::empty()
        } else {
            match lexed_at(src, pos) {
                Lexed::Token(kind) => seq![Span { kind, start: pos, end }] + spans_from(src, end),
                _ => spans_from(src, end),
            }
        }
    } else {
        Seq::empty()
    }
}

/// The diagnostics that the text gives from `pos` on, in order. Each stands
/// on the line where its lexeme ends.
pub open spec fn errors_from(src: Seq<char>, pos: int) -> Seq<ErrorView>
    decreases src.len() - pos,
{
    if 0 <= pos < src.len() {
        let end = lexeme_end(src, pos);
        if end <= pos || end > src.len() {
            Seq::empty()
        } else {
            match lexed_at(src, pos) {
                Lexed::Error(message) => seq![
                    ErrorView::Lexer { line: line_at(src, end), message },
                ] + errors_from(src, end),
                _ => errors_from(src, end),
            }
        }
    } else {
        Seq::empty()
    }
}

/// Whether the text from `pos` on holds nothing but blanks, newlines and
/// comments.
pub open spec fn only_blank_from(src: Seq<char>, pos: int) -> bool
    decreases src.len() - pos,
{
    if pos < 0 || pos >= src.len() {
        true
    } else if is_blank(src[pos]) || src[pos] == '\n' {
        only_blank_from(src, pos + 1)
    } else if src[pos] == '/' && has(src, pos + 1, '/') {
        let end = find(src, pos + 2, '\n');
        pos < end <= src.len() && only_blank_from(src, end)
    } else {
        false
    }
}

/// A run of digits that something else follows, or the end of the text, ends
/// there.
pub proof fn lemma_digits_run(src: Seq<char>, from: int, to: int)
    requires
        0 <= from <= to <= src.len(),
        forall|i: int| from <= i < to ==> is_digit(#[trigger] src[i]),
        to < src.len() ==> !is_digit(src[to]),
    ensures
        digits_end(src, from) == to,
    decreases to - from,
{
    if from < to {
        lemma_digits_run(src, from + 1, to);
    }
}

/// Where `stop` does not occur from `pos` on, the search for it ends at the
/// end of the text.
pub proof fn lemma_find_absent(src: Seq<char>, pos: int, stop: char)
    requires
        0 <= pos <= src.len(),
        forall|i: int| pos <= i < src.len() ==> #[trigger] src[i] != stop,
    ensures
        find(src, pos, stop) == src.len(),
    decreases src.len() - pos,
{
    if pos < src.len() {
        lemma_find_absent(src, pos + 1, stop);
    }
}

/// A text without newlines before `pos` has `pos` on its first line.
pub proof fn lemma_first_line(src: Seq<char>, pos: int)
    requires
        0 <= pos <= src.len(),
        forall|i: int| 0 <= i < pos ==> #[trigger] src[i] != '\n',
    ensures
        line_at(src, pos) == 1,
    decreases pos,
{
    if pos > 0 {
        lemma_first_line(src, pos - 1);
    }
}

/// Every lexeme lies in the text, holds a character or more, and is of a kind
/// other than the end of input.
pub proof fn lemma_spans(src: Seq<char>, pos: int)
    requires
        0 <= pos <= src.len(),
    ensures
        forall|i: int|
            0 <= i < spans_from(src, pos).len() ==> {
                let span = #[trigger] spans_from(src, pos)[i];
                &&& pos <= span.start < span.end <= src.len()
                &&& span.kind != TokenType::EOF
            },
    decreases src.len() - pos,
{
    if pos < src.len() {
        let end = lexeme_end(src, pos);
        lemma_lexeme_end_bounds(src, pos);
        lemma_spans(src, end);
        lemma_word_kind(src.subrange(pos, word_end(src, pos + 1)));
        let rest = spans_from(src, end);
        assert forall|i: int| 0 <= i < spans_from(src, pos).len() implies {
            let span = #[trigger] spans_from(src, pos)[i];
            &&& pos <= span.start < span.end <= src.len()
            &&& span.kind != TokenType::EOF
        } by {
            match lexed_at(src, pos) {
                Lexed::Token(kind) => {
                    if i > 0 {
                        assert(spans_from(src, pos)[i] == rest[i - 1]);
                    }
                },
                _ => {
                    assert(spans_from(src, pos)[i] == rest[i]);
                },
            }
        }
    }
}

/// A text of blanks, newlines and comments holds no token and gives no
/// diagnostic.
pub proof fn lemma_blank_text(src: Seq<char>, pos: int)
    requires
        0 <= pos <= src.len(),
        only_blank_from(src, pos),
    ensures
        spans_from(src, pos) == Seq::<Span>::empty(),
        errors_from(src, pos) == Seq::<ErrorView>::empty(),
    decreases src.len() - pos,
{
    if pos < src.len() {
        lemma_lexeme_end_bounds(src, pos);
        lemma_blank_text(src, lexeme_end(src, pos));
    }
}

/// A number literal is one lexeme: a number that spans the whole text, on the
/// first line.
pub proof fn lemma_number_text(src: Seq<char>)
    requires
        is_number_text(src),
    ensures
        spans_from(src, 0) == seq![
            Span { kind: TokenType::Number, start: 0, end: src.len() as int },
        ],
        errors_from(src, 0) == Seq::<ErrorView>::empty(),
        line_at(src, src.len() as int) == 1,
{
    let len = src.len() as int;
    if len > 0 && all_digits(src) {
        lemma_digits_run(src, 1, len);
        assert forall|i: int| 0 <= i < len implies #[trigger] src[i] != '\n' by {
            assert(is_digit(src[i]));
        }
    } else {
        let dot = choose|dot: int| #[trigger] is_fraction(src, dot);
        assert forall|i: int| 0 <= i < dot implies is_digit(#[trigger] src[i]) by {
            assert(src.take(dot)[i] == src[i]);
        }
        assert forall|i: int| dot + 1 <= i < len implies is_digit(#[trigger] src[i]) by {
            assert(src.skip(dot + 1)[i - dot - 1] == src[i]);
        }
        lemma_digits_run(src, 1, dot);
        lemma_digits_run(src, dot + 1, len);
        assert forall|i: int| 0 <= i < len implies #[trigger] src[i] != '\n' by {
            if i != dot {
                assert(is_digit(src[i]));
            }
        }
    }
    assert(is_digit(src[0]));
    assert(lexeme_end(src, 0) == len);
    lemma_first_line(src, len);
    assert(spans_from(src, len) == Seq::<Span>::empty());
    assert(spans_from(src, 0) =~= seq![Span { kind: TokenType::Number, start: 0, end: len }]);
    assert(errors_from(src, len) == Seq::<ErrorView>::empty());
}

/// A string that is never closed is no token: it gives one diagnostic, on the
/// last line, and nothing else follows it.
pub proof fn lemma_unterminated_string(src: Seq<char>, pos: int)
    requires
        0 <= pos < src.len(),
        src[pos] == '"',
        forall|i: int| pos < i < src.len() ==> #[trigger] src[i] != '"',
    ensures
        lexeme_end(src, pos) == src.len(),
        spans_from(src, pos) == Seq::<Span>::empty(),
        errors_from(src, pos) == seq![
            ErrorView::Lexer {
                line: line_at(src, src.len() as int),
                message: unterminated_string_message(),
            },
        ],
{
    let len = src.len() as int;
    lemma_find_absent(src, pos + 1, '"');
    assert(spans_from(src, len) == Seq::<Span>::empty());
    assert(errors_from(src, len) == Seq::<ErrorView>::empty());
    assert(errors_from(src, pos) =~= seq![
        ErrorView::Lexer { line: line_at(src, len), message: unterminated_string_message() },
    ]);
}

} // verus!
