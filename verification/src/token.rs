//! The vocabulary shared by the scanner, the parser and the evaluator.

use vstd::prelude::*;
use vstd::string::*;

verus! {

/// The kind of a token.
#[derive(Debug, Clone, Copy, PartialEq, Eq, Structural)]
pub enum TokenType {
    LeftParen,
    RightParen,
    LeftBrace,
    RightBrace,
    Comma,
    Dot,
    Minus,
    Plus,
    Semicolon,
    Slash,
    Star,
    Bang,
    BangEqual,
    Equal,
    EqualEqual,
    Greater,
    GreaterEqual,
    Less,
    LessEqual,
    String,
    Number,
    Identifier,
    And,
    Class,
    Else,
    False,
    Fun,
    For,
    If,
    Nil,
    Or,
    Print,
    Return,
    Super,
    This,
    True,
    Var,
    While,
    EOF,
}

impl TokenType {
    /// The name of the kind.
    pub open spec fn name_text(self) -> Seq<char> {
        match self {
            TokenType::LeftParen => "LeftParen"@,
            TokenType::RightParen => "RightParen"@,
            TokenType::LeftBrace => "LeftBrace"@,
            TokenType::RightBrace => "RightBrace"@,
            TokenType::Comma => "Comma"@,
            TokenType::Dot => "Dot"@,
            TokenType::Minus => "Minus"@,
            TokenType::Plus => "Plus"@,
            TokenType::Semicolon => "Semicolon"@,
            TokenType::Slash => "Slash"@,
            TokenType::Star => "Star"@,
            TokenType::Bang => "Bang"@,
            TokenType::BangEqual => "BangEqual"@,
            TokenType::Equal => "Equal"@,
            TokenType::EqualEqual => "EqualEqual"@,
            TokenType::Greater => "Greater"@,
            TokenType::GreaterEqual => "GreaterEqual"@,
            TokenType::Less => "Less"@,
            TokenType::LessEqual => "LessEqual"@,
            TokenType::String => "String"@,
            TokenType::Number => "Number"@,
            TokenType::Identifier => "Identifier"@,
            TokenType::And => "And"@,
            TokenType::Class => "Class"@,
            TokenType::Else => "Else"@,
            TokenType::False => "False"@,
            TokenType::Fun => "Fun"@,
            TokenType::For => "For"@,
            TokenType::If => "If"@,
            TokenType::Nil => "Nil"@,
            TokenType::Or => "Or"@,
            TokenType::Print => "Print"@,
            TokenType::Return => "Return"@,
            TokenType::Super => "Super"@,
            TokenType::This => "This"@,
            TokenType::True => "True"@,
            TokenType::Var => "Var"@,
            TokenType::While => "While"@,
            TokenType::EOF => "EOF"@,
        }
    }

    /// The name of the kind.
    pub fn name(&self) -> (text: &'static str)
        ensures
            text@ == self.name_text(),
    {
        match self {
            TokenType::LeftParen => "LeftParen",
            TokenType::RightParen => "RightParen",
            TokenType::LeftBrace => "LeftBrace",
            TokenType::RightBrace => "RightBrace",
            TokenType::Comma => "Comma",
            TokenType::Dot => "Dot",
            TokenType::Minus => "Minus",
            TokenType::Plus => "Plus",
            TokenType::Semicolon => "Semicolon",
            TokenType::Slash => "Slash",
            TokenType::Star => "Star",
            TokenType::Bang => "Bang",
            TokenType::BangEqual => "BangEqual",
            TokenType::Equal => "Equal",
            TokenType::EqualEqual => "EqualEqual",
            TokenType::Greater => "Greater",
            TokenType::GreaterEqual => "GreaterEqual",
            TokenType::Less => "Less",
            TokenType::LessEqual => "LessEqual",
            TokenType::String => "String",
            TokenType::Number => "Number",
            TokenType::Identifier => "Identifier",
            TokenType::And => "And",
            TokenType::Class => "Class",
            TokenType::Else => "Else",
            TokenType::False => "False",
            TokenType::Fun => "Fun",
            TokenType::For => "For",
            TokenType::If => "If",
            TokenType::Nil => "Nil",
            TokenType::Or => "Or",
            TokenType::Print => "Print",
            TokenType::Return => "Return",
            TokenType::Super => "Super",
            TokenType::This => "This",
            TokenType::True => "True",
            TokenType::Var => "Var",
            TokenType::While => "While",
            TokenType::EOF => "EOF",
        }
    }
}

/// The value a token carries. A number is held as the bit pattern of its
/// IEEE-754 binary64 value.
#[derive(Debug)]
pub enum TokenLiteral {
    String(String),
    Number(u64),
    Boolean(bool),
    Empty,
}

/// The mathematical content of a [`TokenLiteral`].
pub enum LiteralView {
    Text(Seq<char>),
    Number(u64),
    Boolean(bool),
    Empty,
}

impl View for TokenLiteral {
    type V = LiteralView;

    open spec fn view(&self) -> LiteralView {
        match self {
            TokenLiteral::String(s) => LiteralView::Text(s@),
            TokenLiteral::Number(bits) => LiteralView::Number(*bits),
            TokenLiteral::Boolean(b) => LiteralView::Boolean(*b),
            TokenLiteral::Empty => LiteralView::Empty,
        }
    }
}

impl Clone for TokenLiteral {
    fn clone(&self) -> (copy: Self)
        ensures
            copy@ == self@,
    {
        match self {
            TokenLiteral::String(s) => TokenLiteral::String(s.clone()),
            TokenLiteral::Number(bits) => TokenLiteral::Number(*bits),
            TokenLiteral::Boolean(b) => TokenLiteral::Boolean(*b),
            TokenLiteral::Empty => TokenLiteral::Empty,
        }
    }
}

/// The text of a truth value.
pub open spec fn bool_text(b: bool) -> Seq<char> {
    if b {
        "true"@
    } else {
        "false"@
    }
}

/// Whether `text` is the literal as the user reads it: a string as it is, a
/// number as `show` writes it, a truth value as `true` or `false`, and the
/// absent literal as nothing.
pub open spec fn literal_shown<G: Fn(u64) -> String>(
    literal: LiteralView,
    show: G,
    text: String,
) -> bool {
    match literal {
        LiteralView::Text(s) => text@ == s,
        LiteralView::Number(bits) => show.ensures((bits,), text),
        LiteralView::Boolean(b) => text@ == bool_text(b),
        LiteralView::Empty => text@ == Seq::<char>::empty(),
    }
}

/// The text of a truth value.
pub fn bool_to_text(b: bool) -> (text: String)
    ensures
        text@ == bool_text(b),
{
    if b {
        String::from_str("true")
    } else {
        String::from_str("false")
    }
}

impl TokenLiteral {
    /// The literal as the user reads it; a number is written by `show`.
    pub fn to_text<G: Fn(u64) -> String>(&self, show: &G) -> (text: String)
        requires
            forall|bits: u64| show.requires((bits,)),
        ensures
            literal_shown(self@, *show, text),
    {
        match self {
            TokenLiteral::String(value) => value.clone(),
            TokenLiteral::Number(value) => show(*value),
            TokenLiteral::Boolean(value) => bool_to_text(*value),
            TokenLiteral::Empty => String::new(),
        }
    }
}

/// One lexical unit of the source text.
#[derive(Debug)]
pub struct Token {
    pub token_type: TokenType,
    pub lexeme: String,
    pub literal: TokenLiteral,
    pub line: usize,
}

/// The mathematical content of a [`Token`].
pub struct TokenView {
    pub kind: TokenType,
    pub lexeme: Seq<char>,
    pub literal: LiteralView,
    pub line: nat,
}

impl View for Token {
    type V = TokenView;

    open spec fn view(&self) -> TokenView {
        TokenView {
            kind: self.token_type,
            lexeme: self.lexeme@,
            literal: self.literal@,
            line: self.line as nat,
        }
    }
}

impl Clone for Token {
    fn clone(&self) -> (copy: Self)
        ensures
            copy@ == self@,
    {
        Token {
            token_type: self.token_type,
            lexeme: self.lexeme.clone(),
            literal: self.literal.clone(),
            line: self.line,
        }
    }
}

/// Whether `text` is the token as the user reads it: in parentheses the name
/// of its kind, its lexeme and its literal, with a comma and a space between
/// them.
pub open spec fn token_shown<G: Fn(u64) -> String>(token: TokenView, show: G, text: Seq<char>) -> bool {
    exists|shown: String| #[trigger]
        literal_shown(token.literal, show, shown) && text == "("@ + token.kind.name_text() + ", "@
            + token.lexeme + ", "@ + shown@ + ")"@
}

impl Token {
    /// The token as the user reads it; a number is written by `show`.
    pub fn to_text<G: Fn(u64) -> String>(&self, show: &G) -> (text: String)
        requires
            forall|bits: u64| show.requires((bits,)),
        ensures
            token_shown(self@, *show, text@),
    {
        let shown = self.literal.to_text(show);
        let mut text = String::from_str("(");
        text.append(self.token_type.name());
        text.append(", ");
        text.append(self.lexeme.as_str());
        text.append(", ");
        text.append(shown.as_str());
        text.append(")");
        proof {
            assert(literal_shown(self@.literal, *show, shown));
        }
        text
    }
}

/// The mathematical content of a sequence of tokens.
pub open spec fn views(tokens: Seq<Token>) -> Seq<TokenView> {
    tokens.map_values(|token: Token| token@)
}

} // verus!
