//! What can go wrong in each stage, and how it is reported.

use vstd::prelude::*;
use vstd::string::*;
use crate::text::{append_decimal, decimal};
use crate::token::{Token, TokenType, TokenView};

verus! {

/// The mathematical content of a diagnostic.
pub enum ErrorView {
    Lexer { line: nat, message: Seq<char> },
    Parser { token: TokenView, message: Seq<char> },
    Runtime { token: TokenView, message: Seq<char> },
}

/// An unexpected or missing token.
#[derive(Debug)]
pub struct ParserError {
    pub token: Token,
    pub message: String,
}

/// A character or a literal that the scanner could not read.
#[derive(Debug)]
pub struct LexerError {
    pub line: usize,
    pub message: String,
}

/// An operation applied to values of the wrong kind.
#[derive(Debug)]
pub struct RuntimeError {
    pub token: Token,
    pub message: String,
}

/// A diagnostic of any stage.
#[derive(Debug)]
pub enum LoxiteError {
    Lexer(LexerError),
    Parser(ParserError),
    Runtime(RuntimeError),
}

impl View for ParserError {
    type V = ErrorView;

    open spec fn view(&self) -> ErrorView {
        ErrorView::Parser { token: self.token@, message: self.message@ }
    }
}

impl View for LexerError {
    type V = ErrorView;

    open spec fn view(&self) -> ErrorView {
        ErrorView::Lexer { line: self.line as nat, message: self.message@ }
    }
}

impl View for RuntimeError {
    type V = ErrorView;

    open spec fn view(&self) -> ErrorView {
        ErrorView::Runtime { token: self.token@, message: self.message@ }
    }
}

impl View for LoxiteError {
    type V = ErrorView;

    open spec fn view(&self) -> ErrorView {
        match self {
            LoxiteError::Lexer(err) => err@,
            LoxiteError::Parser(err) => err@,
            LoxiteError::Runtime(err) => err@,
        }
    }
}

/// The message for an operator that takes numbers only.
pub open spec fn number_operands_message() -> Seq<char> {
    "Operands must be numbers."@
}

/// The message for an operator that takes two numbers or two strings.
pub open spec fn number_or_string_operands_message() -> Seq<char> {
    "Operands must be two integers or two strings."@
}

impl LexerError {
    /// A scanner diagnostic on the given line.
    pub fn new(line: usize, message: &str) -> (err: Self)
        ensures
            err@ == (ErrorView::Lexer { line: line as nat, message: message@ }),
    {
        LexerError { line, message: String::from_str(message) }
    }
}

impl ParserError {
    /// A parser diagnostic at the given token.
    pub fn new(token: &Token, message: &str) -> (err: Self)
        ensures
            err@ == (ErrorView::Parser { token: token@, message: message@ }),
    {
        ParserError { token: token.clone(), message: String::from_str(message) }
    }
}

impl RuntimeError {
    /// The error of an operator that takes numbers only.
    pub fn number_operands(token: &Token) -> (err: Self)
        ensures
            err@ == (ErrorView::Runtime { token: token@, message: number_operands_message() }),
    {
        Self { token: token.clone(), message: String::from_str("Operands must be numbers.") }
    }

    /// The error of an operator that takes two numbers or two strings.
    pub fn number_or_string_operands(token: &Token) -> (err: Self)
        ensures
            err@ == (ErrorView::Runtime {
                token: token@,
                message: number_or_string_operands_message(),
            }),
    {
        Self {
            token: token.clone(),
            message: String::from_str("Operands must be two integers or two strings."),
        }
    }

    /// A runtime error at the given token with a message of the caller's.
    pub fn error(token: &Token, msg: &str) -> (err: Self)
        ensures
            err@ == (ErrorView::Runtime { token: token@, message: msg@ }),
    {
        Self { token: token.clone(), message: String::from_str(msg) }
    }
}

impl ErrorView {
    /// The line the diagnostic points at.
    pub open spec fn line(self) -> nat {
        match self {
            ErrorView::Lexer { line, .. } => line,
            ErrorView::Parser { token, .. } => token.line,
            ErrorView::Runtime { token, .. } => token.line,
        }
    }

    /// Where on the line a diagnostic of the scanner or the parser points:
    /// nowhere, at the end of input, or at a lexeme.
    pub open spec fn location(self) -> Seq<char> {
        match self {
            ErrorView::Parser { token, .. } => if token.kind == TokenType::EOF {
                " at end"@
            } else {
                " at '"@ + token.lexeme + "'"@
            },
            _ => Seq::empty(),
        }
    }

    /// The message of the diagnostic.
    pub open spec fn message(self) -> Seq<char> {
        match self {
            ErrorView::Lexer { message, .. } => message,
            ErrorView::Parser { message, .. } => message,
            ErrorView::Runtime { message, .. } => message,
        }
    }

    /// The diagnostic as the user reads it.
    pub open spec fn rendered(self) -> Seq<char> {
        match self {
            ErrorView::Runtime { .. } => "[line "@ + decimal(self.line()) + "]: "@
                + self.message(),
            _ => "[line "@ + decimal(self.line()) + "] Error"@ + self.location() + ": "@
                + self.message(),
        }
    }

    /// The stage the diagnostic comes from.
    pub open spec fn description(self) -> Seq<char> {
        match self {
            ErrorView::Lexer { .. } => "an error during lexical phase"@,
            ErrorView::Parser { .. } => "an error during parser phase"@,
            ErrorView::Runtime { .. } => "an error during runtime"@,
        }
    }
}

impl LexerError {
    /// The diagnostic as the user reads it: the line, the word `Error` and
    /// the message.
    pub fn render(&self) -> (text: String)
        ensures
            text@ == self@.rendered(),
    {
        let mut text = String::from_str("[line ");
        append_decimal(&mut text, self.line);
        text.append("] Error");
        text.append(": ");
        text.append(self.message.as_str());
        proof {
            assert(self@.location() + ": "@ =~= ": "@);
            assert(text@ =~= self@.rendered());
        }
        text
    }
}

impl ParserError {
    /// The diagnostic as the user reads it: the line, the word `Error` with
    /// the lexeme of the token or, for the end of input, `at end`, and the
    /// message.
    pub fn render(&self) -> (text: String)
        ensures
            text@ == self@.rendered(),
    {
        let mut text = String::from_str("[line ");
        append_decimal(&mut text, self.token.line);
        text.append("] Error");
        match self.token.token_type {
            TokenType::EOF => {
                text.append(" at end");
            },
            _ => {
                text.append(" at '");
                text.append(self.token.lexeme.as_str());
                text.append("'");
            },
        }
        text.append(": ");
        text.append(self.message.as_str());
        proof {
            assert(text@ =~= self@.rendered());
        }
        text
    }
}

impl RuntimeError {
    /// The diagnostic as the user reads it: the line and the message.
    pub fn render(&self) -> (text: String)
        ensures
            text@ == self@.rendered(),
    {
        let mut text = String::from_str("[line ");
        append_decimal(&mut text, self.token.line);
        text.append("]: ");
        text.append(self.message.as_str());
        proof {
            assert(text@ =~= self@.rendered());
        }
        text
    }
}

impl LoxiteError {
    /// The diagnostic as the user reads it.
    pub fn render(&self) -> (text: String)
        ensures
            text@ == self@.rendered(),
    {
        match self {
            LoxiteError::Lexer(err) => err.render(),
            LoxiteError::Parser(err) => err.render(),
            LoxiteError::Runtime(err) => err.render(),
        }
    }

    /// The stage the diagnostic comes from, in words.
    pub fn description(&self) -> (text: &'static str)
        ensures
            text@ == self@.description(),
    {
        match self {
            LoxiteError::Lexer(_) => "an error during lexical phase",
            LoxiteError::Parser(_) => "an error during parser phase",
            LoxiteError::Runtime(_) => "an error during runtime",
        }
    }
}

} // verus!
