//! The parser: from tokens to an expression tree, by recursive descent.

use vstd::prelude::*;
use vstd::string::*;
use crate::error::{ErrorView, LoxiteError, ParserError};
use crate::expr::{BinaryExpr, Expr, ExprView, GroupingExpr, LiteralExpr, UnaryExpr};
use crate::grammar::{
    kind_at, parse_expression, parse_level, parse_operand, parse_primary, parse_rest,
    parse_unary, statement_boundary, terminated, token_at, Level, Parsed,
};
use crate::token::{views, Token, TokenLiteral, TokenType, TokenView};

verus! {

/// The parser's state: the tokens and the position of the next one.
pub struct Parser {
    pub tokens: Vec<Token>,
    pub current: usize,
}

/// Whether what a rule returned, and where it left the cursor, is what the
/// grammar says; and the cursor has not moved back, has taken a token or more
/// where a tree was built, and is still before the end.
pub open spec fn produced(
    result: Result<Expr, LoxiteError>,
    before: &Parser,
    after: &Parser,
    parsed: Parsed,
) -> bool {
    &&& after.wf()
    &&& after.tokens == before.tokens
    &&& after.current == parsed.next
    &&& before.current <= after.current
    &&& match result {
        Ok(expr) => parsed.result == Ok::<ExprView, ErrorView>(expr@) && before.current
            < after.current,
        Err(err) => parsed.result == Err::<ExprView, ErrorView>(err@),
    }
}

impl Parser {
    /// The tokens as the grammar sees them.
    pub open spec fn view(&self) -> Seq<TokenView> {
        views(self.tokens@)
    }

    /// The tokens end with the end of input, and the cursor is on a token.
    pub open spec fn wf(&self) -> bool {
        terminated(self@) && self.current < self.tokens@.len()
    }

    /// A parser at the first of `tokens`.
    pub fn new(tokens: Vec<Token>) -> (parser: Self)
        ensures
            parser.tokens == tokens,
            parser.current == 0,
            terminated(views(tokens@)) ==> parser.wf(),
    {
        Parser { tokens, current: 0 }
    }

    /// Parses one expression from the first token on. The first error ends
    /// the parse.
    pub fn parser(&mut self) -> (result: Result<Expr, LoxiteError>)
        requires
            old(self).wf(),
        ensures
            produced(
                result,
                old(self),
                final(self),
                parse_expression(old(self)@, old(self).current as int),
            ),
    {
        self.expression()
    }

    /// `expression`: the loosest level.
    fn expression(&mut self) -> (result: Result<Expr, LoxiteError>)
        requires
            old(self).wf(),
        ensures
            produced(
                result,
                old(self),
                final(self),
                parse_expression(old(self)@, old(self).current as int),
            ),
        decreases old(self).tokens@.len() - old(self).current, 5nat, 0nat,
    {
        self.equality()
    }

    /// `equality`: comparisons joined by `!=` and `==`.
    fn equality(&mut self) -> (result: Result<Expr, LoxiteError>)
        requires
            old(self).wf(),
        ensures
            produced(
                result,
                old(self),
                final(self),
                parse_level(old(self)@, old(self).current as int, Level::Equality),
            ),
        decreases old(self).tokens@.len() - old(self).current, 4nat, 3nat,
    {
        self.binary(Level::Equality)
    }

    /// `comparison`: terms joined by `>`, `>=`, `<` and `<=`.
    fn comparison(&mut self) -> (result: Result<Expr, LoxiteError>)
        requires
            old(self).wf(),
        ensures
            produced(
                result,
                old(self),
                final(self),
                parse_level(old(self)@, old(self).current as int, Level::Comparison),
            ),
        decreases old(self).tokens@.len() - old(self).current, 3nat, 3nat,
    {
        self.binary(Level::Comparison)
    }

    /// `term`: factors joined by `-` and `+`.
    fn term(&mut self) -> (result: Result<Expr, LoxiteError>)
        requires
            old(self).wf(),
        ensures
            produced(
                result,
                old(self),
                final(self),
                parse_level(old(self)@, old(self).current as int, Level::Term),
            ),
        decreases old(self).tokens@.len() - old(self).current, 2nat, 3nat,
    {
        self.binary(Level::Term)
    }

    /// `factor`: unaries joined by `/` and `*`.
    fn factor(&mut self) -> (result: Result<Expr, LoxiteError>)
        requires
            old(self).wf(),
        ensures
            produced(
                result,
                old(self),
                final(self),
                parse_level(old(self)@, old(self).current as int, Level::Factor),
            ),
        decreases old(self).tokens@.len() - old(self).current, 1nat, 3nat,
    {
        self.binary(Level::Factor)
    }

    /// One operand of a level: the rule of the level below.
    fn operand(&mut self, level: Level) -> (result: Result<Expr, LoxiteError>)
        requires
            old(self).wf(),
        ensures
            produced(
                result,
                old(self),
                final(self),
                parse_operand(old(self)@, old(self).current as int, level),
            ),
        decreases old(self).tokens@.len() - old(self).current, level.rank(), 0nat,
    {
        match level {
            Level::Factor => self.unary(),
            Level::Term => self.factor(),
            Level::Comparison => self.term(),
            Level::Equality => self.comparison(),
        }
    }

    /// Takes the token under the cursor if it is an operator of the level.
    fn match_operator(&mut self, level: Level) -> (matched: bool)
        requires
            old(self).wf(),
        ensures
            final(self).wf(),
            final(self).tokens == old(self).tokens,
            matched == level.has_operator(kind_at(old(self)@, old(self).current as int)),
            final(self).current == old(self).current + if matched { 1int } else { 0int },
    {
        match level {
            Level::Factor => self.match_token(&[TokenType::Slash, TokenType::Star]),
            Level::Term => self.match_token(&[TokenType::Minus, TokenType::Plus]),
            Level::Comparison => self.match_token(
                &[
                    TokenType::Greater,
                    TokenType::GreaterEqual,
                    TokenType::Less,
                    TokenType::LessEqual,
                ],
            ),
            Level::Equality => self.match_token(&[TokenType::BangEqual, TokenType::EqualEqual]),
        }
    }

    /// A binary level: an operand, then operators of the level with an
    /// operand each, folded to the left as they come.
    fn binary(&mut self, level: Level) -> (result: Result<Expr, LoxiteError>)
        requires
            old(self).wf(),
        ensures
            produced(
                result,
                old(self),
                final(self),
                parse_level(old(self)@, old(self).current as int, level),
            ),
        decreases old(self).tokens@.len() - old(self).current, level.rank(), 2nat,
    {
        let ghost tokens = self@;
        let ghost start = self.current as int;
        let mut expr = match self.operand(level) {
            Ok(expr) => expr,
            Err(err) => {
                return Err(err);
            },
        };
        loop
            invariant
                self.wf(),
                self.tokens == old(self).tokens,
                tokens == old(self)@,
                start == old(self).current,
                start < self.current,
                parse_level(tokens, start, level) == parse_rest(
                    tokens,
                    self.current as int,
                    level,
                    expr@,
                ),
            decreases self.tokens@.len() - self.current,
        {
            if !self.match_operator(level) {
                return Ok(expr);
            }
            let operator = self.previous().clone();
            let right = match self.operand(level) {
                Ok(right) => right,
                Err(err) => {
                    return Err(err);
                },
            };
            expr = Expr::Binary(Box::new(BinaryExpr { left: expr, operator, right }));
        }
    }

    /// `unary`: a prefix operator with all that follows it, or a primary.
    fn unary(&mut self) -> (result: Result<Expr, LoxiteError>)
        requires
            old(self).wf(),
        ensures
            produced(
                result,
                old(self),
                final(self),
                parse_unary(old(self)@, old(self).current as int),
            ),
        decreases old(self).tokens@.len() - old(self).current, 0nat, 1nat,
    {
        if self.match_token(&[TokenType::Bang, TokenType::Minus]) {
            let operator = self.previous().clone();
            let right = match self.unary() {
                Ok(right) => right,
                Err(err) => {
                    return Err(err);
                },
            };
            return Ok(Expr::Unary(Box::new(UnaryExpr { operator, right })));
        }
        self.primary()
    }

    /// `primary`: a literal, or an expression in parentheses.
    fn primary(&mut self) -> (result: Result<Expr, LoxiteError>)
        requires
            old(self).wf(),
        ensures
            produced(
                result,
                old(self),
                final(self),
                parse_primary(old(self)@, old(self).current as int),
            ),
        decreases old(self).tokens@.len() - old(self).current, 0nat, 0nat,
    {
        if self.match_token(&[TokenType::False]) {
            return Ok(Expr::Literal(LiteralExpr { value: TokenLiteral::Boolean(false) }));
        }
        if self.match_token(&[TokenType::True]) {
            return Ok(Expr::Literal(LiteralExpr { value: TokenLiteral::Boolean(true) }));
        }
        if self.match_token(&[TokenType::Nil]) {
            return Ok(Expr::Literal(LiteralExpr { value: TokenLiteral::Empty }));
        }
        if self.match_token(&[TokenType::Number, TokenType::String]) {
            return Ok(Expr::Literal(LiteralExpr { value: self.previous().literal.clone() }));
        }
        if self.match_token(&[TokenType::LeftParen]) {
            let expr = match self.expression() {
                Ok(expr) => expr,
                Err(err) => {
                    return Err(err);
                },
            };
            match self.consume(TokenType::RightParen, "Expected ')' after expression") {
                Ok(_) => {},
                Err(err) => {
                    return Err(err);
                },
            }
            return Ok(Expr::Grouping(Box::new(GroupingExpr { expression: expr })));
        }
        Err(LoxiteError::Parser(ParserError::new(self.peek(), "Expected expression.")))
    }

    /// Skips to where the next statement may begin: takes one token, then
    /// tokens until the one before the cursor is a semicolon, the one under
    /// it begins a statement, or the end of input is reached.
    pub fn synchronize(&mut self)
        requires
            old(self).wf(),
            old(self).current > 0 || kind_at(old(self)@, 0) != TokenType::EOF,
        ensures
            final(self).wf(),
            final(self).tokens == old(self).tokens,
            final(self).current == statement_boundary(
                old(self)@,
                if kind_at(old(self)@, old(self).current as int) != TokenType::EOF {
                    old(self).current + 1
                } else {
                    old(self).current as int
                },
            ),
    {
        self.advance();
        let ghost from = self.current as int;
        while !self.is_at_end()
            invariant
                self.wf(),
                self.tokens == old(self).tokens,
                0 < self.current,
                from == if kind_at(old(self)@, old(self).current as int) != TokenType::EOF {
                    old(self).current + 1
                } else {
                    old(self).current as int
                },
                statement_boundary(self@, from) == statement_boundary(self@, self.current as int),
            decreases self.tokens@.len() - self.current,
        {
            if self.previous().token_type == TokenType::Semicolon {
                return ;
            }
            match self.peek().token_type {
                TokenType::Class
                | TokenType::Fun
                | TokenType::Var
                | TokenType::For
                | TokenType::If
                | TokenType::While
                | TokenType::Print
                | TokenType::Return => {
                    return ;
                },
                _ => {
                    self.advance();
                },
            }
        }
    }

    /// Takes the token under the cursor if it is of the expected kind; else
    /// fails with the message, at that token, and takes nothing.
    fn consume(&mut self, token_type: TokenType, message: &str) -> (result: Result<
        &Token,
        LoxiteError,
    >)
        requires
            old(self).wf(),
        ensures
            final(self).wf(),
            final(self).tokens == old(self).tokens,
            match result {
                Ok(token) => {
                    &&& kind_at(old(self)@, old(self).current as int) == token_type
                    &&& token_type != TokenType::EOF
                    &&& final(self).current == old(self).current + 1
                    &&& *token == old(self).tokens@[old(self).current as int]
                },
                Err(err) => {
                    &&& !(kind_at(old(self)@, old(self).current as int) == token_type
                        && token_type != TokenType::EOF)
                    &&& final(self).current == old(self).current
                    &&& err@ == (ErrorView::Parser {
                        token: token_at(old(self)@, old(self).current as int),
                        message: message@,
                    })
                },
            },
    {
        if self.check(&token_type) {
            return Ok(self.advance());
        }
        Err(LoxiteError::Parser(ParserError::new(self.peek(), message)))
    }

    /// Takes the token under the cursor if its kind is one of `types`.
    fn match_token(&mut self, types: &[TokenType]) -> (matched: bool)
        requires
            old(self).wf(),
        ensures
            final(self).wf(),
            final(self).tokens == old(self).tokens,
            matched == (kind_at(old(self)@, old(self).current as int) != TokenType::EOF
                && types@.contains(kind_at(old(self)@, old(self).current as int))),
            final(self).current == old(self).current + if matched { 1int } else { 0int },
    {
        let mut i: usize = 0;
        while i < types.len()
            invariant
                self.wf(),
                self.tokens == old(self).tokens,
                self.current == old(self).current,
                i <= types@.len(),
                forall|j: int|
                    0 <= j < i ==> !(kind_at(self@, self.current as int) != TokenType::EOF
                        && types@[j] == kind_at(self@, self.current as int)),
            decreases types@.len() - i,
        {
            if self.check(&types[i]) {
                self.advance();
                return true;
            }
            i += 1;
        }
        false
    }

    /// Whether the token under the cursor is of this kind; never so for the
    /// end of input.
    fn check(&self, token_type: &TokenType) -> (r: bool)
        requires
            self.wf(),
        ensures
            r == (kind_at(self@, self.current as int) == *token_type && *token_type
                != TokenType::EOF),
    {
        if self.is_at_end() {
            return false;
        }
        self.peek().token_type == *token_type
    }

    /// Moves the cursor to the next token, unless it is at the end of input,
    /// and returns the token before the cursor.
    fn advance(&mut self) -> (token: &Token)
        requires
            old(self).wf(),
            old(self).current > 0 || kind_at(old(self)@, 0) != TokenType::EOF,
        ensures
            final(self).wf(),
            final(self).tokens == old(self).tokens,
            final(self).current == old(self).current + if kind_at(
                old(self)@,
                old(self).current as int,
            ) != TokenType::EOF {
                1int
            } else {
                0int
            },
            *token == final(self).tokens@[final(self).current - 1],
    {
        if !self.is_at_end() {
            let count = self.tokens.len();
            assert(self.current < count);
            self.current += 1
        }
        self.previous()
    }

    /// Whether the token under the cursor is the end of input.
    fn is_at_end(&self) -> (r: bool)
        requires
            self.wf(),
        ensures
            r == (kind_at(self@, self.current as int) == TokenType::EOF),
    {
        self.peek().token_type == TokenType::EOF
    }

    /// The token under the cursor.
    fn peek(&self) -> (token: &Token)
        requires
            self.wf(),
        ensures
            *token == self.tokens@[self.current as int],
            token@ == token_at(self@, self.current as int),
    {
        &self.tokens[self.current]
    }

    /// The token before the cursor.
    fn previous(&self) -> (token: &Token)
        requires
            0 < self.current <= self.tokens@.len(),
        ensures
            *token == self.tokens@[self.current - 1],
            token@ == token_at(self@, self.current - 1),
    {
        &self.tokens[self.current - 1]
    }
}

} // verus!
