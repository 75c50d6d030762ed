//! The grammar of expressions, as functions from a token sequence and a
//! position to the tree that starts there and the position behind it.
//!
//! ```text
//! expression → equality
//! equality   → comparison ( ( "!=" | "==" ) comparison )*
//! comparison → term ( ( ">" | ">=" | "<" | "<=" ) term )*
//! term       → factor ( ( "-" | "+" ) factor )*
//! factor     → unary ( ( "/" | "*" ) unary )*
//! unary      → ( "!" | "-" ) unary | primary
//! primary    → NUMBER | STRING | "true" | "false" | "nil" | "(" expression ")"
//! ```

use vstd::prelude::*;
use crate::error::ErrorView;
use crate::expr::ExprView;
use crate::token::{LiteralView, TokenType, TokenView};

verus! {

/// The levels of binary operators, from the one that binds tightest.
#[derive(Debug, Clone, Copy, PartialEq, Eq, Structural)]
pub enum Level {
    Factor,
    Term,
    Comparison,
    Equality,
}

impl Level {
    /// The height of the level above the prefix operators.
    pub open spec fn rank(self) -> nat {
        match self {
            Level::Factor => 1,
            Level::Term => 2,
            Level::Comparison => 3,
            Level::Equality => 4,
        }
    }

    /// Whether a token of this kind is an operator of the level.
    pub open spec fn has_operator(self, kind: TokenType) -> bool {
        match self {
            Level::Factor => kind == TokenType::Slash || kind == TokenType::Star,
            Level::Term => kind == TokenType::Minus || kind == TokenType::Plus,
            Level::Comparison => kind == TokenType::Greater || kind == TokenType::GreaterEqual
                || kind == TokenType::Less || kind == TokenType::LessEqual,
            Level::Equality => kind == TokenType::BangEqual || kind == TokenType::EqualEqual,
        }
    }
}

/// What a rule made of the tokens from a position on: a tree or a diagnostic,
/// and the position of the first token it left.
pub struct Parsed {
    pub result: Result<ExprView, ErrorView>,
    pub next: int,
}

/// The token at `pos`; behind the sequence, an end-of-input token.
pub open spec fn token_at(tokens: Seq<TokenView>, pos: int) -> TokenView {
    if 0 <= pos < tokens.len() {
        tokens[pos]
    } else {
        TokenView {
            kind: TokenType::EOF,
            lexeme: Seq::empty(),
            literal: LiteralView::Empty,
            line: 0,
        }
    }
}

/// The kind of the token at `pos`.
pub open spec fn kind_at(tokens: Seq<TokenView>, pos: int) -> TokenType {
    token_at(tokens, pos).kind
}

/// Whether a token of this kind is a prefix operator.
pub open spec fn is_prefix(kind: TokenType) -> bool {
    kind == TokenType::Bang || kind == TokenType::Minus
}

/// The message for a token that begins no expression.
pub open spec fn expected_expression_message() -> Seq<char> {
    "Expected expression."@
}

/// The message for a group that is not closed.
pub open spec fn expected_paren_message() -> Seq<char> {
    "Expected ')' after expression"@
}

/// The diagnostic for the token at `pos`.
pub open spec fn error_at(tokens: Seq<TokenView>, pos: int, message: Seq<char>) -> Parsed {
    Parsed { result: Err(ErrorView::Parser { token: token_at(tokens, pos), message }), next: pos }
}

/// The literal at `pos`.
pub open spec fn literal_at(pos: int, value: LiteralView) -> Parsed {
    Parsed { result: Ok(ExprView::Literal { value }), next: pos + 1 }
}

/// `primary`: a literal, or an expression in parentheses.
pub open spec fn parse_primary(tokens: Seq<TokenView>, pos: int) -> Parsed
    decreases tokens.len() - pos, 0nat, 0nat,
{
    let kind = kind_at(tokens, pos);
    if kind == TokenType::False {
        literal_at(pos, LiteralView::Boolean(false))
    } else if kind == TokenType::True {
        literal_at(pos, LiteralView::Boolean(true))
    } else if kind == TokenType::Nil {
        literal_at(pos, LiteralView::Empty)
    } else if kind == TokenType::Number || kind == TokenType::String {
        literal_at(pos, token_at(tokens, pos).literal)
    } else if kind == TokenType::LeftParen {
        let inner = parse_level(tokens, pos + 1, Level::Equality);
        match inner.result {
            Ok(expr) => if kind_at(tokens, inner.next) == TokenType::RightParen {
                Parsed {
                    result: Ok(ExprView::Grouping { inner: Box::new(expr) }),
                    next: inner.next + 1,
                }
            } else {
                error_at(tokens, inner.next, expected_paren_message())
            },
            Err(_) => inner,
        }
    } else {
        error_at(tokens, pos, expected_expression_message())
    }
}

/// `unary`: prefix operators, each applied to all that follows it, and then a
/// primary.
pub open spec fn parse_unary(tokens: Seq<TokenView>, pos: int) -> Parsed
    decreases tokens.len() - pos, 0nat, 1nat,
{
    if is_prefix(kind_at(tokens, pos)) {
        let operand = parse_unary(tokens, pos + 1);
        match operand.result {
            Ok(right) => Parsed {
                result: Ok(
                    ExprView::Unary { operator: token_at(tokens, pos), right: Box::new(right) },
                ),
                next: operand.next,
            },
            Err(_) => operand,
        }
    } else {
        parse_primary(tokens, pos)
    }
}

/// An operand of a level: the rule of the level below.
pub open spec fn parse_operand(tokens: Seq<TokenView>, pos: int, level: Level) -> Parsed
    decreases tokens.len() - pos, level.rank(), 0nat,
{
    match level {
        Level::Factor => parse_unary(tokens, pos),
        Level::Term => parse_level(tokens, pos, Level::Factor),
        Level::Comparison => parse_level(tokens, pos, Level::Term),
        Level::Equality => parse_level(tokens, pos, Level::Comparison),
    }
}

/// A binary level: one operand, then operators of the level with an operand
/// each, folded to the left.
pub open spec fn parse_level(tokens: Seq<TokenView>, pos: int, level: Level) -> Parsed
    decreases tokens.len() - pos, level.rank(), 2nat,
{
    let first = parse_operand(tokens, pos, level);
    match first.result {
        Ok(left) => if pos <= first.next <= tokens.len() {
            parse_rest(tokens, first.next, level, left)
        } else {
            first
        },
        Err(_) => first,
    }
}

/// What follows the operands folded into `left`: more operators and operands
/// of the level, or nothing. An operand always takes a token or more; the
/// tests for it are here for the sake of the definition alone.
pub open spec fn parse_rest(
    tokens: Seq<TokenView>,
    pos: int,
    level: Level,
    left: ExprView,
) -> Parsed
    decreases tokens.len() - pos, level.rank(), 1nat,
{
    if level.has_operator(kind_at(tokens, pos)) {
        let operand = parse_operand(tokens, pos + 1, level);
        match operand.result {
            Ok(right) => {
                let folded = ExprView::Binary {
                    left: Box::new(left),
                    operator: token_at(tokens, pos),
                    right: Box::new(right),
                };
                if pos < operand.next <= tokens.len() {
                    parse_rest(tokens, operand.next, level, folded)
                } else {
                    Parsed { result: Ok(folded), next: operand.next }
                }
            },
            Err(_) => operand,
        }
    } else {
        Parsed { result: Ok(left), next: pos }
    }
}

/// `expression`: the loosest level.
pub open spec fn parse_expression(tokens: Seq<TokenView>, pos: int) -> Parsed {
    parse_level(tokens, pos, Level::Equality)
}

/// Whether the sequence ends with an end-of-input token.
pub open spec fn terminated(tokens: Seq<TokenView>) -> bool {
    tokens.len() > 0 && tokens.last().kind == TokenType::EOF
}

/// Whether the rule, started at `pos`, stopped at a token at or behind
/// `pos`, and behind it where it built a tree.
pub open spec fn advances(tokens: Seq<TokenView>, pos: int, parsed: Parsed) -> bool {
    &&& pos <= parsed.next < tokens.len()
    &&& parsed.result is Ok ==> pos < parsed.next
}

/// In a sequence that ends with the end of input, `primary` never goes past
/// the end, and takes a token or more where it builds a tree.
pub proof fn lemma_primary_advances(tokens: Seq<TokenView>, pos: int)
    requires
        terminated(tokens),
        0 <= pos < tokens.len(),
    ensures
        advances(tokens, pos, parse_primary(tokens, pos)),
    decreases tokens.len() - pos, 0nat, 0nat,
{
    if kind_at(tokens, pos) == TokenType::LeftParen {
        lemma_level_advances(tokens, pos + 1, Level::Equality);
    }
}

/// The same of `unary`.
pub proof fn lemma_unary_advances(tokens: Seq<TokenView>, pos: int)
    requires
        terminated(tokens),
        0 <= pos < tokens.len(),
    ensures
        advances(tokens, pos, parse_unary(tokens, pos)),
    decreases tokens.len() - pos, 0nat, 1nat,
{
    if is_prefix(kind_at(tokens, pos)) {
        lemma_unary_advances(tokens, pos + 1);
    } else {
        lemma_primary_advances(tokens, pos);
    }
}

/// The same of an operand of a level.
pub proof fn lemma_operand_advances(tokens: Seq<TokenView>, pos: int, level: Level)
    requires
        terminated(tokens),
        0 <= pos < tokens.len(),
    ensures
        advances(tokens, pos, parse_operand(tokens, pos, level)),
    decreases tokens.len() - pos, level.rank(), 0nat,
{
    match level {
        Level::Factor => lemma_unary_advances(tokens, pos),
        Level::Term => lemma_level_advances(tokens, pos, Level::Factor),
        Level::Comparison => lemma_level_advances(tokens, pos, Level::Term),
        Level::Equality => lemma_level_advances(tokens, pos, Level::Comparison),
    }
}

/// The same of a binary level. So the tests in the definitions of the levels
/// never fail: a level is its first operand folded with all that follows.
pub proof fn lemma_level_advances(tokens: Seq<TokenView>, pos: int, level: Level)
    requires
        terminated(tokens),
        0 <= pos < tokens.len(),
    ensures
        advances(tokens, pos, parse_level(tokens, pos, level)),
        parse_operand(tokens, pos, level).result is Ok ==> parse_level(tokens, pos, level)
            == parse_rest(
            tokens,
            parse_operand(tokens, pos, level).next,
            level,
            parse_operand(tokens, pos, level).result->Ok_0,
        ),
    decreases tokens.len() - pos, level.rank(), 2nat,
{
    lemma_operand_advances(tokens, pos, level);
    let first = parse_operand(tokens, pos, level);
    if first.result is Ok {
        lemma_rest_advances(tokens, first.next, level, first.result->Ok_0);
    }
}

/// What follows an operand never goes past the end either, and each operator
/// with its operand is folded in.
pub proof fn lemma_rest_advances(tokens: Seq<TokenView>, pos: int, level: Level, left: ExprView)
    requires
        terminated(tokens),
        0 <= pos < tokens.len(),
    ensures
        pos <= parse_rest(tokens, pos, level, left).next < tokens.len(),
        level.has_operator(kind_at(tokens, pos)) && parse_operand(tokens, pos + 1, level).result
            is Ok ==> parse_rest(tokens, pos, level, left) == parse_rest(
            tokens,
            parse_operand(tokens, pos + 1, level).next,
            level,
            ExprView::Binary {
                left: Box::new(left),
                operator: tokens[pos],
                right: Box::new(parse_operand(tokens, pos + 1, level).result->Ok_0),
            },
        ),
    decreases tokens.len() - pos, level.rank(), 1nat,
{
    if level.has_operator(kind_at(tokens, pos)) {
        lemma_operand_advances(tokens, pos + 1, level);
        let operand = parse_operand(tokens, pos + 1, level);
        if operand.result is Ok {
            lemma_rest_advances(
                tokens,
                operand.next,
                level,
                ExprView::Binary {
                    left: Box::new(left),
                    operator: token_at(tokens, pos),
                    right: Box::new(operand.result->Ok_0),
                },
            );
        }
    }
}

/// Whether a token of this kind begins a statement.
pub open spec fn begins_statement(kind: TokenType) -> bool {
    kind == TokenType::Class || kind == TokenType::Fun || kind == TokenType::Var || kind
        == TokenType::For || kind == TokenType::If || kind == TokenType::While || kind
        == TokenType::Print || kind == TokenType::Return
}

/// The first position from `pos` on where a statement may begin: behind a
/// semicolon, at a token that begins a statement, or at the end of input.
pub open spec fn statement_boundary(tokens: Seq<TokenView>, pos: int) -> int
    decreases tokens.len() - pos,
{
    if kind_at(tokens, pos) == TokenType::EOF || kind_at(tokens, pos - 1) == TokenType::Semicolon
        || begins_statement(kind_at(tokens, pos)) {
        pos
    } else {
        statement_boundary(tokens, pos + 1)
    }
}

} // verus!
