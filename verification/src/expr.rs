//! The expression tree that the parser builds and the evaluator walks.

use vstd::prelude::*;
use crate::token::{LiteralView, Token, TokenLiteral, TokenView};

verus! {

/// An expression. Every node owns its children: the tree is strict.
#[derive(Debug)]
pub enum Expr {
    Unary(Box<UnaryExpr>),
    Binary(Box<BinaryExpr>),
    Grouping(Box<GroupingExpr>),
    Literal(LiteralExpr),
}

/// A prefix operator and its operand.
#[derive(Debug)]
pub struct UnaryExpr {
    pub operator: Token,
    pub right: Expr,
}

/// An infix operator and its two operands.
#[derive(Debug)]
pub struct BinaryExpr {
    pub left: Expr,
    pub operator: Token,
    pub right: Expr,
}

/// An expression in parentheses.
#[derive(Debug)]
pub struct GroupingExpr {
    pub expression: Expr,
}

/// A literal value.
#[derive(Debug)]
pub struct LiteralExpr {
    pub value: TokenLiteral,
}

/// The mathematical content of an [`Expr`].
pub enum ExprView {
    Unary { operator: TokenView, right: Box<ExprView> },
    Binary { left: Box<ExprView>, operator: TokenView, right: Box<ExprView> },
    Grouping { inner: Box<ExprView> },
    Literal { value: LiteralView },
}

impl View for Expr {
    type V = ExprView;

    open spec fn view(&self) -> ExprView
        decreases self,
    {
        match self {
            Expr::Unary(unary) => ExprView::Unary {
                operator: unary.operator@,
                right: Box::new(unary.right@),
            },
            Expr::Binary(binary) => ExprView::Binary {
                left: Box::new(binary.left@),
                operator: binary.operator@,
                right: Box::new(binary.right@),
            },
            Expr::Grouping(grouping) => ExprView::Grouping {
                inner: Box::new(grouping.expression@),
            },
            Expr::Literal(literal) => ExprView::Literal { value: literal.value@ },
        }
    }
}

impl ExprView {
    /// The number of nodes of the tree.
    pub open spec fn size(self) -> nat
        decreases self,
    {
        match self {
            ExprView::Unary { right, .. } => 1 + right.size(),
            ExprView::Binary { left, right, .. } => 1 + left.size() + right.size(),
            ExprView::Grouping { inner } => 1 + inner.size(),
            ExprView::Literal { .. } => 1,
        }
    }
}

} // verus!
