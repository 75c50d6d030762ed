//! The evaluator: from an expression tree to a value or a runtime error.

use vstd::prelude::*;
use vstd::string::*;
use crate::error::{
    number_operands_message, number_or_string_operands_message, ErrorView, LoxiteError,
    RuntimeError,
};
use crate::expr::{BinaryExpr, Expr, ExprView};
use crate::number::{
    equal, less, less_equal, negate, negated, number_eq, number_le, number_lt, ArithOp,
};
use crate::token::{
    bool_text, bool_to_text, LiteralView, Token, TokenLiteral, TokenType, TokenView,
};

verus! {

/// A value at run time. A number is held as the bit pattern of its IEEE-754
/// binary64 value.
#[derive(Debug)]
pub enum Value {
    String(String),
    Number(u64),
    Boolean(bool),
    Nil,
}

/// The mathematical content of a [`Value`].
pub enum ValueView {
    Text(Seq<char>),
    Number(u64),
    Boolean(bool),
    Nil,
}

impl View for Value {
    type V = ValueView;

    open spec fn view(&self) -> ValueView {
        match self {
            Value::String(s) => ValueView::Text(s@),
            Value::Number(bits) => ValueView::Number(*bits),
            Value::Boolean(b) => ValueView::Boolean(*b),
            Value::Nil => ValueView::Nil,
        }
    }
}

/// Whether `text` is the value as the user reads it: a string as it is, a
/// number as `show` writes it, a truth value as `true` or `false`, and `nil`.
pub open spec fn value_shown<G: Fn(u64) -> String>(value: ValueView, show: G, text: String) -> bool {
    match value {
        ValueView::Text(s) => text@ == s,
        ValueView::Number(bits) => show.ensures((bits,), text),
        ValueView::Boolean(b) => text@ == bool_text(b),
        ValueView::Nil => text@ == "nil"@,
    }
}

impl Value {
    /// The value as the user reads it; a number is written by `show`.
    pub fn to_text<G: Fn(u64) -> String>(&self, show: &G) -> (text: String)
        requires
            forall|bits: u64| show.requires((bits,)),
        ensures
            value_shown(self@, *show, text),
    {
        match self {
            Value::Nil => String::from_str("nil"),
            Value::Boolean(val) => bool_to_text(*val),
            Value::Number(val) => show(*val),
            Value::String(val) => val.clone(),
        }
    }
}

/// What an operator makes of its operands before any arithmetic is done:
/// the outcome, or the arithmetic that gives it.
#[derive(Debug)]
pub enum Step {
    /// The outcome is known.
    Done(Result<Value, RuntimeError>),
    /// The outcome is the number that the operation gives on the two numbers.
    Compute(ArithOp, u64, u64),
}

/// The mathematical content of a [`Step`].
pub enum StepView {
    Done(Result<ValueView, ErrorView>),
    Compute(ArithOp, u64, u64),
}

impl View for Step {
    type V = StepView;

    open spec fn view(&self) -> StepView {
        match self {
            Step::Done(Ok(value)) => StepView::Done(Ok(value@)),
            Step::Done(Err(err)) => StepView::Done(Err(err@)),
            Step::Compute(op, left, right) => StepView::Compute(*op, *left, *right),
        }
    }
}

/// The mathematical content of an evaluation's result.
pub open spec fn outcome(result: Result<Value, LoxiteError>) -> Result<ValueView, ErrorView> {
    match result {
        Ok(value) => Ok(value@),
        Err(err) => Err(err@),
    }
}

/// The value of a literal; the absent literal is `nil`.
pub open spec fn literal_value(literal: LiteralView) -> ValueView {
    match literal {
        LiteralView::Text(s) => ValueView::Text(s),
        LiteralView::Number(bits) => ValueView::Number(bits),
        LiteralView::Boolean(b) => ValueView::Boolean(b),
        LiteralView::Empty => ValueView::Nil,
    }
}

/// Truthiness: `nil` and `false` are false, every other value is true.
pub open spec fn truthy(value: ValueView) -> bool {
    match value {
        ValueView::Boolean(b) => b,
        ValueView::Nil => false,
        _ => true,
    }
}

/// Equality of values: values of different kinds are never equal, values of
/// one kind are compared by what they hold, numbers as numbers.
pub open spec fn values_equal(left: ValueView, right: ValueView) -> bool {
    match (left, right) {
        (ValueView::Number(a), ValueView::Number(b)) => number_eq(a, b),
        (ValueView::Text(a), ValueView::Text(b)) => a == b,
        (ValueView::Boolean(a), ValueView::Boolean(b)) => a == b,
        (ValueView::Nil, ValueView::Nil) => true,
        _ => false,
    }
}

/// The message for an operator that the evaluator does not know.
pub open spec fn unknown_operator_message() -> Seq<char> {
    "I don't thing this will ever be called"@
}

/// The runtime error at `operator` with the message.
pub open spec fn failure(operator: TokenView, message: Seq<char>) -> Result<
    ValueView,
    ErrorView,
> {
    Err(ErrorView::Runtime { token: operator, message })
}

/// What a prefix operator gives. `-` negates a number and fails on anything
/// else; `!` gives the opposite of the operand's truthiness. An operator of
/// any other kind negates a number and gives the opposite of the truthiness
/// of any other value.
pub open spec fn unary_outcome(operator: TokenView, operand: ValueView) -> Result<
    ValueView,
    ErrorView,
> {
    match operator.kind {
        TokenType::Bang => Ok(ValueView::Boolean(!truthy(operand))),
        TokenType::Minus => match operand {
            ValueView::Number(bits) => Ok(ValueView::Number(negated(bits))),
            _ => failure(operator, number_operands_message()),
        },
        _ => match operand {
            ValueView::Number(bits) => Ok(ValueView::Number(negated(bits))),
            _ => Ok(ValueView::Boolean(!truthy(operand))),
        },
    }
}

/// The arithmetic operation of an operator, if it has one.
pub open spec fn arithmetic(kind: TokenType) -> Option<ArithOp> {
    match kind {
        TokenType::Plus => Some(ArithOp::Add),
        TokenType::Minus => Some(ArithOp::Subtract),
        TokenType::Star => Some(ArithOp::Multiply),
        TokenType::Slash => Some(ArithOp::Divide),
        _ => None,
    }
}

/// Whether the kind is that of a comparison operator.
pub open spec fn compares(kind: TokenType) -> bool {
    kind == TokenType::Greater || kind == TokenType::GreaterEqual || kind == TokenType::Less
        || kind == TokenType::LessEqual
}

/// What a comparison operator gives on two numbers.
pub open spec fn comparison(kind: TokenType, left: u64, right: u64) -> bool
    recommends
        compares(kind),
{
    match kind {
        TokenType::Greater => number_lt(right, left),
        TokenType::GreaterEqual => number_le(right, left),
        TokenType::Less => number_lt(left, right),
        _ => number_le(left, right),
    }
}

/// What an infix operator makes of its operands. Arithmetic and comparisons
/// take two numbers, `+` also two strings, which it joins; equality takes
/// anything. Arithmetic on two numbers is left to be computed.
pub open spec fn binary_step(operator: TokenView, left: ValueView, right: ValueView) -> StepView {
    let kind = operator.kind;
    if kind == TokenType::EqualEqual {
        StepView::Done(Ok(ValueView::Boolean(values_equal(left, right))))
    } else if kind == TokenType::BangEqual {
        StepView::Done(Ok(ValueView::Boolean(!values_equal(left, right))))
    } else if arithmetic(kind) is Some {
        match (left, right) {
            (ValueView::Number(a), ValueView::Number(b)) => StepView::Compute(
                arithmetic(kind)->0,
                a,
                b,
            ),
            (ValueView::Text(a), ValueView::Text(b)) => if kind == TokenType::Plus {
                StepView::Done(Ok(ValueView::Text(a + b)))
            } else {
                StepView::Done(failure(operator, number_operands_message()))
            },
            _ => if kind == TokenType::Plus {
                StepView::Done(failure(operator, number_or_string_operands_message()))
            } else {
                StepView::Done(failure(operator, number_operands_message()))
            },
        }
    } else if compares(kind) {
        match (left, right) {
            (ValueView::Number(a), ValueView::Number(b)) => StepView::Done(
                Ok(ValueView::Boolean(comparison(kind, a, b))),
            ),
            _ => StepView::Done(failure(operator, number_operands_message())),
        }
    } else {
        StepView::Done(failure(operator, unknown_operator_message()))
    }
}

/// Whether `out` is what the step comes to, the arithmetic being done by
/// `arith`.
pub open spec fn completes<F: Fn(ArithOp, u64, u64) -> u64>(
    step: StepView,
    arith: F,
    out: Result<ValueView, ErrorView>,
) -> bool {
    match step {
        StepView::Done(result) => out == result,
        StepView::Compute(op, left, right) => match out {
            Ok(ValueView::Number(bits)) => arith.ensures((op, left, right), bits),
            _ => false,
        },
    }
}

/// Whether `out` is what the operand's outcome and the prefix operator give:
/// the operand's error, or what the operator makes of its value.
pub open spec fn after_unary(
    operator: TokenView,
    operand: Result<ValueView, ErrorView>,
    out: Result<ValueView, ErrorView>,
) -> bool {
    match operand {
        Ok(value) => out == unary_outcome(operator, value),
        Err(err) => out == Err::<ValueView, ErrorView>(err),
    }
}

/// Whether `out` is what the operands' outcomes and the infix operator
/// give: the error of the left operand, else that of the right one, else
/// what the operator's step comes to. Where the left operand fails the right
/// one is not looked at.
pub open spec fn after_binary<F: Fn(ArithOp, u64, u64) -> u64>(
    operator: TokenView,
    first: Result<ValueView, ErrorView>,
    second: Result<ValueView, ErrorView>,
    arith: F,
    out: Result<ValueView, ErrorView>,
) -> bool {
    match first {
        Err(err) => out == Err::<ValueView, ErrorView>(err),
        Ok(a) => match second {
            Err(err) => out == Err::<ValueView, ErrorView>(err),
            Ok(b) => completes(binary_step(operator, a, b), arith, out),
        },
    }
}

/// Whether `out` is an outcome of evaluating the tree, the arithmetic being
/// done by `arith`: operands from left to right, the first error ending the
/// evaluation.
pub open spec fn evaluates<F: Fn(ArithOp, u64, u64) -> u64>(
    expr: ExprView,
    arith: F,
    out: Result<ValueView, ErrorView>,
) -> bool
    decreases expr,
{
    match expr {
        ExprView::Literal { value } => out == Ok::<ValueView, ErrorView>(literal_value(value)),
        ExprView::Grouping { inner } => evaluates(*inner, arith, out),
        ExprView::Unary { operator, right } => exists|operand: Result<ValueView, ErrorView>|
            evaluates(*right, arith, operand) && #[trigger] after_unary(operator, operand, out),
        ExprView::Binary { left, operator, right } => exists|
            first: Result<ValueView, ErrorView>,
            second: Result<ValueView, ErrorView>,
        |
            evaluates(*left, arith, first) && (first is Ok ==> evaluates(*right, arith, second))
                && #[trigger] after_binary(operator, first, second, arith, out),
    }
}

/// Whether `line` reports the outcome: a value as the user reads it, or the
/// diagnostic of an error.
pub open spec fn reports<G: Fn(u64) -> String>(
    out: Result<ValueView, ErrorView>,
    show: G,
    line: Result<String, String>,
) -> bool {
    match out {
        Ok(value) => line is Ok && value_shown(value, show, line->Ok_0),
        Err(err) => line is Err && line->Err_0@ == err.rendered(),
    }
}

/// The evaluator. It holds no state: every evaluation stands alone.
pub struct Interpreter {}

impl Interpreter {
    /// Tells whether a value counts as true.
    pub fn is_truthy(&self, value: &Value) -> (r: bool)
        ensures
            r == truthy(value@),
            r == !(value@ == ValueView::Nil || value@ == ValueView::Boolean(false)),
    {
        match value {
            Value::Boolean(val) => *val,
            Value::Nil => false,
            _ => true,
        }
    }

    /// Evaluates the tree and gives what is to be shown: the value as the
    /// user reads it, or the diagnostic of the runtime error.
    pub fn interpreter<F: Fn(ArithOp, u64, u64) -> u64, G: Fn(u64) -> String>(
        &self,
        expr: &Expr,
        arith: &F,
        show: &G,
    ) -> (line: Result<String, String>)
        requires
            forall|op: ArithOp, a: u64, b: u64| arith.requires((op, a, b)),
            forall|bits: u64| show.requires((bits,)),
        ensures
            exists|out: Result<ValueView, ErrorView>|
                evaluates(expr@, *arith, out) && #[trigger] reports(out, *show, line),
    {
        let evaluation = self.evaluate(expr, arith);
        let line = match &evaluation {
            Ok(value) => Ok(value.to_text(show)),
            Err(err) => Err(err.render()),
        };
        proof {
            assert(reports(outcome(evaluation), *show, line));
        }
        line
    }

    /// Evaluates the tree: a value, or the first runtime error. The
    /// arithmetic on numbers is done by `arith`.
    pub fn evaluate<F: Fn(ArithOp, u64, u64) -> u64>(&self, expr: &Expr, arith: &F) -> (result:
        Result<Value, LoxiteError>)
        requires
            forall|op: ArithOp, a: u64, b: u64| arith.requires((op, a, b)),
        ensures
            evaluates(expr@, *arith, outcome(result)),
        decreases expr,
    {
        match expr {
            Expr::Literal(literal_expr) => match &literal_expr.value {
                TokenLiteral::Number(number) => Ok(Value::Number(*number)),
                TokenLiteral::String(string) => Ok(Value::String(string.clone())),
                TokenLiteral::Boolean(boolean) => Ok(Value::Boolean(*boolean)),
                TokenLiteral::Empty => Ok(Value::Nil),
            },
            Expr::Grouping(grouping_expr) => self.evaluate(&grouping_expr.expression, arith),
            Expr::Unary(unary_expr) => {
                let operand = self.evaluate(&unary_expr.right, arith);
                let ghost seen = outcome(operand);
                let result = match operand {
                    Ok(right) => match self.apply_unary(&unary_expr.operator, right) {
                        Ok(value) => Ok(value),
                        Err(err) => Err(LoxiteError::Runtime(err)),
                    },
                    Err(err) => Err(err),
                };
                proof {
                    assert(after_unary(unary_expr.operator@, seen, outcome(result)));
                }
                result
            },
            Expr::Binary(binary_expr) => self.evaluate_binary(binary_expr, arith),
        }
    }

    /// Evaluates an infix operator with its operands, the left one first.
    pub fn evaluate_binary<F: Fn(ArithOp, u64, u64) -> u64>(
        &self,
        binary_expr: &BinaryExpr,
        arith: &F,
    ) -> (result: Result<Value, LoxiteError>)
        requires
            forall|op: ArithOp, a: u64, b: u64| arith.requires((op, a, b)),
        ensures
            evaluates(
                ExprView::Binary {
                    left: Box::new(binary_expr.left@),
                    operator: binary_expr.operator@,
                    right: Box::new(binary_expr.right@),
                },
                *arith,
                outcome(result),
            ),
        decreases binary_expr,
    {
        let first = self.evaluate(&binary_expr.left, arith);
        let ghost first_seen = outcome(first);
        let left = match first {
            Ok(left) => left,
            Err(err) => {
                proof {
                    assert(after_binary(
                        binary_expr.operator@,
                        first_seen,
                        first_seen,
                        *arith,
                        first_seen,
                    ));
                }
                return Err(err);
            },
        };
        let second = self.evaluate(&binary_expr.right, arith);
        let ghost second_seen = outcome(second);
        let right = match second {
            Ok(right) => right,
            Err(err) => {
                proof {
                    assert(after_binary(
                        binary_expr.operator@,
                        first_seen,
                        second_seen,
                        *arith,
                        second_seen,
                    ));
                }
                return Err(err);
            },
        };
        let token = &binary_expr.operator;
        let result = self.complete(self.apply_binary(token, left, right), arith);
        proof {
            assert(after_binary(
                binary_expr.operator@,
                first_seen,
                second_seen,
                *arith,
                outcome(result),
            ));
        }
        result
    }

    /// What a prefix operator gives on a value.
    pub fn apply_unary(&self, operator: &Token, operand: Value) -> (result: Result<
        Value,
        RuntimeError,
    >)
        ensures
            match result {
                Ok(value) => unary_outcome(operator@, operand@) == Ok::<ValueView, ErrorView>(
                    value@,
                ),
                Err(err) => unary_outcome(operator@, operand@) == Err::<ValueView, ErrorView>(
                    err@,
                ),
            },
    {
        match operator.token_type {
            TokenType::Bang => Ok(Value::Boolean(!self.is_truthy(&operand))),
            TokenType::Minus => match operand {
                Value::Number(value) => Ok(Value::Number(negate(value))),
                _ => Err(RuntimeError::number_operands(operator)),
            },
            _ => match operand {
                Value::Number(value) => Ok(Value::Number(negate(value))),
                value => Ok(Value::Boolean(!self.is_truthy(&value))),
            },
        }
    }

    /// What an infix operator makes of two values: the outcome, or the
    /// arithmetic on two numbers that gives it.
    pub fn apply_binary(&self, operator: &Token, left: Value, right: Value) -> (step: Step)
        ensures
            step@ == binary_step(operator@, left@, right@),
    {
        match operator.token_type {
            TokenType::Minus => match (left, right) {
                (Value::Number(val_1), Value::Number(val_2)) => Step::Compute(
                    ArithOp::Subtract,
                    val_1,
                    val_2,
                ),
                _ => Step::Done(Err(RuntimeError::number_operands(operator))),
            },
            TokenType::Slash => match (left, right) {
                (Value::Number(val_1), Value::Number(val_2)) => Step::Compute(
                    ArithOp::Divide,
                    val_1,
                    val_2,
                ),
                _ => Step::Done(Err(RuntimeError::number_operands(operator))),
            },
            TokenType::Star => match (left, right) {
                (Value::Number(val_1), Value::Number(val_2)) => Step::Compute(
                    ArithOp::Multiply,
                    val_1,
                    val_2,
                ),
                _ => Step::Done(Err(RuntimeError::number_operands(operator))),
            },
            TokenType::Plus => match (left, right) {
                (Value::Number(val_1), Value::Number(val_2)) => Step::Compute(
                    ArithOp::Add,
                    val_1,
                    val_2,
                ),
                (Value::String(str_1), Value::String(str_2)) => Step::Done(
                    Ok(Value::String(str_1.concat(str_2.as_str()))),
                ),
                _ => Step::Done(Err(RuntimeError::number_or_string_operands(operator))),
            },
            TokenType::Greater => match (left, right) {
                (Value::Number(val_1), Value::Number(val_2)) => Step::Done(
                    Ok(Value::Boolean(less(val_2, val_1))),
                ),
                _ => Step::Done(Err(RuntimeError::number_operands(operator))),
            },
            TokenType::GreaterEqual => match (left, right) {
                (Value::Number(val_1), Value::Number(val_2)) => Step::Done(
                    Ok(Value::Boolean(less_equal(val_2, val_1))),
                ),
                _ => Step::Done(Err(RuntimeError::number_operands(operator))),
            },
            TokenType::Less => match (left, right) {
                (Value::Number(val_1), Value::Number(val_2)) => Step::Done(
                    Ok(Value::Boolean(less(val_1, val_2))),
                ),
                _ => Step::Done(Err(RuntimeError::number_operands(operator))),
            },
            TokenType::LessEqual => match (left, right) {
                (Value::Number(val_1), Value::Number(val_2)) => Step::Done(
                    Ok(Value::Boolean(less_equal(val_1, val_2))),
                ),
                _ => Step::Done(Err(RuntimeError::number_operands(operator))),
            },
            TokenType::BangEqual => Step::Done(Ok(Value::Boolean(!self.is_equal(&left, &right)))),
            TokenType::EqualEqual => Step::Done(Ok(Value::Boolean(self.is_equal(&left, &right)))),
            _ => Step::Done(
                Err(RuntimeError::error(operator, "I don't thing this will ever be called")),
            ),
        }
    }

    /// Brings a step to its outcome: has `arith` do the arithmetic that is
    /// left, if any.
    pub fn complete<F: Fn(ArithOp, u64, u64) -> u64>(&self, step: Step, arith: &F) -> (result:
        Result<Value, LoxiteError>)
        requires
            forall|op: ArithOp, a: u64, b: u64| arith.requires((op, a, b)),
        ensures
            completes(step@, *arith, outcome(result)),
    {
        match step {
            Step::Done(Ok(value)) => Ok(value),
            Step::Done(Err(err)) => Err(LoxiteError::Runtime(err)),
            Step::Compute(op, left, right) => Ok(Value::Number(arith(op, left, right))),
        }
    }

    /// Tells whether two values are equal.
    pub fn is_equal(&self, value_1: &Value, value_2: &Value) -> (r: bool)
        ensures
            r == values_equal(value_1@, value_2@),
    {
        match (value_1, value_2) {
            (Value::Number(num_1), Value::Number(num_2)) => equal(*num_1, *num_2),
            (Value::String(str_1), Value::String(str_2)) => *str_1 == *str_2,
            (Value::Boolean(bool_1), Value::Boolean(bool_2)) => *bool_1 == *bool_2,
            (Value::Nil, Value::Nil) => true,
            _ => false,
        }
    }
}

/// Only `nil` and `false` are false: every number, zero too, and every
/// string, the empty one too, is true.
pub proof fn lemma_truthiness(value: ValueView)
    ensures
        !truthy(value) <==> value == ValueView::Nil || value == ValueView::Boolean(false),
        value is Number ==> truthy(value),
        value is Text ==> truthy(value),
{
}

/// Equality is defined on every pair of values and is symmetric. Values of
/// different kinds are never equal. A value equals itself, but for a number
/// that is a NaN.
pub proof fn lemma_equality(left: ValueView, right: ValueView)
    ensures
        values_equal(left, right) == values_equal(right, left),
        values_equal(left, right) ==> (left is Text <==> right is Text),
        values_equal(left, right) ==> (left is Number <==> right is Number),
        values_equal(left, right) ==> (left is Boolean <==> right is Boolean),
        values_equal(left, right) ==> (left is Nil <==> right is Nil),
        values_equal(left, left) <==> !(left is Number && crate::number::is_nan(left->Number_0)),
        values_equal(ValueView::Nil, ValueView::Nil),
{
}

/// Equality operators never fail, whatever the operands are.
pub proof fn lemma_equality_never_fails(operator: TokenView, left: ValueView, right: ValueView)
    requires
        operator.kind == TokenType::EqualEqual || operator.kind == TokenType::BangEqual,
    ensures
        binary_step(operator, left, right) == StepView::Done(
            Ok(
                ValueView::Boolean(
                    values_equal(left, right) == (operator.kind == TokenType::EqualEqual),
                ),
            ),
        ),
{
}

/// Whether `arith` gives one result at most for each operation and operands.
pub open spec fn single_valued<F: Fn(ArithOp, u64, u64) -> u64>(arith: F) -> bool {
    forall|op: ArithOp, a: u64, b: u64, r1: u64, r2: u64|
        #[trigger] arith.ensures((op, a, b), r1) && #[trigger] arith.ensures((op, a, b), r2) ==> r1
            == r2
}

/// With arithmetic that gives one result at most, a tree has one outcome at
/// most.
pub proof fn lemma_one_outcome<F: Fn(ArithOp, u64, u64) -> u64>(
    expr: ExprView,
    arith: F,
    out1: Result<ValueView, ErrorView>,
    out2: Result<ValueView, ErrorView>,
)
    requires
        single_valued(arith),
        evaluates(expr, arith, out1),
        evaluates(expr, arith, out2),
    ensures
        out1 == out2,
    decreases expr,
{
    match expr {
        ExprView::Literal { value } => {},
        ExprView::Grouping { inner } => {
            lemma_one_outcome(*inner, arith, out1, out2);
        },
        ExprView::Unary { operator, right } => {
            let operand1 = choose|operand: Result<ValueView, ErrorView>|
                evaluates(*right, arith, operand) && #[trigger] after_unary(operator, operand, out1);
            let operand2 = choose|operand: Result<ValueView, ErrorView>|
                evaluates(*right, arith, operand) && #[trigger] after_unary(operator, operand, out2);
            lemma_one_outcome(*right, arith, operand1, operand2);
        },
        ExprView::Binary { left, operator, right } => {
            let (first1, second1) = choose|
                first: Result<ValueView, ErrorView>,
                second: Result<ValueView, ErrorView>,
            |
                evaluates(*left, arith, first) && (first is Ok ==> evaluates(
                    *right,
                    arith,
                    second,
                )) && #[trigger] after_binary(operator, first, second, arith, out1);
            let (first2, second2) = choose|
                first: Result<ValueView, ErrorView>,
                second: Result<ValueView, ErrorView>,
            |
                evaluates(*left, arith, first) && (first is Ok ==> evaluates(
                    *right,
                    arith,
                    second,
                )) && #[trigger] after_binary(operator, first, second, arith, out2);
            lemma_one_outcome(*left, arith, first1, first2);
            if first1 is Ok {
                lemma_one_outcome(*right, arith, second1, second2);
            }
        },
    }
}

} // verus!
