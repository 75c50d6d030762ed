use loxite::error::{LoxiteError, RuntimeError};
use loxite::expr::{BinaryExpr, Expr, LiteralExpr, UnaryExpr};
use loxite::interpreter::{Interpreter, Step, Value};
use loxite::lexer::scan;
use loxite::number::ArithOp;
use loxite::parser::Parser;
use loxite::token::{Token, TokenLiteral, TokenType};

fn to_number(text: String) -> u64 {
    text.parse::<f64>().unwrap().to_bits()
}

fn arith(op: ArithOp, left: u64, right: u64) -> u64 {
    let (a, b) = (f64::from_bits(left), f64::from_bits(right));
    let result = match op {
        ArithOp::Add => a + b,
        ArithOp::Subtract => a - b,
        ArithOp::Multiply => a * b,
        ArithOp::Divide => a / b,
    };
    result.to_bits()
}

fn show(bits: u64) -> String {
    format!("{}", f64::from_bits(bits))
}

fn evaluate(text: &str) -> Result<Value, LoxiteError> {
    let (tokens, errors) = scan(&text.to_string(), &to_number);
    assert!(errors.is_empty());
    let expr = match Parser::new(tokens).parser() {
        Ok(expr) => expr,
        Err(err) => panic!("{}", err.render()),
    };
    Interpreter {}.evaluate(&expr, &arith)
}

fn number(text: &str) -> f64 {
    match evaluate(text) {
        Ok(Value::Number(bits)) => f64::from_bits(bits),
        other => panic!("no number: {:?}", other),
    }
}

fn truth(text: &str) -> bool {
    match evaluate(text) {
        Ok(Value::Boolean(b)) => b,
        other => panic!("no truth value: {:?}", other),
    }
}

fn failure(text: &str) -> String {
    match evaluate(text) {
        Err(err) => err.render(),
        other => panic!("no error: {:?}", other),
    }
}

fn token(token_type: TokenType, lexeme: &str) -> Token {
    Token { token_type, lexeme: lexeme.to_string(), literal: TokenLiteral::Empty, line: 3 }
}

#[test]
fn sum_of_numbers() {
    assert_eq!(number("1 + 2"), 3.0);
}

#[test]
fn sum_of_strings_joins_them() {
    match evaluate("\"a\" + \"b\"") {
        Ok(Value::String(s)) => assert_eq!(s, "ab"),
        other => panic!("{:?}", other),
    }
}

#[test]
fn sum_of_number_and_string_fails() {
    assert_eq!(
        failure("1 + \"a\""),
        "[line 1]: Operands must be two integers or two strings."
    );
    match evaluate("1 + \"a\"") {
        Err(LoxiteError::Runtime(err)) => {
            assert_eq!(err.message, "Operands must be two integers or two strings.");
            assert_eq!(err.token.token_type, TokenType::Plus);
        }
        other => panic!("{:?}", other),
    }
    assert_eq!(
        failure("nil + nil"),
        "[line 1]: Operands must be two integers or two strings."
    );
}

#[test]
fn subtraction_folds_to_the_left() {
    assert_eq!(number("8 - 4 - 2"), 2.0);
}

#[test]
fn division_by_zero_is_infinite() {
    assert_eq!(number("1 / 0"), f64::INFINITY);
    assert_eq!(number("-1 / 0"), f64::NEG_INFINITY);
    assert!(number("0 / 0").is_nan());
}

#[test]
fn arithmetic() {
    assert_eq!(number("2 * 3 + 4"), 10.0);
    assert_eq!(number("2 * (3 + 4)"), 14.0);
    assert_eq!(number("7 / 2"), 3.5);
    assert_eq!(number("-(1.5 - 2)"), 0.5);
    assert_eq!(number("--3"), 3.0);
    assert_eq!(number("0.1 + 0.2"), 0.1 + 0.2);
}

#[test]
fn arithmetic_takes_numbers_only() {
    assert_eq!(failure("1 - \"a\""), "[line 1]: Operands must be numbers.");
    assert_eq!(failure("\"a\" * 2"), "[line 1]: Operands must be numbers.");
    assert_eq!(failure("\"a\" / \"b\""), "[line 1]: Operands must be numbers.");
    assert_eq!(failure("\"a\" - \"b\""), "[line 1]: Operands must be numbers.");
    assert_eq!(failure("true * nil"), "[line 1]: Operands must be numbers.");
    assert_eq!(failure("-\"a\""), "[line 1]: Operands must be numbers.");
    assert_eq!(failure("-nil"), "[line 1]: Operands must be numbers.");
    assert_eq!(failure("\n\n-true"), "[line 3]: Operands must be numbers.");
}

#[test]
fn comparisons() {
    assert!(truth("1 < 2"));
    assert!(!truth("2 < 2"));
    assert!(truth("2 <= 2"));
    assert!(truth("3 > 2"));
    assert!(!truth("2 > 2"));
    assert!(truth("2 >= 2"));
    assert!(!truth("1 >= 2"));
    assert!(!truth("0 / 0 <= 0 / 0"));
    assert!(truth("-1 < 0"));
    assert_eq!(failure("1 < \"a\""), "[line 1]: Operands must be numbers.");
    assert_eq!(failure("\"a\" >= \"b\""), "[line 1]: Operands must be numbers.");
    assert_eq!(failure("nil > 1"), "[line 1]: Operands must be numbers.");
    assert_eq!(failure("true <= false"), "[line 1]: Operands must be numbers.");
}

#[test]
fn equality_never_fails() {
    assert!(truth("nil == nil"));
    assert!(!truth("0 == false"));
    assert!(truth("\"x\" == \"x\""));
    assert!(!truth("\"x\" == \"y\""));
    assert!(truth("1 == 1"));
    assert!(!truth("1 == 2"));
    assert!(truth("1 != 2"));
    assert!(!truth("nil != nil"));
    assert!(truth("nil != false"));
    assert!(truth("\"1\" != 1"));
    assert!(truth("true == true"));
    assert!(!truth("true == false"));
    assert!(!truth("0 / 0 == 0 / 0"));
    assert!(truth("0 == -0"));
}

#[test]
fn is_equal_on_values() {
    let interpreter = Interpreter {};
    assert!(interpreter.is_equal(&Value::Nil, &Value::Nil));
    assert!(!interpreter.is_equal(&Value::Number(0f64.to_bits()), &Value::Boolean(false)));
    assert!(interpreter.is_equal(&Value::String("x".to_string()), &Value::String("x".to_string())));
    assert!(!interpreter.is_equal(&Value::String(String::new()), &Value::Nil));
    assert!(interpreter.is_equal(&Value::Number(2.5f64.to_bits()), &Value::Number(2.5f64.to_bits())));
}

#[test]
fn only_nil_and_false_are_falsy() {
    let interpreter = Interpreter {};
    assert!(interpreter.is_truthy(&Value::Number(0f64.to_bits())));
    assert!(interpreter.is_truthy(&Value::String(String::new())));
    assert!(interpreter.is_truthy(&Value::Boolean(true)));
    assert!(interpreter.is_truthy(&Value::Number(f64::NAN.to_bits())));
    assert!(!interpreter.is_truthy(&Value::Nil));
    assert!(!interpreter.is_truthy(&Value::Boolean(false)));
}

#[test]
fn bang_negates_truthiness() {
    assert!(truth("!nil"));
    assert!(truth("!false"));
    assert!(!truth("!true"));
    assert!(!truth("!0"));
    assert!(!truth("!\"\""));
    assert!(truth("!!1"));
}

#[test]
fn literals_and_groups() {
    assert!(matches!(evaluate("nil"), Ok(Value::Nil)));
    assert!(matches!(evaluate("(true)"), Ok(Value::Boolean(true))));
    assert_eq!(number("((4.25))"), 4.25);
    match evaluate("\"s\"") {
        Ok(Value::String(s)) => assert_eq!(s, "s"),
        other => panic!("{:?}", other),
    }
}

#[test]
fn left_operand_fails_first() {
    match evaluate("(-\"a\") + (1 < nil)") {
        Err(LoxiteError::Runtime(err)) => assert_eq!(err.token.token_type, TokenType::Minus),
        other => panic!("{:?}", other),
    }
    match evaluate("1 + (2 < nil)") {
        Err(LoxiteError::Runtime(err)) => assert_eq!(err.token.token_type, TokenType::Less),
        other => panic!("{:?}", other),
    }
}

#[test]
fn unknown_infix_operator_fails() {
    let expr = Expr::Binary(Box::new(BinaryExpr {
        left: Expr::Literal(LiteralExpr { value: TokenLiteral::Number(1f64.to_bits()) }),
        operator: token(TokenType::Comma, ","),
        right: Expr::Literal(LiteralExpr { value: TokenLiteral::Number(2f64.to_bits()) }),
    }));
    match (Interpreter {}).evaluate(&expr, &arith) {
        Err(err) => assert_eq!(err.render(), "[line 3]: I don't thing this will ever be called"),
        other => panic!("{:?}", other),
    }
}

#[test]
fn other_prefix_operators() {
    let interpreter = Interpreter {};
    let plus = token(TokenType::Plus, "+");
    match interpreter.apply_unary(&plus, Value::Number(2f64.to_bits())) {
        Ok(Value::Number(bits)) => assert_eq!(f64::from_bits(bits), -2.0),
        other => panic!("{:?}", other),
    }
    assert!(matches!(interpreter.apply_unary(&plus, Value::Nil), Ok(Value::Boolean(true))));
    let expr = Expr::Unary(Box::new(UnaryExpr {
        operator: token(TokenType::Bang, "!"),
        right: Expr::Literal(LiteralExpr { value: TokenLiteral::Number(2f64.to_bits()) }),
    }));
    assert!(matches!(interpreter.evaluate(&expr, &arith), Ok(Value::Boolean(false))));
}

#[test]
fn steps_leave_arithmetic_to_be_done() {
    let interpreter = Interpreter {};
    let two = || Value::Number(2f64.to_bits());
    let three = || Value::Number(3f64.to_bits());
    let step = interpreter.apply_binary(&token(TokenType::Star, "*"), two(), three());
    assert!(matches!(step, Step::Compute(ArithOp::Multiply, a, b)
        if a == 2f64.to_bits() && b == 3f64.to_bits()));
    let step = interpreter.apply_binary(&token(TokenType::Plus, "+"), two(), three());
    assert!(matches!(step, Step::Compute(ArithOp::Add, _, _)));
    let step = interpreter.apply_binary(&token(TokenType::Minus, "-"), two(), three());
    assert!(matches!(step, Step::Compute(ArithOp::Subtract, _, _)));
    let step = interpreter.apply_binary(&token(TokenType::Slash, "/"), two(), three());
    assert!(matches!(step, Step::Compute(ArithOp::Divide, _, _)));
    let step = interpreter.apply_binary(&token(TokenType::Less, "<"), two(), three());
    assert!(matches!(step, Step::Done(Ok(Value::Boolean(true)))));
    let step = interpreter.apply_binary(&token(TokenType::Greater, ">"), two(), Value::Nil);
    match step {
        Step::Done(Err(err)) => {
            assert_eq!(err.message, "Operands must be numbers.");
            assert_eq!(err.token.line, 3);
            assert_eq!(err.token.lexeme, ">");
        }
        other => panic!("{:?}", other),
    }
    let done = interpreter.complete(Step::Compute(ArithOp::Divide, 7f64.to_bits(), 2f64.to_bits()), &arith);
    assert!(matches!(done, Ok(Value::Number(bits)) if bits == 3.5f64.to_bits()));
    let done = interpreter.complete(Step::Done(Ok(Value::Nil)), &arith);
    assert!(matches!(done, Ok(Value::Nil)));
    let error = RuntimeError::error(&token(TokenType::Dot, "."), "no");
    let done = interpreter.complete(Step::Done(Err(error)), &arith);
    assert!(matches!(done, Err(LoxiteError::Runtime(_))));
}

#[test]
fn values_as_text() {
    assert_eq!(Value::Nil.to_text(&show), "nil");
    assert_eq!(Value::Boolean(true).to_text(&show), "true");
    assert_eq!(Value::Boolean(false).to_text(&show), "false");
    assert_eq!(Value::Number(3f64.to_bits()).to_text(&show), "3");
    assert_eq!(Value::Number(f64::INFINITY.to_bits()).to_text(&show), "inf");
    assert_eq!(Value::String("a\"b".to_string()).to_text(&show), "a\"b");
}

#[test]
fn interpreter_gives_the_line_to_show() {
    let interpreter = Interpreter {};
    let (tokens, _) = scan(&"1 + 2".to_string(), &to_number);
    let expr = Parser::new(tokens).parser().ok().unwrap();
    assert_eq!(interpreter.interpreter(&expr, &arith, &show), Ok("3".to_string()));
    let (tokens, _) = scan(&"\n1 + nil".to_string(), &to_number);
    let expr = Parser::new(tokens).parser().ok().unwrap();
    assert_eq!(
        interpreter.interpreter(&expr, &arith, &show),
        Err("[line 2]: Operands must be two integers or two strings.".to_string())
    );
}
