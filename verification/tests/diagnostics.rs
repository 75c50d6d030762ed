use loxite::error::{LexerError, LoxiteError, ParserError, RuntimeError};
use loxite::pipeline::{Loxite, SYNTAX_ERROR_CODE};
use loxite::number::ArithOp;
use loxite::token::{Token, TokenLiteral, TokenType};

fn to_number(text: String) -> u64 {
    text.parse::<f64>().unwrap().to_bits()
}

fn arith(op: ArithOp, left: u64, right: u64) -> u64 {
    let (a, b) = (f64::from_bits(left), f64::from_bits(right));
    let result = match op {
        ArithOp::Add => a + b,
        ArithOp::Subtract => a - b,
        ArithOp::Multiply => a * b,
        ArithOp::Divide => a / b,
    };
    result.to_bits()
}

fn show(bits: u64) -> String {
    format!("{}", f64::from_bits(bits))
}

fn token(token_type: TokenType, lexeme: &str, line: usize) -> Token {
    Token { token_type, lexeme: lexeme.to_string(), literal: TokenLiteral::Empty, line }
}

#[test]
fn lexer_error_text() {
    let err = LoxiteError::Lexer(LexerError::new(12, "Unexpected character."));
    assert_eq!(err.render(), "[line 12] Error: Unexpected character.");
    assert_eq!(err.description(), "an error during lexical phase");
    assert_eq!(LexerError::new(0, "m").render(), "[line 0] Error: m");
}

#[test]
fn parser_error_text() {
    let err = ParserError::new(&token(TokenType::Plus, "+", 3), "Expected expression.");
    assert_eq!(err.render(), "[line 3] Error at '+': Expected expression.");
    let err = LoxiteError::Parser(ParserError::new(&token(TokenType::EOF, "", 100), "Expected expression."));
    assert_eq!(err.render(), "[line 100] Error at end: Expected expression.");
    assert_eq!(err.description(), "an error during parser phase");
}

#[test]
fn runtime_error_text() {
    let minus = token(TokenType::Minus, "-", 7);
    let err = RuntimeError::number_operands(&minus);
    assert_eq!(err.message, "Operands must be numbers.");
    assert_eq!(err.token.lexeme, "-");
    assert_eq!(err.token.line, 7);
    assert_eq!(err.render(), "[line 7]: Operands must be numbers.");
    let err = RuntimeError::number_or_string_operands(&minus);
    assert_eq!(err.render(), "[line 7]: Operands must be two integers or two strings.");
    let err = LoxiteError::Runtime(RuntimeError::error(&minus, "custom"));
    assert_eq!(err.render(), "[line 7]: custom");
    assert_eq!(err.description(), "an error during runtime");
}

#[test]
fn run_shows_tree_and_value() {
    let report = Loxite::new().run(&"-123 * (45.67)".to_string(), &to_number, &arith, &show);
    assert_eq!(report.exit_code, None);
    assert_eq!(
        report.output,
        vec!["AST: (* (- 123) (group 45.67))".to_string(), format!("{}", -123.0 * 45.67)]
    );
    assert!(report.diagnostics.is_empty());
}

#[test]
fn run_stops_at_scanner_diagnostics() {
    let report = Loxite::new().run(&"1 + @\n\"open".to_string(), &to_number, &arith, &show);
    assert_eq!(report.exit_code, Some(65));
    assert_eq!(SYNTAX_ERROR_CODE, 65);
    assert!(report.output.is_empty());
    assert_eq!(
        report.diagnostics,
        vec![
            "[line 1] Error: Unexpected character.".to_string(),
            "[line 2] Error: Unterminated string".to_string(),
        ]
    );
}

#[test]
fn run_stops_at_the_parser_diagnostic() {
    let report = Loxite::new().run(&"(1 + 2".to_string(), &to_number, &arith, &show);
    assert_eq!(report.exit_code, Some(65));
    assert!(report.output.is_empty());
    assert_eq!(
        report.diagnostics,
        vec!["[line 1] Error at end: Expected ')' after expression".to_string()]
    );
}

#[test]
fn run_reports_a_runtime_error() {
    let report = Loxite::new().run(&"1 + \"a\"".to_string(), &to_number, &arith, &show);
    assert_eq!(report.exit_code, None);
    assert_eq!(report.output, vec!["AST: (+ 1 a)".to_string()]);
    assert_eq!(
        report.diagnostics,
        vec!["[line 1]: Operands must be two integers or two strings.".to_string()]
    );
}

#[test]
fn runs_do_not_depend_on_each_other() {
    let loxite = Loxite::new();
    let first = loxite.run(&"@".to_string(), &to_number, &arith, &show);
    assert_eq!(first.exit_code, Some(65));
    let second = loxite.run(&"1 / 0".to_string(), &to_number, &arith, &show);
    assert_eq!(second.exit_code, None);
    assert_eq!(second.output, vec!["AST: (/ 1 0)".to_string(), "inf".to_string()]);
}
