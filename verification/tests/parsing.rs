use loxite::ast_printer::AstPrinter;
use loxite::error::LoxiteError;
use loxite::expr::Expr;
use loxite::lexer::scan;
use loxite::parser::Parser;
use loxite::token::{Token, TokenLiteral, TokenType};

fn to_number(text: String) -> u64 {
    text.parse::<f64>().unwrap().to_bits()
}

fn show(bits: u64) -> String {
    format!("{}", f64::from_bits(bits))
}

fn parse(text: &str) -> Result<Expr, LoxiteError> {
    let (tokens, errors) = scan(&text.to_string(), &to_number);
    assert!(errors.is_empty());
    Parser::new(tokens).parser()
}

fn printed(text: &str) -> String {
    match parse(text) {
        Ok(expr) => AstPrinter.get_expr_as_str(&expr, &show),
        Err(err) => panic!("{}", err.render()),
    }
}

fn failure(text: &str) -> String {
    match parse(text) {
        Ok(_) => panic!("parsed"),
        Err(err) => err.render(),
    }
}

#[test]
fn parsed_tree_prints_in_prefix_form() {
    assert_eq!(printed("-123 * (45.67)"), "(* (- 123) (group 45.67))");
}

#[test]
fn binary_operators_fold_to_the_left() {
    assert_eq!(printed("8 - 4 - 2"), "(- (- 8 4) 2)");
    assert_eq!(printed("8 / 4 / 2"), "(/ (/ 8 4) 2)");
    assert_eq!(printed("1 + 2 - 3 + 4"), "(+ (- (+ 1 2) 3) 4)");
    assert_eq!(printed("1 < 2 <= 3 > 4 >= 5"), "(>= (> (<= (< 1 2) 3) 4) 5)");
    assert_eq!(printed("1 == 2 != 3"), "(!= (== 1 2) 3)");
}

#[test]
fn levels_bind_in_order() {
    assert_eq!(printed("1 + 2 * 3 == 7"), "(== (+ 1 (* 2 3)) 7)");
    assert_eq!(printed("1 == 2 < 3 + 4 * -5"), "(== 1 (< 2 (+ 3 (* 4 (- 5)))))");
    assert_eq!(printed("(1 + 2) * 3"), "(* (group (+ 1 2)) 3)");
}

#[test]
fn prefix_operators_nest_to_the_right() {
    assert_eq!(printed("!!true"), "(! (! true))");
    assert_eq!(printed("--1"), "(- (- 1))");
    assert_eq!(printed("-!nil"), "(- (! nil))");
}

#[test]
fn primaries() {
    assert_eq!(printed("true"), "true");
    assert_eq!(printed("false"), "false");
    assert_eq!(printed("nil"), "nil");
    assert_eq!(printed("\"text\""), "text");
    assert_eq!(printed("12.5"), "12.5");
    assert_eq!(printed("((1))"), "(group (group 1))");
}

#[test]
fn missing_paren_fails_at_end() {
    assert_eq!(failure("(1 + 2"), "[line 1] Error at end: Expected ')' after expression");
    match parse("(1 + 2") {
        Err(LoxiteError::Parser(err)) => {
            assert_eq!(err.message, "Expected ')' after expression");
            assert_eq!(err.token.token_type, TokenType::EOF);
        }
        _ => panic!("no parser error"),
    }
}

#[test]
fn wrong_token_after_group_fails_there() {
    assert_eq!(failure("(1 2)"), "[line 1] Error at '2': Expected ')' after expression");
}

#[test]
fn missing_operand_fails() {
    assert_eq!(failure("1 +"), "[line 1] Error at end: Expected expression.");
    assert_eq!(failure(""), "[line 1] Error at end: Expected expression.");
    assert_eq!(failure(")"), "[line 1] Error at ')': Expected expression.");
    assert_eq!(failure("1 *\n\n/ 2"), "[line 3] Error at '/': Expected expression.");
    assert_eq!(failure("x"), "[line 1] Error at 'x': Expected expression.");
}

#[test]
fn parse_stops_behind_the_expression() {
    let (tokens, _) = scan(&"1 + 2 3".to_string(), &to_number);
    let mut parser = Parser::new(tokens);
    let expr = parser.parser();
    assert!(expr.is_ok());
    assert_eq!(parser.current, 3);
    assert_eq!(parser.tokens.len(), 5);
}

#[test]
fn failed_parse_stays_on_the_token() {
    let (tokens, _) = scan(&"(1 + ;".to_string(), &to_number);
    let mut parser = Parser::new(tokens);
    assert!(parser.parser().is_err());
    assert_eq!(parser.current, 3);
}

#[test]
fn synchronize_skips_to_a_statement() {
    let (tokens, _) = scan(&"1 + + 2 ; 3 var x print".to_string(), &to_number);
    let mut parser = Parser::new(tokens);
    parser.synchronize();
    assert_eq!(parser.current, 5);
    parser.synchronize();
    assert_eq!(parser.current, 6);
    parser.synchronize();
    assert_eq!(parser.current, 8);
    parser.synchronize();
    assert_eq!(parser.current, 9);
    parser.synchronize();
    assert_eq!(parser.current, 9);
}

#[test]
fn literal_tokens_hand_on_their_value() {
    let tokens = vec![
        Token {
            token_type: TokenType::Number,
            lexeme: "1".to_string(),
            literal: TokenLiteral::Number(7),
            line: 1,
        },
        Token {
            token_type: TokenType::EOF,
            lexeme: String::new(),
            literal: TokenLiteral::Empty,
            line: 1,
        },
    ];
    match Parser::new(tokens).parser() {
        Ok(Expr::Literal(literal)) => assert!(matches!(literal.value, TokenLiteral::Number(7))),
        _ => panic!("no literal"),
    }
}
