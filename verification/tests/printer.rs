use loxite::ast_printer::{parenthesize, AstPrinter};
use loxite::expr::{BinaryExpr, Expr, GroupingExpr, LiteralExpr, UnaryExpr};
use loxite::token::{Token, TokenLiteral, TokenType};

fn show(bits: u64) -> String {
    format!("{}", f64::from_bits(bits))
}

#[test]
fn test_small_expressions() {
    let expr1 = Expr::Unary(Box::new(UnaryExpr {
        operator: Token {
            token_type: TokenType::Minus,
            lexeme: "-".to_string(),
            literal: TokenLiteral::Empty,
            line: 1,
        },
        right: Expr::Literal(LiteralExpr {
            value: TokenLiteral::Number((123 as f64).to_bits()),
        }),
    }));

    let expr2 = Expr::Grouping(Box::new(GroupingExpr {
        expression: Expr::Literal(LiteralExpr {
            value: TokenLiteral::Number(45.67f64.to_bits()),
        }),
    }));

    let ast_printer = AstPrinter;
    assert_eq!(ast_printer.get_expr_as_str(&expr1, &show), "(- 123)");
    assert_eq!(ast_printer.get_expr_as_str(&expr2, &show), "(group 45.67)");
}

#[test]
fn test_complete_expr() {
    let expr = Expr::Binary(Box::new(BinaryExpr {
        left: Expr::Unary(Box::new(UnaryExpr {
            operator: Token {
                token_type: TokenType::Minus,
                lexeme: "-".to_string(),
                literal: TokenLiteral::Empty,
                line: 1,
            },
            right: Expr::Literal(LiteralExpr {
                value: TokenLiteral::Number((123 as f64).to_bits()),
            }),
        })),
        operator: Token {
            token_type: TokenType::Star,
            lexeme: "*".to_string(),
            literal: TokenLiteral::Empty,
            line: 1,
        },
        right: Expr::Grouping(Box::new(GroupingExpr {
            expression: Expr::Literal(LiteralExpr {
                value: TokenLiteral::Number(45.67f64.to_bits()),
            }),
        })),
    }));

    let ast_printer = AstPrinter;
    assert_eq!(
        ast_printer.get_expr_as_str(&expr, &show),
        "(* (- 123) (group 45.67))"
    );
}

#[test]
fn literals_print_as_they_read() {
    let printer = AstPrinter;
    let nil = Expr::Literal(LiteralExpr { value: TokenLiteral::Empty });
    assert_eq!(printer.get_expr_as_str(&nil, &show), "nil");
    let yes = Expr::Literal(LiteralExpr { value: TokenLiteral::Boolean(true) });
    assert_eq!(printer.get_expr_as_str(&yes, &show), "true");
    let no = Expr::Literal(LiteralExpr { value: TokenLiteral::Boolean(false) });
    assert_eq!(printer.get_expr_as_str(&no, &show), "false");
    let text = Expr::Literal(LiteralExpr { value: TokenLiteral::String("a b".to_string()) });
    assert_eq!(printer.get_expr_as_str(&text, &show), "a b");
    assert_eq!(text.print_expr(&show), "a b");
}

#[test]
fn parenthesize_puts_a_space_before_each_part() {
    let one = Expr::Literal(LiteralExpr { value: TokenLiteral::Number(1f64.to_bits()) });
    let two = Expr::Literal(LiteralExpr { value: TokenLiteral::Boolean(false) });
    assert_eq!(parenthesize("f", vec![], &show), "(f)");
    assert_eq!(parenthesize("f", vec![&one], &show), "(f 1)");
    assert_eq!(parenthesize("f", vec![&one, &two, &one], &show), "(f 1 false 1)");
}

#[test]
fn literal_text() {
    assert_eq!(TokenLiteral::Empty.to_text(&show), "");
    assert_eq!(TokenLiteral::Boolean(true).to_text(&show), "true");
    assert_eq!(TokenLiteral::Number(0.5f64.to_bits()).to_text(&show), "0.5");
    assert_eq!(TokenLiteral::String("x".to_string()).to_text(&show), "x");
}

#[test]
fn token_text() {
    let token = Token {
        token_type: TokenType::Number,
        lexeme: "1.50".to_string(),
        literal: TokenLiteral::Number(1.5f64.to_bits()),
        line: 1,
    };
    assert_eq!(token.to_text(&show), "(Number, 1.50, 1.5)");
    let token = Token {
        token_type: TokenType::EOF,
        lexeme: String::new(),
        literal: TokenLiteral::Empty,
        line: 1,
    };
    assert_eq!(token.to_text(&show), "(EOF, , )");
    assert_eq!(TokenType::GreaterEqual.name(), "GreaterEqual");
    assert_eq!(TokenType::LeftParen.name(), format!("{:?}", TokenType::LeftParen));
    assert_eq!(TokenType::While.name(), format!("{:?}", TokenType::While));
}
