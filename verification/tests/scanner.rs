use loxite::lexer::{scan, Lexer};
use loxite::token::{Token, TokenLiteral, TokenType};

fn to_number(text: String) -> u64 {
    text.parse::<f64>().unwrap().to_bits()
}

fn kinds(tokens: &[Token]) -> Vec<TokenType> {
    tokens.iter().map(|token| token.token_type).collect()
}

fn scan_text(text: &str) -> (Vec<Token>, Vec<String>) {
    let (tokens, errors) = scan(&text.to_string(), &to_number);
    (tokens, errors.iter().map(|e| e.render()).collect())
}

#[test]
fn empty_text_is_one_eof() {
    let (tokens, errors) = scan_text("");
    assert!(errors.is_empty());
    assert_eq!(tokens.len(), 1);
    assert_eq!(tokens[0].token_type, TokenType::EOF);
    assert_eq!(tokens[0].lexeme, "");
    assert_eq!(tokens[0].line, 1);
    assert!(matches!(tokens[0].literal, TokenLiteral::Empty));
}

#[test]
fn blanks_and_comments_are_one_eof() {
    let (tokens, errors) = scan_text("  \t\r\n// a comment ( with ) tokens\n\n   // another");
    assert!(errors.is_empty());
    assert_eq!(kinds(&tokens), vec![TokenType::EOF]);
    assert_eq!(tokens[0].line, 4);
}

#[test]
fn whole_number_literal() {
    let (tokens, errors) = scan_text("123");
    assert!(errors.is_empty());
    assert_eq!(kinds(&tokens), vec![TokenType::Number, TokenType::EOF]);
    assert_eq!(tokens[0].lexeme, "123");
    assert!(matches!(tokens[0].literal, TokenLiteral::Number(bits) if bits == 123f64.to_bits()));
    assert_eq!(tokens[0].line, 1);
    assert_eq!(tokens[1].line, 1);
}

#[test]
fn fraction_number_literal() {
    let (tokens, errors) = scan_text("45.67");
    assert!(errors.is_empty());
    assert_eq!(kinds(&tokens), vec![TokenType::Number, TokenType::EOF]);
    assert_eq!(tokens[0].lexeme, "45.67");
    assert!(matches!(tokens[0].literal, TokenLiteral::Number(bits) if bits == 45.67f64.to_bits()));
}

#[test]
fn dot_without_digit_is_not_taken() {
    let (tokens, errors) = scan_text("12.");
    assert!(errors.is_empty());
    assert_eq!(kinds(&tokens), vec![TokenType::Number, TokenType::Dot, TokenType::EOF]);
    assert_eq!(tokens[0].lexeme, "12");
    let (tokens, _) = scan_text("1.2.3");
    assert_eq!(
        kinds(&tokens),
        vec![TokenType::Number, TokenType::Dot, TokenType::Number, TokenType::EOF]
    );
    assert_eq!(tokens[0].lexeme, "1.2");
    assert_eq!(tokens[2].lexeme, "3");
}

#[test]
fn unterminated_string_is_one_diagnostic() {
    let (tokens, errors) = scan_text("\"abc");
    assert_eq!(kinds(&tokens), vec![TokenType::EOF]);
    assert_eq!(errors, vec!["[line 1] Error: Unterminated string".to_string()]);
}

#[test]
fn unterminated_string_counts_its_lines() {
    let (tokens, errors) = scan_text("1 \"ab\ncd\n");
    assert_eq!(kinds(&tokens), vec![TokenType::Number, TokenType::EOF]);
    assert_eq!(tokens[1].line, 3);
    assert_eq!(errors, vec!["[line 3] Error: Unterminated string".to_string()]);
}

#[test]
fn string_literal_holds_what_is_between_the_quotes() {
    let (tokens, errors) = scan_text("\"hi\\n there\"");
    assert!(errors.is_empty());
    assert_eq!(kinds(&tokens), vec![TokenType::String, TokenType::EOF]);
    assert_eq!(tokens[0].lexeme, "\"hi\\n there\"");
    assert!(matches!(&tokens[0].literal, TokenLiteral::String(s) if s == "hi\\n there"));
}

#[test]
fn string_over_lines_stands_on_its_last_line() {
    let (tokens, errors) = scan_text("\"a\nb\" 1");
    assert!(errors.is_empty());
    assert_eq!(kinds(&tokens), vec![TokenType::String, TokenType::Number, TokenType::EOF]);
    assert_eq!(tokens[0].line, 2);
    assert_eq!(tokens[1].line, 2);
    assert!(matches!(&tokens[0].literal, TokenLiteral::String(s) if s == "a\nb"));
}

#[test]
fn punctuation_tokens() {
    let (tokens, errors) = scan_text("(){},.-+;*/");
    assert!(errors.is_empty());
    assert_eq!(
        kinds(&tokens),
        vec![
            TokenType::LeftParen,
            TokenType::RightParen,
            TokenType::LeftBrace,
            TokenType::RightBrace,
            TokenType::Comma,
            TokenType::Dot,
            TokenType::Minus,
            TokenType::Plus,
            TokenType::Semicolon,
            TokenType::Star,
            TokenType::Slash,
            TokenType::EOF,
        ]
    );
    assert_eq!(tokens[1].lexeme, ")");
}

#[test]
fn operators_take_the_longest_match() {
    let (tokens, errors) = scan_text("! != = == < <= > >= ===");
    assert!(errors.is_empty());
    assert_eq!(
        kinds(&tokens),
        vec![
            TokenType::Bang,
            TokenType::BangEqual,
            TokenType::Equal,
            TokenType::EqualEqual,
            TokenType::Less,
            TokenType::LessEqual,
            TokenType::Greater,
            TokenType::GreaterEqual,
            TokenType::EqualEqual,
            TokenType::Equal,
            TokenType::EOF,
        ]
    );
    assert_eq!(tokens[1].lexeme, "!=");
}

#[test]
fn reserved_words_and_identifiers() {
    let text = "and class else false fun for if nil or print return super this true var while";
    let (tokens, errors) = scan_text(text);
    assert!(errors.is_empty());
    assert_eq!(
        kinds(&tokens),
        vec![
            TokenType::And,
            TokenType::Class,
            TokenType::Else,
            TokenType::False,
            TokenType::Fun,
            TokenType::For,
            TokenType::If,
            TokenType::Nil,
            TokenType::Or,
            TokenType::Print,
            TokenType::Return,
            TokenType::Super,
            TokenType::This,
            TokenType::True,
            TokenType::Var,
            TokenType::While,
            TokenType::EOF,
        ]
    );
    let (tokens, _) = scan_text("andy _x1 For nil_");
    assert_eq!(
        kinds(&tokens),
        vec![
            TokenType::Identifier,
            TokenType::Identifier,
            TokenType::Identifier,
            TokenType::Identifier,
            TokenType::EOF,
        ]
    );
    assert_eq!(tokens[1].lexeme, "_x1");
}

#[test]
fn unexpected_characters_do_not_stop_the_scan() {
    let (tokens, errors) = scan_text("1 @ 2\n# 3");
    assert_eq!(
        kinds(&tokens),
        vec![TokenType::Number, TokenType::Number, TokenType::Number, TokenType::EOF]
    );
    assert_eq!(
        errors,
        vec![
            "[line 1] Error: Unexpected character.".to_string(),
            "[line 2] Error: Unexpected character.".to_string(),
        ]
    );
}

#[test]
fn comment_ends_at_the_newline() {
    let (tokens, errors) = scan_text("1 // 2\n3 / 4");
    assert!(errors.is_empty());
    assert_eq!(
        kinds(&tokens),
        vec![
            TokenType::Number,
            TokenType::Number,
            TokenType::Slash,
            TokenType::Number,
            TokenType::EOF,
        ]
    );
    assert_eq!(tokens[1].line, 2);
}

#[test]
fn letters_beyond_ascii_are_unexpected() {
    let (tokens, errors) = scan_text("é");
    assert_eq!(kinds(&tokens), vec![TokenType::EOF]);
    assert_eq!(errors.len(), 1);
}

#[test]
fn lexer_keeps_tokens_errors_and_flag() {
    let mut lexer = Lexer::new(&"(1)".to_string());
    assert!(!lexer.had_error);
    let count = lexer.scan_tokens(&to_number).len();
    assert_eq!(count, 4);
    assert!(!lexer.had_error);
    assert!(lexer.errors.is_empty());
    assert_eq!(lexer.tokens[0].lexeme, "(");

    let mut lexer = Lexer::new(&"@".to_string());
    let count = lexer.scan_tokens(&to_number).len();
    assert_eq!(count, 1);
    assert!(lexer.had_error);
    assert_eq!(lexer.errors[0].message, "Unexpected character.");
    assert_eq!(lexer.errors[0].line, 1);
}

#[test]
fn number_value_comes_from_the_reader() {
    let reader = |text: String| text.len() as u64;
    let (tokens, _) = scan(&"12.5 7".to_string(), &reader);
    assert!(matches!(tokens[0].literal, TokenLiteral::Number(4)));
    assert!(matches!(tokens[1].literal, TokenLiteral::Number(1)));
}
