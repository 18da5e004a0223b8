//! The scanner: token kinds, lexemes, literals, lines, and the error
//! flag.

use lox::scanner::Scanner;
use lox::token::{Literal, Token, TokenType};

fn scan(source: &str) -> (Vec<Token>, u8) {
    let chars: Vec<char> = source.chars().collect();
    let mut sc = Scanner::new();
    let mut err: u8 = 0;
    sc.scan_tokens(&chars, &mut err);
    (sc.tokens, err)
}

fn kinds(tokens: &[Token]) -> Vec<TokenType> {
    tokens.iter().map(|t| t.token_type).collect()
}

#[test]
fn empty_source_gives_only_the_end_marker() {
    let (tokens, err) = scan("");
    assert_eq!(err, 0);
    assert_eq!(tokens.len(), 1);
    assert_eq!(tokens[0].token_type, TokenType::Eof);
    assert_eq!(tokens[0].lexeme, "");
    assert_eq!(tokens[0].line, 1);
}

#[test]
fn single_character_punctuation() {
    let (tokens, err) = scan("(){},.-+;*");
    assert_eq!(err, 0);
    assert_eq!(
        kinds(&tokens),
        vec![
            TokenType::LeftParen,
            TokenType::RightParen,
            TokenType::LeftBrace,
            TokenType::RightBrace,
            TokenType::Comma,
            TokenType::Dot,
            TokenType::Minus,
            TokenType::Plus,
            TokenType::Semicolon,
            TokenType::Star,
            TokenType::Eof,
        ]
    );
    assert_eq!(tokens[0].lexeme, "(");
}

#[test]
fn one_and_two_character_operators() {
    let (tokens, err) = scan("! != = == < <= > >= /");
    assert_eq!(err, 0);
    assert_eq!(
        kinds(&tokens),
        vec![
            TokenType::Bang,
            TokenType::BangEqual,
            TokenType::Equal,
            TokenType::EqualEqual,
            TokenType::Less,
            TokenType::LessEqual,
            TokenType::Greater,
            TokenType::GreaterEqual,
            TokenType::Slash,
            TokenType::Eof,
        ]
    );
    assert_eq!(tokens[1].lexeme, "!=");
    assert_eq!(tokens[3].lexeme, "==");
}

#[test]
fn line_comment_is_skipped_to_end_of_line() {
    let (tokens, err) = scan("1 // a comment ( ) \"\n2");
    assert_eq!(err, 0);
    assert_eq!(kinds(&tokens), vec![TokenType::Number, TokenType::Number, TokenType::Eof]);
    assert_eq!(tokens[0].line, 1);
    assert_eq!(tokens[1].line, 2);
}

#[test]
fn newlines_advance_the_line_count() {
    let (tokens, err) = scan("+\n+\n\n+");
    assert_eq!(err, 0);
    assert_eq!(tokens[0].line, 1);
    assert_eq!(tokens[1].line, 2);
    assert_eq!(tokens[2].line, 4);
    assert_eq!(tokens[3].line, 4);
}

#[test]
fn string_literal_keeps_quotes_in_lexeme_and_not_in_value() {
    let (tokens, err) = scan("\"hello\"");
    assert_eq!(err, 0);
    assert_eq!(tokens[0].token_type, TokenType::StringLit);
    assert_eq!(tokens[0].lexeme, "\"hello\"");
    match &tokens[0].literal {
        Some(Literal::String(s)) => assert_eq!(s, "hello"),
        other => panic!("wrong literal: {:?}", other),
    }
}

#[test]
fn empty_string_literal() {
    let (tokens, err) = scan("\"\"");
    assert_eq!(err, 0);
    match &tokens[0].literal {
        Some(Literal::String(s)) => assert_eq!(s, ""),
        other => panic!("wrong literal: {:?}", other),
    }
}

#[test]
fn string_with_embedded_newline_counts_lines() {
    let (tokens, err) = scan("\"a\nb\" +");
    assert_eq!(err, 0);
    assert_eq!(tokens[0].token_type, TokenType::StringLit);
    assert_eq!(tokens[0].line, 2);
    assert_eq!(tokens[1].line, 2);
    match &tokens[0].literal {
        Some(Literal::String(s)) => assert_eq!(s, "a\nb"),
        other => panic!("wrong literal: {:?}", other),
    }
}

#[test]
fn unterminated_string_sets_the_error_flag() {
    let (tokens, err) = scan("\"abc");
    assert_eq!(err, 65);
    assert_eq!(kinds(&tokens), vec![TokenType::Eof]);
}

#[test]
fn unexpected_character_sets_the_error_flag_and_scanning_continues() {
    let (tokens, err) = scan("#+");
    assert_eq!(err, 65);
    assert_eq!(kinds(&tokens), vec![TokenType::Plus, TokenType::Eof]);
}

#[test]
fn number_without_fraction() {
    let (tokens, err) = scan("42");
    assert_eq!(err, 0);
    assert_eq!(tokens[0].token_type, TokenType::Number);
    assert_eq!(tokens[0].lexeme, "42");
    match tokens[0].literal {
        Some(Literal::Number(bits, frac)) => {
            assert_eq!(f64::from_bits(bits), 42.0);
            assert_eq!(frac, 0);
        }
        ref other => panic!("wrong literal: {:?}", other),
    }
}

#[test]
fn number_with_fraction_keeps_digit_count() {
    let (tokens, err) = scan("3.1400");
    assert_eq!(err, 0);
    assert_eq!(tokens[0].lexeme, "3.1400");
    match tokens[0].literal {
        Some(Literal::Number(bits, frac)) => {
            assert_eq!(f64::from_bits(bits), 3.14);
            assert_eq!(frac, 4);
        }
        ref other => panic!("wrong literal: {:?}", other),
    }
}

#[test]
fn dot_not_followed_by_digit_is_its_own_token() {
    let (tokens, err) = scan("123.");
    assert_eq!(err, 0);
    assert_eq!(kinds(&tokens), vec![TokenType::Number, TokenType::Dot, TokenType::Eof]);
    assert_eq!(tokens[0].lexeme, "123");
}

#[test]
fn canonical_number_rendering_round_trips() {
    // A literal's canonical decimal form parses back to the same value
    // and shows at least one fractional digit.
    for source in ["42", "3.14", "0.5", "1234.1234", "2"] {
        let (tokens, err) = scan(source);
        assert_eq!(err, 0);
        match tokens[0].literal {
            Some(Literal::Number(bits, _)) => {
                let value = f64::from_bits(bits);
                let canonical = if value == value.trunc() {
                    format!("{}.0", value)
                } else {
                    format!("{}", value)
                };
                assert!(canonical.contains('.'));
                assert_eq!(canonical.parse::<f64>().unwrap(), value);
            }
            ref other => panic!("wrong literal: {:?}", other),
        }
    }
}

#[test]
fn keywords_are_recognized_exactly() {
    let (tokens, err) = scan("and class else false for fun if nil or print return super this true var while");
    assert_eq!(err, 0);
    assert_eq!(
        kinds(&tokens),
        vec![
            TokenType::And,
            TokenType::Class,
            TokenType::Else,
            TokenType::False,
            TokenType::For,
            TokenType::Fun,
            TokenType::If,
            TokenType::Nil,
            TokenType::Or,
            TokenType::Print,
            TokenType::Return,
            TokenType::Super,
            TokenType::This,
            TokenType::True,
            TokenType::Var,
            TokenType::While,
            TokenType::Eof,
        ]
    );
}

#[test]
fn near_keywords_are_identifiers() {
    let (tokens, err) = scan("andy orchid whiles _var va2r");
    assert_eq!(err, 0);
    for t in &tokens[..5] {
        assert_eq!(t.token_type, TokenType::Identifier);
    }
    assert_eq!(tokens[0].lexeme, "andy");
    assert_eq!(tokens[3].lexeme, "_var");
}

#[test]
fn token_new_builds_the_record() {
    let t = Token::new(TokenType::Plus, String::from("+"), Some(Literal::Null), 7);
    assert_eq!(t.token_type, TokenType::Plus);
    assert_eq!(t.lexeme, "+");
    assert_eq!(t.line, 7);
    assert!(matches!(t.literal, Some(Literal::Null)));
}
