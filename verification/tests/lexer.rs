use reml_frontend::error::{FrontendErrorKind, Recoverability};
use reml_frontend::lexer::{lex_source, Lexer};
use reml_frontend::span::Span;
use reml_frontend::token::TokenKind;

fn kinds(src: &str) -> Vec<TokenKind> {
    lex_source(src).tokens.iter().map(|t| t.kind).collect()
}

#[test]
fn lexes_simple_function() {
    let out = lex_source("fn answer() = 42");
    let toks = &out.tokens;
    assert_eq!(toks.len(), 7);
    assert_eq!(toks[0].kind, TokenKind::KeywordFn);
    assert_eq!(toks[0].span, Span::new(0, 2));
    assert_eq!(toks[0].lexeme.as_deref(), Some("fn"));
    assert_eq!(toks[1].kind, TokenKind::Identifier);
    assert_eq!(toks[1].span, Span::new(3, 9));
    assert_eq!(toks[1].lexeme.as_deref(), Some("answer"));
    assert_eq!(toks[2].kind, TokenKind::LParen);
    assert_eq!(toks[2].lexeme, None);
    assert_eq!(toks[3].kind, TokenKind::RParen);
    assert_eq!(toks[4].kind, TokenKind::Assign);
    assert_eq!(toks[4].span, Span::new(12, 13));
    assert_eq!(toks[5].kind, TokenKind::IntLiteral);
    assert_eq!(toks[5].lexeme.as_deref(), Some("42"));
    assert_eq!(toks[6].kind, TokenKind::EndOfFile);
    assert_eq!(toks[6].span, Span::new(16, 16));
    assert!(out.errors.is_empty());
}

#[test]
fn keywords_need_exact_words() {
    assert_eq!(
        kinds("let letx module effect effects fn_"),
        vec![
            TokenKind::KeywordLet,
            TokenKind::Identifier,
            TokenKind::KeywordModule,
            TokenKind::KeywordEffect,
            TokenKind::Identifier,
            TokenKind::Identifier,
            TokenKind::EndOfFile
        ]
    );
}

#[test]
fn arrow_plus_and_punctuation() {
    assert_eq!(
        kinds("(a,b)->{x:y;}[]=+"),
        vec![
            TokenKind::LParen,
            TokenKind::Identifier,
            TokenKind::Comma,
            TokenKind::Identifier,
            TokenKind::RParen,
            TokenKind::Arrow,
            TokenKind::LBrace,
            TokenKind::Identifier,
            TokenKind::Colon,
            TokenKind::Identifier,
            TokenKind::Semi,
            TokenKind::RBrace,
            TokenKind::LBracket,
            TokenKind::RBracket,
            TokenKind::Assign,
            TokenKind::Operator,
            TokenKind::EndOfFile
        ]
    );
    let out = lex_source("+");
    assert_eq!(out.tokens[0].lexeme.as_deref(), Some("+"));
}

#[test]
fn comments_and_whitespace_are_skipped() {
    let out = lex_source("// note\n  x\t// tail");
    assert_eq!(out.tokens.len(), 2);
    assert_eq!(out.tokens[0].kind, TokenKind::Identifier);
    assert_eq!(out.tokens[0].span, Span::new(10, 11));
    assert_eq!(out.tokens[1].span, Span::new(19, 19));
}

#[test]
fn unknown_characters_are_reported_and_skipped() {
    let out = lex_source("fn @@@");
    assert_eq!(out.tokens.len(), 2);
    assert_eq!(out.errors.len(), 3);
    for (i, err) in out.errors.iter().enumerate() {
        assert_eq!(err.recoverability, Recoverability::Recoverable);
        let start = 3 + i as u32;
        assert_eq!(err.kind, FrontendErrorKind::UnknownToken { span: Span::new(start, start + 1) });
    }
}

#[test]
fn digits_then_letters_split() {
    let out = lex_source("12ab - /");
    assert_eq!(out.tokens[0].kind, TokenKind::IntLiteral);
    assert_eq!(out.tokens[0].lexeme.as_deref(), Some("12"));
    assert_eq!(out.tokens[1].kind, TokenKind::Identifier);
    assert_eq!(out.tokens[1].lexeme.as_deref(), Some("ab"));
    assert_eq!(out.tokens[2].lexeme.as_deref(), Some("-"));
    assert_eq!(out.tokens[3].lexeme.as_deref(), Some("/"));
    assert!(out.errors.is_empty());
}

#[test]
fn operators_take_the_longest_spelling() {
    let out = lex_source("a==b!=c<=d>=e<f>g=h*i%j !k");
    let ops: Vec<Option<&str>> = out
        .tokens
        .iter()
        .filter(|t| t.kind == TokenKind::Operator)
        .map(|t| t.lexeme.as_deref())
        .collect();
    assert_eq!(
        ops,
        vec![Some("=="), Some("!="), Some("<="), Some(">="), Some("<"), Some(">"), Some("*"), Some("%")]
    );
    assert_eq!(out.errors.len(), 1);
    assert!(out.tokens.iter().any(|t| t.kind == TokenKind::Assign));
}

#[test]
fn string_literals_and_new_keywords() {
    let out = lex_source("perform if then else true false \"a\\\"b\" \"x\ny\"");
    let k: Vec<TokenKind> = out.tokens.iter().map(|t| t.kind).collect();
    assert_eq!(
        k[..7].to_vec(),
        vec![
            TokenKind::KeywordPerform,
            TokenKind::KeywordIf,
            TokenKind::KeywordThen,
            TokenKind::KeywordElse,
            TokenKind::KeywordTrue,
            TokenKind::KeywordFalse,
            TokenKind::StringLiteral
        ]
    );
    assert_eq!(out.tokens[6].lexeme.as_deref(), Some("\"a\\\"b\""));
    // The quote left open by the newline is an unknown token, as is the last one.
    assert_eq!(out.errors.len(), 2);
}

#[test]
fn non_ascii_spans_are_byte_offsets() {
    // "café" is "caf" then an unknown two-byte character.
    let out = lex_source("let café = 1");
    assert_eq!(out.tokens[1].lexeme.as_deref(), Some("caf"));
    assert_eq!(out.tokens[1].span, Span::new(4, 7));
    assert_eq!(out.errors.len(), 1);
    assert_eq!(out.errors[0].kind, FrontendErrorKind::UnknownToken { span: Span::new(7, 9) });
    assert_eq!(out.tokens[2].kind, TokenKind::Assign);
    assert_eq!(out.tokens[2].span, Span::new(10, 11));
    assert_eq!(out.tokens.last().unwrap().span, Span::new(13, 13));
}

#[test]
fn lexer_reads_strings_and_slices() {
    let owned = String::from("module m");
    let a = Lexer::new(&owned).run();
    let borrowed: &str = "module m";
    let b = Lexer::new(&borrowed).run();
    assert_eq!(a.tokens, b.tokens);
    assert_eq!(a.tokens[0].kind, TokenKind::KeywordModule);
}

#[test]
fn empty_source_has_only_eof() {
    let out = lex_source("");
    assert_eq!(out.tokens.len(), 1);
    assert_eq!(out.tokens[0].kind, TokenKind::EndOfFile);
    assert_eq!(out.tokens[0].span, Span::new(0, 0));
}
