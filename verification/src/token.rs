//! Tokens of Reml source text.

use crate::span::Span;
use vstd::prelude::*;

verus! {

/// The kinds of tokens the lexer produces.
#[derive(Debug, Clone, Copy, PartialEq, Eq, Hash, Structural)]
pub enum TokenKind {
    Identifier,
    IntLiteral,
    FloatLiteral,
    StringLiteral,
    KeywordLet,
    KeywordElse,
    KeywordFn,
    KeywordEffect,
    KeywordModule,
    KeywordPerform,
    KeywordIf,
    KeywordThen,
    KeywordTrue,
    KeywordFalse,
    LParen,
    RParen,
    LBrace,
    RBrace,
    LBracket,
    RBracket,
    Comma,
    Colon,
    Semi,
    Arrow,
    Assign,
    Operator,
    Comment,
    Whitespace,
    EndOfFile,
    /// A token that no rule accepts; diagnostics treat it as recoverable.
    Unknown,
}

/// A token: its kind, its span and, for some kinds, its text.
#[derive(Debug, Clone, PartialEq, Eq)]
pub struct Token {
    pub kind: TokenKind,
    pub span: Span,
    pub lexeme: Option<String>,
}

/// A token as a mathematical value: the lexeme is taken by its characters.
pub struct TokenModel {
    pub kind: TokenKind,
    pub span: Span,
    pub lexeme: Option<Seq<char>>,
}

impl Token {
    /// The token with its lexeme viewed as a character sequence.
    pub open spec fn model(self) -> TokenModel {
        TokenModel {
            kind: self.kind,
            span: self.span,
            lexeme: match self.lexeme {
                Some(s) => Some(s@),
                None => None,
            },
        }
    }

    /// A token without lexeme.
    pub fn new(kind: TokenKind, span: Span) -> (t: Token)
        ensures
            t.kind == kind,
            t.span == span,
            t.lexeme is None,
    {
        Token { kind, span, lexeme: None }
    }

    /// A token carrying its lexeme.
    pub fn with_lexeme(kind: TokenKind, span: Span, lexeme: String) -> (t: Token)
        ensures
            t.kind == kind,
            t.span == span,
            t.lexeme == Some(lexeme),
    {
        Token { kind, span, lexeme: Some(lexeme) }
    }
}

} // verus!
