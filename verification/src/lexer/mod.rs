//! The lexer: turns source text into tokens by longest match.
//!
//! Rules, tried at each position on the text's characters:
//! runs of ` `, `\t`, `\r`, `\n` and line comments `//...` are skipped;
//! `[A-Za-z_][A-Za-z0-9_]*` is an identifier, or the keyword `fn`, `let`,
//! `module`, `effect`, `perform`, `if`, `then`, `else`, `true` or `false`
//! when it is exactly that word; `[0-9]+` is an integer literal; a string
//! literal runs from `"` to the next `"` on the same line, a backslash taking
//! the character after it along; `->` is an arrow; `( ) { } [ ] , : ; =` are
//! punctuation; `== != <= >=` and `+ - * / % < >` are operators. Any other
//! character, and a `"` that no `"` closes on its line, is reported as an
//! unknown token and skipped. Spans are byte offsets into the UTF-8 text; a final
//! end-of-file token sits at the text's byte length.

use crate::error::{FrontendError, FrontendErrorKind, Recoverability};
use crate::span::Span;
use crate::text::{byte_offset, char_width, chars_of, string_of_range};
use crate::token::{Token, TokenKind, TokenModel};
use vstd::prelude::*;

verus! {

/// A source of text the lexer can read.
pub trait SourceBuffer {
    /// The characters of the source.
    spec fn source_text(&self) -> Seq<char>;

    fn as_str(&self) -> (s: &str)
        ensures
            s@ == self.source_text(),
    ;
}

impl SourceBuffer for String {
    open spec fn source_text(&self) -> Seq<char> {
        self@
    }

    fn as_str(&self) -> (s: &str) {
        self.as_str()
    }
}

impl<'a> SourceBuffer for &'a str {
    open spec fn source_text(&self) -> Seq<char> {
        (*self)@
    }

    fn as_str(&self) -> (s: &str) {
        *self
    }
}

/// Characters skipped as whitespace.
pub open spec fn is_ws(c: char) -> bool {
    c == ' ' || c == '\t' || c == '\r' || c == '\n'
}

pub open spec fn is_digit(c: char) -> bool {
    '0' <= c <= '9'
}

pub open spec fn is_ident_start(c: char) -> bool {
    ('A' <= c <= 'Z') || ('a' <= c <= 'z') || c == '_'
}

pub open spec fn is_ident_continue(c: char) -> bool {
    is_ident_start(c) || is_digit(c)
}

/// The end of the whitespace run starting at `i`.
pub open spec fn ws_end(cs: Seq<char>, i: int) -> int
    decreases cs.len() - i,
{
    if 0 <= i < cs.len() && is_ws(cs[i]) {
        ws_end(cs, i + 1)
    } else {
        i
    }
}

/// The end of the identifier characters starting at `i`.
pub open spec fn ident_end(cs: Seq<char>, i: int) -> int
    decreases cs.len() - i,
{
    if 0 <= i < cs.len() && is_ident_continue(cs[i]) {
        ident_end(cs, i + 1)
    } else {
        i
    }
}

/// The end of the digits starting at `i`.
pub open spec fn digits_end(cs: Seq<char>, i: int) -> int
    decreases cs.len() - i,
{
    if 0 <= i < cs.len() && is_digit(cs[i]) {
        digits_end(cs, i + 1)
    } else {
        i
    }
}

/// The position of the next newline at or after `i`, or the end of the text.
pub open spec fn line_end(cs: Seq<char>, i: int) -> int
    decreases cs.len() - i,
{
    if 0 <= i < cs.len() && cs[i] != '\n' {
        line_end(cs, i + 1)
    } else {
        i
    }
}

/// The keyword a word spells, if any.
pub open spec fn keyword_kind(word: Seq<char>) -> Option<TokenKind> {
    if word == seq!['f', 'n'] {
        Some(TokenKind::KeywordFn)
    } else if word == seq!['l', 'e', 't'] {
        Some(TokenKind::KeywordLet)
    } else if word == seq!['m', 'o', 'd', 'u', 'l', 'e'] {
        Some(TokenKind::KeywordModule)
    } else if word == seq!['e', 'f', 'f', 'e', 'c', 't'] {
        Some(TokenKind::KeywordEffect)
    } else if word == seq!['p', 'e', 'r', 'f', 'o', 'r', 'm'] {
        Some(TokenKind::KeywordPerform)
    } else if word == seq!['i', 'f'] {
        Some(TokenKind::KeywordIf)
    } else if word == seq!['t', 'h', 'e', 'n'] {
        Some(TokenKind::KeywordThen)
    } else if word == seq!['e', 'l', 's', 'e'] {
        Some(TokenKind::KeywordElse)
    } else if word == seq!['t', 'r', 'u', 'e'] {
        Some(TokenKind::KeywordTrue)
    } else if word == seq!['f', 'a', 'l', 's', 'e'] {
        Some(TokenKind::KeywordFalse)
    } else {
        None
    }
}

/// The end of a string literal whose body starts at `j`: just after the
/// closing `"`, or -1 when the line or the text ends first.
pub open spec fn string_close(cs: Seq<char>, j: int) -> int
    decreases cs.len() - j,
{
    if j < 0 || j >= cs.len() || cs[j] == '\n' {
        -1
    } else if cs[j] == '"' {
        j + 1
    } else if cs[j] == '\\' && j + 1 < cs.len() && cs[j + 1] != '\n' {
        string_close(cs, j + 2)
    } else {
        string_close(cs, j + 1)
    }
}

/// A two-character operator starts at `i`: `==`, `!=`, `<=` or `>=`.
pub open spec fn is_op2(cs: Seq<char>, i: int) -> bool {
    0 <= i && i + 1 < cs.len() && (cs[i] == '=' || cs[i] == '!' || cs[i] == '<' || cs[i] == '>')
        && cs[i + 1] == '='
}

/// The single-character tokens.
pub open spec fn punct_kind(c: char) -> Option<TokenKind> {
    if c == '(' {
        Some(TokenKind::LParen)
    } else if c == ')' {
        Some(TokenKind::RParen)
    } else if c == '{' {
        Some(TokenKind::LBrace)
    } else if c == '}' {
        Some(TokenKind::RBrace)
    } else if c == '[' {
        Some(TokenKind::LBracket)
    } else if c == ']' {
        Some(TokenKind::RBracket)
    } else if c == ',' {
        Some(TokenKind::Comma)
    } else if c == ':' {
        Some(TokenKind::Colon)
    } else if c == ';' {
        Some(TokenKind::Semi)
    } else if c == '=' {
        Some(TokenKind::Assign)
    } else if c == '+' || c == '-' || c == '*' || c == '/' || c == '%' || c == '<' || c == '>' {
        Some(TokenKind::Operator)
    } else {
        None
    }
}

/// What the lexer does at one position.
pub enum StepKind {
    Skip,
    Emit(TokenKind),
    Unknown,
}

/// One step of the lexer: the action at `i` and where the next step starts.
pub struct LexStep {
    pub kind: StepKind,
    pub end: int,
}

/// The lexer's step at position `i` (`0 <= i < cs.len()`).
pub open spec fn scan(cs: Seq<char>, i: int) -> LexStep {
    let c = cs[i];
    if is_ws(c) {
        LexStep { kind: StepKind::Skip, end: ws_end(cs, i) }
    } else if c == '/' && i + 1 < cs.len() && cs[i + 1] == '/' {
        LexStep { kind: StepKind::Skip, end: line_end(cs, i + 2) }
    } else if is_ident_start(c) {
        let e = ident_end(cs, i + 1);
        let kind = match keyword_kind(cs.subrange(i, e)) {
            Some(k) => k,
            None => TokenKind::Identifier,
        };
        LexStep { kind: StepKind::Emit(kind), end: e }
    } else if is_digit(c) {
        LexStep { kind: StepKind::Emit(TokenKind::IntLiteral), end: digits_end(cs, i + 1) }
    } else if c == '"' {
        let e = string_close(cs, i + 1);
        if e > i {
            LexStep { kind: StepKind::Emit(TokenKind::StringLiteral), end: e }
        } else {
            LexStep { kind: StepKind::Unknown, end: i + 1 }
        }
    } else if c == '-' && i + 1 < cs.len() && cs[i + 1] == '>' {
        LexStep { kind: StepKind::Emit(TokenKind::Arrow), end: i + 2 }
    } else if is_op2(cs, i) {
        LexStep { kind: StepKind::Emit(TokenKind::Operator), end: i + 2 }
    } else if punct_kind(c) is Some {
        LexStep { kind: StepKind::Emit(punct_kind(c)->0), end: i + 1 }
    } else {
        LexStep { kind: StepKind::Unknown, end: i + 1 }
    }
}

/// Whether tokens of a kind carry their text.
pub open spec fn has_lexeme(kind: TokenKind) -> bool {
    match kind {
        TokenKind::KeywordFn | TokenKind::KeywordLet | TokenKind::KeywordModule
        | TokenKind::KeywordEffect | TokenKind::KeywordPerform | TokenKind::KeywordIf
        | TokenKind::KeywordThen | TokenKind::KeywordElse | TokenKind::KeywordTrue
        | TokenKind::KeywordFalse | TokenKind::Identifier | TokenKind::IntLiteral
        | TokenKind::StringLiteral | TokenKind::Operator => true,
        _ => false,
    }
}

/// The span of characters `[i, j)` in bytes, as the lexer reports it.
pub open spec fn span_of(cs: Seq<char>, i: int, j: int) -> Span {
    Span::spec_new(byte_offset(cs, i) as u32, byte_offset(cs, j) as u32)
}

/// The token for characters `[i, j)` of kind `kind`.
pub open spec fn token_at(cs: Seq<char>, i: int, j: int, kind: TokenKind) -> TokenModel {
    TokenModel {
        kind,
        span: span_of(cs, i, j),
        lexeme: if has_lexeme(kind) {
            Some(cs.subrange(i, j))
        } else {
            None
        },
    }
}

/// The error for an unknown token at `[i, j)`.
pub open spec fn unknown_at(cs: Seq<char>, i: int, j: int) -> FrontendError {
    FrontendError {
        kind: FrontendErrorKind::UnknownToken { span: span_of(cs, i, j) },
        recoverability: Recoverability::Recoverable,
    }
}

/// Tokens (without the final end-of-file token) and errors from position `i` on.
pub open spec fn lex_from(cs: Seq<char>, i: int) -> (Seq<TokenModel>, Seq<FrontendError>)
    decreases cs.len() - i,
{
    if i < 0 || i >= cs.len() {
        (Seq::empty(), Seq::empty())
    } else {
        let step = scan(cs, i);
        if step.end <= i || step.end > cs.len() {
            (Seq::empty(), Seq::empty())
        } else {
            let rest = lex_from(cs, step.end);
            match step.kind {
                StepKind::Skip => rest,
                StepKind::Emit(k) => (seq![token_at(cs, i, step.end, k)] + rest.0, rest.1),
                StepKind::Unknown => (rest.0, seq![unknown_at(cs, i, step.end)] + rest.1),
            }
        }
    }
}

/// The end-of-file token of a text of `n` bytes.
pub open spec fn eof_token(n: nat) -> TokenModel {
    TokenModel {
        kind: TokenKind::EndOfFile,
        span: Span::spec_new(n as u32, n as u32),
        lexeme: None,
    }
}

/// The tokens the lexer produces for a text: the scanned tokens then end of file.
pub open spec fn lex_tokens(text: Seq<char>) -> Seq<TokenModel> {
    lex_from(text, 0).0.push(eof_token(vstd::utf8::encode_utf8(text).len()))
}

/// The errors the lexer reports for a text.
pub open spec fn lex_errors(text: Seq<char>) -> Seq<FrontendError> {
    lex_from(text, 0).1
}

/// The result of lexing.
pub struct LexOutput {
    pub tokens: Vec<Token>,
    pub errors: Vec<FrontendError>,
}

impl LexOutput {
    /// The tokens viewed as models.
    pub open spec fn token_models(&self) -> Seq<TokenModel> {
        self.tokens@.map_values(|t: Token| t.model())
    }
}

proof fn lemma_ws_end(cs: Seq<char>, i: int)
    requires
        0 <= i <= cs.len(),
    ensures
        i <= ws_end(cs, i) <= cs.len(),
    decreases cs.len() - i,
{
    if i < cs.len() && is_ws(cs[i]) {
        lemma_ws_end(cs, i + 1);
    }
}

proof fn lemma_ident_end(cs: Seq<char>, i: int)
    requires
        0 <= i <= cs.len(),
    ensures
        i <= ident_end(cs, i) <= cs.len(),
    decreases cs.len() - i,
{
    if i < cs.len() && is_ident_continue(cs[i]) {
        lemma_ident_end(cs, i + 1);
    }
}

proof fn lemma_digits_end(cs: Seq<char>, i: int)
    requires
        0 <= i <= cs.len(),
    ensures
        i <= digits_end(cs, i) <= cs.len(),
    decreases cs.len() - i,
{
    if i < cs.len() && is_digit(cs[i]) {
        lemma_digits_end(cs, i + 1);
    }
}

proof fn lemma_line_end(cs: Seq<char>, i: int)
    requires
        0 <= i <= cs.len(),
    ensures
        i <= line_end(cs, i) <= cs.len(),
    decreases cs.len() - i,
{
    if i < cs.len() && cs[i] != '\n' {
        lemma_line_end(cs, i + 1);
    }
}

proof fn lemma_string_close(cs: Seq<char>, j: int)
    requires
        0 <= j <= cs.len(),
    ensures
        string_close(cs, j) == -1 || j < string_close(cs, j) <= cs.len(),
    decreases cs.len() - j,
{
    if j < cs.len() && cs[j] != '\n' && cs[j] != '"' {
        if cs[j] == '\\' && j + 1 < cs.len() && cs[j + 1] != '\n' {
            lemma_string_close(cs, j + 2);
        } else {
            lemma_string_close(cs, j + 1);
        }
    }
}

/// Every step advances and stays inside the text.
pub proof fn lemma_scan_bounds(cs: Seq<char>, i: int)
    requires
        0 <= i < cs.len(),
    ensures
        i < scan(cs, i).end <= cs.len(),
{
    let c = cs[i];
    if is_ws(c) {
        lemma_ws_end(cs, i + 1);
    } else if c == '/' && i + 1 < cs.len() && cs[i + 1] == '/' {
        lemma_line_end(cs, i + 2);
    } else if is_ident_start(c) {
        lemma_ident_end(cs, i + 1);
    } else if is_digit(c) {
        lemma_digits_end(cs, i + 1);
    } else if c == '"' {
        lemma_string_close(cs, i + 1);
    }
}

fn ws_end_exec(cs: &Vec<char>, i: usize) -> (j: usize)
    requires
        i <= cs.len(),
    ensures
        j == ws_end(cs@, i as int),
{
    let mut j = i;
    while j < cs.len() && (cs[j] == ' ' || cs[j] == '\t' || cs[j] == '\r' || cs[j] == '\n')
        invariant
            i <= j <= cs.len(),
            ws_end(cs@, j as int) == ws_end(cs@, i as int),
        decreases cs.len() - j,
    {
        j += 1;
    }
    j
}

fn ident_end_exec(cs: &Vec<char>, i: usize) -> (j: usize)
    requires
        i <= cs.len(),
    ensures
        j == ident_end(cs@, i as int),
{
    let mut j = i;
    while j < cs.len() && (('A' <= cs[j] && cs[j] <= 'Z') || ('a' <= cs[j] && cs[j] <= 'z')
        || cs[j] == '_' || ('0' <= cs[j] && cs[j] <= '9'))
        invariant
            i <= j <= cs.len(),
            ident_end(cs@, j as int) == ident_end(cs@, i as int),
        decreases cs.len() - j,
    {
        j += 1;
    }
    j
}

fn digits_end_exec(cs: &Vec<char>, i: usize) -> (j: usize)
    requires
        i <= cs.len(),
    ensures
        j == digits_end(cs@, i as int),
{
    let mut j = i;
    while j < cs.len() && '0' <= cs[j] && cs[j] <= '9'
        invariant
            i <= j <= cs.len(),
            digits_end(cs@, j as int) == digits_end(cs@, i as int),
        decreases cs.len() - j,
    {
        j += 1;
    }
    j
}

fn line_end_exec(cs: &Vec<char>, i: usize) -> (j: usize)
    requires
        i <= cs.len(),
    ensures
        j == line_end(cs@, i as int),
{
    let mut j = i;
    while j < cs.len() && cs[j] != '\n'
        invariant
            i <= j <= cs.len(),
            line_end(cs@, j as int) == line_end(cs@, i as int),
        decreases cs.len() - j,
    {
        j += 1;
    }
    j
}

fn string_close_exec(cs: &Vec<char>, j: usize) -> (r: Option<usize>)
    requires
        j <= cs.len(),
    ensures
        match r {
            Some(e) => e as int == string_close(cs@, j as int),
            None => string_close(cs@, j as int) == -1,
        },
{
    let mut k = j;
    while k < cs.len() && cs[k] != '\n' && cs[k] != '"'
        invariant
            j <= k <= cs.len(),
            string_close(cs@, k as int) == string_close(cs@, j as int),
        decreases cs.len() - k,
    {
        if cs[k] == '\\' && k + 1 < cs.len() && cs[k + 1] != '\n' {
            k += 2;
        } else {
            k += 1;
        }
    }
    if k < cs.len() && cs[k] == '"' {
        Some(k + 1)
    } else {
        None
    }
}

fn matches_word(cs: &Vec<char>, i: usize, j: usize, word: &[char]) -> (b: bool)
    requires
        i <= j <= cs.len(),
    ensures
        b == (cs@.subrange(i as int, j as int) == word@),
{
    let ghost w = cs@.subrange(i as int, j as int);
    if j - i != word.len() {
        assert(w.len() != word@.len());
        return false;
    }
    let mut k: usize = 0;
    while k < word.len()
        invariant
            j - i == word.len(),
            i <= j <= cs.len(),
            k <= word.len(),
            w == cs@.subrange(i as int, j as int),
            forall|m: int| 0 <= m < k ==> w[m] == word@[m],
        decreases word.len() - k,
    {
        if cs[i + k] != word[k] {
            assert(w[k as int] != word@[k as int]);
            return false;
        }
        k += 1;
    }
    assert(w =~= word@);
    true
}

fn keyword_kind_exec(cs: &Vec<char>, i: usize, j: usize) -> (k: Option<TokenKind>)
    requires
        i <= j <= cs.len(),
    ensures
        k == keyword_kind(cs@.subrange(i as int, j as int)),
{
    let fn_word = ['f', 'n'];
    let let_word = ['l', 'e', 't'];
    let module_word = ['m', 'o', 'd', 'u', 'l', 'e'];
    let effect_word = ['e', 'f', 'f', 'e', 'c', 't'];
    let perform_word = ['p', 'e', 'r', 'f', 'o', 'r', 'm'];
    let if_word = ['i', 'f'];
    let then_word = ['t', 'h', 'e', 'n'];
    let else_word = ['e', 'l', 's', 'e'];
    let true_word = ['t', 'r', 'u', 'e'];
    let false_word = ['f', 'a', 'l', 's', 'e'];
    assert(perform_word@ =~= seq!['p', 'e', 'r', 'f', 'o', 'r', 'm']);
    assert(if_word@ =~= seq!['i', 'f']);
    assert(then_word@ =~= seq!['t', 'h', 'e', 'n']);
    assert(else_word@ =~= seq!['e', 'l', 's', 'e']);
    assert(true_word@ =~= seq!['t', 'r', 'u', 'e']);
    assert(false_word@ =~= seq!['f', 'a', 'l', 's', 'e']);
    assert(fn_word@ =~= seq!['f', 'n']);
    assert(let_word@ =~= seq!['l', 'e', 't']);
    assert(module_word@ =~= seq!['m', 'o', 'd', 'u', 'l', 'e']);
    assert(effect_word@ =~= seq!['e', 'f', 'f', 'e', 'c', 't']);
    if matches_word(cs, i, j, &fn_word) {
        Some(TokenKind::KeywordFn)
    } else if matches_word(cs, i, j, &let_word) {
        Some(TokenKind::KeywordLet)
    } else if matches_word(cs, i, j, &module_word) {
        Some(TokenKind::KeywordModule)
    } else if matches_word(cs, i, j, &effect_word) {
        Some(TokenKind::KeywordEffect)
    } else if matches_word(cs, i, j, &perform_word) {
        Some(TokenKind::KeywordPerform)
    } else if matches_word(cs, i, j, &if_word) {
        Some(TokenKind::KeywordIf)
    } else if matches_word(cs, i, j, &then_word) {
        Some(TokenKind::KeywordThen)
    } else if matches_word(cs, i, j, &else_word) {
        Some(TokenKind::KeywordElse)
    } else if matches_word(cs, i, j, &true_word) {
        Some(TokenKind::KeywordTrue)
    } else if matches_word(cs, i, j, &false_word) {
        Some(TokenKind::KeywordFalse)
    } else {
        None
    }
}

fn punct_kind_exec(c: char) -> (k: Option<TokenKind>)
    ensures
        k == punct_kind(c),
{
    if c == '(' {
        Some(TokenKind::LParen)
    } else if c == ')' {
        Some(TokenKind::RParen)
    } else if c == '{' {
        Some(TokenKind::LBrace)
    } else if c == '}' {
        Some(TokenKind::RBrace)
    } else if c == '[' {
        Some(TokenKind::LBracket)
    } else if c == ']' {
        Some(TokenKind::RBracket)
    } else if c == ',' {
        Some(TokenKind::Comma)
    } else if c == ':' {
        Some(TokenKind::Colon)
    } else if c == ';' {
        Some(TokenKind::Semi)
    } else if c == '=' {
        Some(TokenKind::Assign)
    } else if c == '+' || c == '-' || c == '*' || c == '/' || c == '%' || c == '<' || c == '>' {
        Some(TokenKind::Operator)
    } else {
        None
    }
}

/// Whether a token kind carries its text.
fn has_lexeme_exec(kind: TokenKind) -> (b: bool)
    ensures
        b == has_lexeme(kind),
{
    match kind {
        TokenKind::KeywordFn | TokenKind::KeywordLet | TokenKind::KeywordModule
        | TokenKind::KeywordEffect | TokenKind::KeywordPerform | TokenKind::KeywordIf
        | TokenKind::KeywordThen | TokenKind::KeywordElse | TokenKind::KeywordTrue
        | TokenKind::KeywordFalse | TokenKind::Identifier | TokenKind::IntLiteral
        | TokenKind::StringLiteral | TokenKind::Operator => true,
        _ => false,
    }
}

/// The step at `i` computed on the characters: its kind (`None` for a skip,
/// `Some(Ok(k))` for a token, `Some(Err(()))` for an unknown token) and its end.
fn scan_exec(cs: &Vec<char>, i: usize) -> (r: (Option<Result<TokenKind, ()>>, usize))
    requires
        i < cs.len(),
    ensures
        r.1 == scan(cs@, i as int).end,
        match scan(cs@, i as int).kind {
            StepKind::Skip => r.0 is None,
            StepKind::Emit(k) => r.0 == Some(Ok::<TokenKind, ()>(k)),
            StepKind::Unknown => r.0 == Some(Err::<TokenKind, ()>(())),
        },
{
    let c = cs[i];
    if c == ' ' || c == '\t' || c == '\r' || c == '\n' {
        (None, ws_end_exec(cs, i))
    } else if c == '/' && i + 1 < cs.len() && cs[i + 1] == '/' {
        (None, line_end_exec(cs, i + 2))
    } else if ('A' <= c && c <= 'Z') || ('a' <= c && c <= 'z') || c == '_' {
        proof {
            lemma_ident_end(cs@, i + 1);
        }
        let e = ident_end_exec(cs, i + 1);
        let kind = match keyword_kind_exec(cs, i, e) {
            Some(k) => k,
            None => TokenKind::Identifier,
        };
        (Some(Ok(kind)), e)
    } else if '0' <= c && c <= '9' {
        (Some(Ok(TokenKind::IntLiteral)), digits_end_exec(cs, i + 1))
    } else if c == '"' {
        proof {
            lemma_string_close(cs@, i + 1);
        }
        match string_close_exec(cs, i + 1) {
            Some(e) => (Some(Ok(TokenKind::StringLiteral)), e),
            None => (Some(Err(())), i + 1),
        }
    } else if c == '-' && i + 1 < cs.len() && cs[i + 1] == '>' {
        (Some(Ok(TokenKind::Arrow)), i + 2)
    } else if i + 1 < cs.len() && (c == '=' || c == '!' || c == '<' || c == '>') && cs[i + 1] == '=' {
        (Some(Ok(TokenKind::Operator)), i + 2)
    } else {
        match punct_kind_exec(c) {
            Some(k) => (Some(Ok(k)), i + 1),
            None => (Some(Err(())), i + 1),
        }
    }
}

/// Adds the byte widths of `cs[i..j]` to `b`, the byte offset of `i`.
fn advance_bytes(cs: &Vec<char>, i: usize, j: usize, b: usize) -> (r: usize)
    requires
        i <= j <= cs.len(),
        b == byte_offset(cs@, i as int),
        vstd::utf8::encode_utf8(cs@).len() <= usize::MAX,
    ensures
        r == byte_offset(cs@, j as int),
{
    let mut k = i;
    let mut r = b;
    while k < j
        invariant
            i <= k <= j <= cs.len(),
            r == byte_offset(cs@, k as int),
            vstd::utf8::encode_utf8(cs@).len() <= usize::MAX,
        decreases j - k,
    {
        proof {
            crate::text::lemma_byte_offset_step(cs@, k as int);
            crate::text::lemma_byte_offset_mono(cs@, k + 1, cs@.len() as int);
        }
        r = r + char_width(cs[k]);
        k += 1;
    }
    r
}

/// Lexes `text` into tokens followed by an end-of-file token, and the
/// errors for characters that start no token.
pub fn lex_source(text: &str) -> (out: LexOutput)
    ensures
        out.token_models() == lex_tokens(text@),
        out.errors@ == lex_errors(text@),
{
    let cs = chars_of(text);
    let n = cs.len();
    let ghost s = cs@;
    let mut tokens: Vec<Token> = Vec::new();
    let mut errors: Vec<FrontendError> = Vec::new();
    let mut i: usize = 0;
    let mut b: usize = 0;
    proof {
        assert(s.take(0) =~= Seq::<char>::empty());
        assert(vstd::utf8::encode_utf8(Seq::<char>::empty()) =~= Seq::<u8>::empty());
        assert(tokens@.map_values(|t: Token| t.model()) =~= Seq::<TokenModel>::empty());
    }
    let bytes = text.as_bytes();
    let len = bytes.len();
    assert(bytes@.len() == vstd::utf8::encode_utf8(s).len());
    while i < n
        invariant
            s == cs@,
            s == text@,
            n == cs.len(),
            i <= n,
            b == byte_offset(s, i as int),
            vstd::utf8::encode_utf8(s).len() == len,
            tokens@.map_values(|t: Token| t.model()) + lex_from(s, i as int).0 == lex_from(s, 0).0,
            errors@ + lex_from(s, i as int).1 == lex_from(s, 0).1,
        decreases n - i,
    {
        proof {
            lemma_scan_bounds(s, i as int);
        }
        let (act, e) = scan_exec(&cs, i);
        let be = advance_bytes(&cs, i, e, b);
        let span = Span::new(b as u32, be as u32);
        let ghost old_tokens = tokens@.map_values(|t: Token| t.model());
        let ghost old_errors = errors@;
        match act {
            None => {},
            Some(Ok(kind)) => {
                let lexeme = if has_lexeme_exec(kind) {
                    Some(string_of_range(&cs, i, e))
                } else {
                    None
                };
                let tok = Token { kind, span, lexeme };
                tokens.push(tok);
                proof {
                    assert(tok.model() == token_at(s, i as int, e as int, kind));
                    assert(tokens@.map_values(|t: Token| t.model()) =~= old_tokens.push(
                        tok.model(),
                    ));
                    let rest = lex_from(s, e as int);
                    assert(lex_from(s, i as int).0 =~= seq![tok.model()] + rest.0);
                    assert(old_tokens.push(tok.model()) + rest.0 =~= old_tokens + (seq![
                        tok.model(),
                    ] + rest.0));
                }
            },
            Some(Err(())) => {
                let err = FrontendError::new(
                    FrontendErrorKind::UnknownToken { span },
                    Recoverability::Recoverable,
                );
                errors.push(err);
                proof {
                    let rest = lex_from(s, e as int);
                    assert(err == unknown_at(s, i as int, e as int));
                    assert(lex_from(s, i as int).1 =~= seq![err] + rest.1);
                    assert(old_errors.push(err) + rest.1 =~= old_errors + (seq![err] + rest.1));
                }
            },
        }
        i = e;
        b = be;
    }
    proof {
        assert(lex_from(s, n as int).0 =~= Seq::<TokenModel>::empty());
        assert(lex_from(s, n as int).1 =~= Seq::<FrontendError>::empty());
        assert(tokens@.map_values(|t: Token| t.model()) =~= lex_from(s, 0).0);
        assert(errors@ =~= lex_from(s, 0).1);
    }
    let eof = Token::new(TokenKind::EndOfFile, Span::new(len as u32, len as u32));
    let ghost before = tokens@.map_values(|t: Token| t.model());
    tokens.push(eof);
    proof {
        assert(tokens@.map_values(|t: Token| t.model()) =~= before.push(eof.model()));
    }
    LexOutput { tokens, errors }
}

/// Spans of a token list lie in `[lo, hi]`, run forward, and follow one another.
pub open spec fn tokens_in_order(ts: Seq<TokenModel>, lo: int, hi: int) -> bool {
    &&& forall|k: int|
        0 <= k < ts.len() ==> lo <= #[trigger] ts[k].span.start <= ts[k].span.end <= hi
    &&& forall|k: int| 0 <= k < ts.len() - 1 ==> #[trigger] ts[k].span.end <= ts[k + 1].span.start
}

/// The span of an unknown-token error.
pub open spec fn error_span(e: FrontendError) -> Span {
    match e.kind {
        FrontendErrorKind::UnknownToken { span } => span,
    }
}

/// Error spans lie in `[lo, hi]`, run forward, and follow one another.
pub open spec fn errors_in_order(es: Seq<FrontendError>, lo: int, hi: int) -> bool {
    &&& forall|k: int|
        0 <= k < es.len() ==> lo <= #[trigger] error_span(es[k]).start <= error_span(es[k]).end
            <= hi
    &&& forall|k: int|
        0 <= k < es.len() - 1 ==> #[trigger] error_span(es[k]).end <= error_span(es[k + 1]).start
}

#[verifier::spinoff_prover]
#[verifier::rlimit(40)]
proof fn lemma_lex_from_in_order(cs: Seq<char>, i: int)
    requires
        0 <= i <= cs.len(),
        vstd::utf8::encode_utf8(cs).len() <= u32::MAX,
    ensures
        tokens_in_order(lex_from(cs, i).0, byte_offset(cs, i) as int, vstd::utf8::encode_utf8(cs).len() as int),
        errors_in_order(lex_from(cs, i).1, byte_offset(cs, i) as int, vstd::utf8::encode_utf8(cs).len() as int),
        forall|k: int| 0 <= k < lex_from(cs, i).0.len() ==> (#[trigger] lex_from(cs, i).0[k]).kind != TokenKind::EndOfFile,
        forall|k: int| 0 <= k < lex_from(cs, i).0.len() ==> ((#[trigger] lex_from(cs, i).0[k]).kind == TokenKind::Identifier
            ==> keyword_kind(lex_from(cs, i).0[k].lexeme->0) is None),
    decreases cs.len() - i,
{
    let total = vstd::utf8::encode_utf8(cs).len() as int;
    if i < cs.len() {
        lemma_scan_bounds(cs, i);
        let step = scan(cs, i);
        let e = step.end;
        crate::text::lemma_byte_offset_mono(cs, i, e);
        crate::text::lemma_byte_offset_mono(cs, e, cs.len() as int);
        lemma_lex_from_in_order(cs, e);
        let rest = lex_from(cs, e);
        match step.kind {
            StepKind::Skip => {},
            StepKind::Emit(kd) => {
                let t = token_at(cs, i, e, kd);
                let ts = seq![t] + rest.0;
                assert(lex_from(cs, i).0 == ts);
                assert(t.span.start == byte_offset(cs, i));
                assert(t.span.end == byte_offset(cs, e));
                assert forall|k: int| 0 <= k < ts.len() - 1 implies #[trigger] ts[k].span.end
                    <= ts[k + 1].span.start by {
                    if k == 0 {
                        assert(ts[1] == rest.0[0]);
                    } else {
                        assert(ts[k] == rest.0[k - 1]);
                        assert(ts[k + 1] == rest.0[k]);
                    }
                }
                assert forall|k: int| 0 <= k < ts.len() implies byte_offset(cs, i) <= #[trigger] ts[k].span.start
                    <= ts[k].span.end <= total by {
                    if k > 0 {
                        assert(ts[k] == rest.0[k - 1]);
                    }
                }
                assert forall|k: int| 0 <= k < ts.len() implies (#[trigger] ts[k]).kind != TokenKind::EndOfFile
                    && (ts[k].kind == TokenKind::Identifier ==> keyword_kind(ts[k].lexeme->0) is None) by {
                    if k > 0 {
                        assert(ts[k] == rest.0[k - 1]);
                    } else {
                        if kd == TokenKind::Identifier {
                            assert(is_ident_start(cs[i]));
                        }
                    }
                }
            },
            StepKind::Unknown => {
                let er = unknown_at(cs, i, e);
                let es = seq![er] + rest.1;
                assert(lex_from(cs, i).1 == es);
                assert forall|k: int| 0 <= k < es.len() - 1 implies #[trigger] error_span(es[k]).end
                    <= error_span(es[k + 1]).start by {
                    if k == 0 {
                        assert(es[1] == rest.1[0]);
                    } else {
                        assert(es[k] == rest.1[k - 1]);
                        assert(es[k + 1] == rest.1[k]);
                    }
                }
                assert forall|k: int| 0 <= k < es.len() implies byte_offset(cs, i) <= #[trigger] error_span(es[k]).start
                    <= error_span(es[k]).end <= total by {
                    if k > 0 {
                        assert(es[k] == rest.1[k - 1]);
                    }
                }
            },
        }
    }
}

/// Law of the lexer: for a text whose UTF-8 length fits in a `u32`, token
/// spans and error spans are well formed, lie inside the text, and come in
/// source order without overlapping; the end-of-file token comes last, sits
/// at the text's byte length, and no other token has that kind; and no
/// identifier token spells a keyword.
pub proof fn lemma_lex_tokens_ordered(text: Seq<char>)
    requires
        vstd::utf8::encode_utf8(text).len() <= u32::MAX,
    ensures
        tokens_in_order(lex_tokens(text), 0, vstd::utf8::encode_utf8(text).len() as int),
        errors_in_order(lex_errors(text), 0, vstd::utf8::encode_utf8(text).len() as int),
        lex_tokens(text).last().kind == TokenKind::EndOfFile,
        lex_tokens(text).last().span.start == vstd::utf8::encode_utf8(text).len(),
        forall|k: int| 0 <= k < lex_tokens(text).len() - 1 ==> (#[trigger] lex_tokens(text)[k]).kind
            != TokenKind::EndOfFile,
        forall|k: int| 0 <= k < lex_tokens(text).len() ==> ((#[trigger] lex_tokens(text)[k]).kind
            == TokenKind::Identifier ==> keyword_kind(lex_tokens(text)[k].lexeme->0) is None),
{
    let total = vstd::utf8::encode_utf8(text).len() as int;
    lemma_lex_from_in_order(text, 0);
    assert(text.take(0) =~= Seq::<char>::empty());
    assert(vstd::utf8::encode_utf8(Seq::<char>::empty()) =~= Seq::<u8>::empty());
    let ts = lex_from(text, 0).0;
    let all = lex_tokens(text);
    assert(all == ts.push(eof_token(total as nat)));
    assert forall|k: int| 0 <= k < all.len() - 1 implies #[trigger] all[k].span.end
        <= all[k + 1].span.start by {
        if k < ts.len() - 1 {
            assert(all[k] == ts[k] && all[k + 1] == ts[k + 1]);
        } else {
            assert(all[k] == ts[k]);
            assert(ts[k].span.start <= ts[k].span.end <= total);
            assert(all[k + 1] == eof_token(total as nat));
        }
    }
    assert forall|k: int| 0 <= k < all.len() implies 0 <= #[trigger] all[k].span.start
        <= all[k].span.end <= total by {
        if k < ts.len() {
            assert(all[k] == ts[k]);
        }
    }
    assert forall|k: int| 0 <= k < all.len() - 1 implies (#[trigger] all[k]).kind != TokenKind::EndOfFile by {
        assert(all[k] == ts[k]);
    }
    assert forall|k: int| 0 <= k < all.len() implies ((#[trigger] all[k]).kind == TokenKind::Identifier
        ==> keyword_kind(all[k].lexeme->0) is None) by {
        if k < ts.len() {
            assert(all[k] == ts[k]);
        }
    }
}

/// An ASCII letter or `_`: a character that may begin a word.
pub open spec fn word_start_char(c: char) -> bool {
    ('A' <= c && c <= 'Z') || ('a' <= c && c <= 'z') || c == '_'
}

/// An ASCII letter, digit or `_`: a character that may continue a word.
pub open spec fn word_char(c: char) -> bool {
    ('A' <= c && c <= 'Z') || ('a' <= c && c <= 'z') || ('0' <= c && c <= '9') || c == '_'
}

/// The kinds of tokens that spell words: identifiers and keywords.
pub open spec fn is_word_kind(k: TokenKind) -> bool {
    k == TokenKind::Identifier || k == TokenKind::KeywordFn || k == TokenKind::KeywordLet
        || k == TokenKind::KeywordModule || k == TokenKind::KeywordEffect || k
        == TokenKind::KeywordPerform || k == TokenKind::KeywordIf || k == TokenKind::KeywordThen
        || k == TokenKind::KeywordElse || k == TokenKind::KeywordTrue || k == TokenKind::KeywordFalse
}

/// The keyword a word names: `fn`, `let`, `module`, `effect`, `perform`,
/// `if`, `then`, `else`, `true` and `false`; any other word names none.
pub open spec fn keyword_named(w: Seq<char>) -> Option<TokenKind> {
    if w == "fn"@ {
        Some(TokenKind::KeywordFn)
    } else if w == "let"@ {
        Some(TokenKind::KeywordLet)
    } else if w == "module"@ {
        Some(TokenKind::KeywordModule)
    } else if w == "effect"@ {
        Some(TokenKind::KeywordEffect)
    } else if w == "perform"@ {
        Some(TokenKind::KeywordPerform)
    } else if w == "if"@ {
        Some(TokenKind::KeywordIf)
    } else if w == "then"@ {
        Some(TokenKind::KeywordThen)
    } else if w == "else"@ {
        Some(TokenKind::KeywordElse)
    } else if w == "true"@ {
        Some(TokenKind::KeywordTrue)
    } else if w == "false"@ {
        Some(TokenKind::KeywordFalse)
    } else {
        None
    }
}

proof fn lemma_keyword_tables_agree(w: Seq<char>)
    ensures
        keyword_named(w) == keyword_kind(w),
{
    reveal_strlit("fn");
    reveal_strlit("let");
    reveal_strlit("module");
    reveal_strlit("effect");
    reveal_strlit("perform");
    reveal_strlit("if");
    reveal_strlit("then");
    reveal_strlit("else");
    reveal_strlit("true");
    reveal_strlit("false");
    assert("fn"@ =~= seq!['f', 'n']);
    assert("let"@ =~= seq!['l', 'e', 't']);
    assert("module"@ =~= seq!['m', 'o', 'd', 'u', 'l', 'e']);
    assert("effect"@ =~= seq!['e', 'f', 'f', 'e', 'c', 't']);
    assert("perform"@ =~= seq!['p', 'e', 'r', 'f', 'o', 'r', 'm']);
    assert("if"@ =~= seq!['i', 'f']);
    assert("then"@ =~= seq!['t', 'h', 'e', 'n']);
    assert("else"@ =~= seq!['e', 'l', 's', 'e']);
    assert("true"@ =~= seq!['t', 'r', 'u', 'e']);
    assert("false"@ =~= seq!['f', 'a', 'l', 's', 'e']);
}

/// The kind of a word token: the keyword it names, else an identifier.
pub open spec fn word_kind_of(w: Seq<char>) -> TokenKind {
    match keyword_named(w) {
        Some(k) => k,
        None => TokenKind::Identifier,
    }
}

/// Token `t` is the whole word at characters `[i, j)` of `cs`: the word
/// starts with a letter or `_`, goes on with letters, digits and `_`, and
/// is followed by the end of the text or by another character; the token's
/// text is the word and its span the word's bytes.
pub open spec fn whole_word_token(cs: Seq<char>, i: int, j: int, t: TokenModel) -> bool {
    &&& 0 <= i < j <= cs.len()
    &&& word_start_char(cs[i])
    &&& forall|m: int| i < m < j ==> #[trigger] word_char(cs[m])
    &&& (j == cs.len() || !word_char(cs[j]))
    &&& t.lexeme == Some(cs.subrange(i, j))
    &&& t.span == span_of(cs, i, j)
    &&& t.kind == word_kind_of(cs.subrange(i, j))
}

proof fn lemma_ident_end_props(cs: Seq<char>, i: int)
    requires
        0 <= i <= cs.len(),
    ensures
        forall|m: int| i <= m < ident_end(cs, i) ==> is_ident_continue(#[trigger] cs[m]),
        ident_end(cs, i) == cs.len() || !is_ident_continue(cs[ident_end(cs, i)]),
        i <= ident_end(cs, i) <= cs.len(),
    decreases cs.len() - i,
{
    if i < cs.len() && is_ident_continue(cs[i]) {
        lemma_ident_end_props(cs, i + 1);
    }
}

proof fn lemma_lex_from_words(cs: Seq<char>, i: int)
    requires
        0 <= i <= cs.len(),
    ensures
        forall|k: int|
            0 <= k < lex_from(cs, i).0.len() && is_word_kind((#[trigger] lex_from(cs, i).0[k]).kind)
                ==> exists|p: int, q: int| whole_word_token(cs, p, q, lex_from(cs, i).0[k]),
    decreases cs.len() - i,
{
    if i < cs.len() {
        lemma_scan_bounds(cs, i);
        let step = scan(cs, i);
        let e = step.end;
        lemma_lex_from_words(cs, e);
        let rest = lex_from(cs, e);
        match step.kind {
            StepKind::Emit(kd) => {
                let t = token_at(cs, i, e, kd);
                let ts = seq![t] + rest.0;
                assert(lex_from(cs, i).0 == ts);
                if is_word_kind(kd) {
                    assert(is_ident_start(cs[i]));
                    lemma_ident_end_props(cs, i + 1);
                    assert(e == ident_end(cs, i + 1));
                    assert forall|m: int| i < m < e implies #[trigger] word_char(cs[m]) by {
                        assert(is_ident_continue(cs[m]));
                    }
                    assert(has_lexeme(kd));
                    lemma_keyword_tables_agree(cs.subrange(i, e));
                    assert(whole_word_token(cs, i, e, t));
                }
                assert forall|k: int|
                    0 <= k < ts.len() && is_word_kind((#[trigger] ts[k]).kind) implies exists|p: int, q: int|
                    whole_word_token(cs, p, q, ts[k]) by {
                    if k > 0 {
                        assert(ts[k] == rest.0[k - 1]);
                    }
                }
            },
            _ => {},
        }
    }
}

/// Identifiers and keywords are whole words: every token of an identifier
/// or keyword kind is the word at some characters `[i, j)` of the text,
/// starting with an ASCII letter or `_`, made of ASCII letters, digits and
/// `_`, and not followed by another such character; its text is that word
/// and its span the word's bytes; its kind is the keyword the word names,
/// or identifier when it names none. (So `x1` is one identifier.)
pub proof fn lemma_word_tokens_are_whole_words(text: Seq<char>)
    ensures
        forall|k: int|
            0 <= k < lex_tokens(text).len() && is_word_kind((#[trigger] lex_tokens(text)[k]).kind)
                ==> exists|i: int, j: int| whole_word_token(text, i, j, lex_tokens(text)[k]),
{
    lemma_lex_from_words(text, 0);
    let ts = lex_from(text, 0).0;
    let all = lex_tokens(text);
    assert forall|k: int|
        0 <= k < all.len() && is_word_kind((#[trigger] all[k]).kind) implies exists|i: int, j: int|
        whole_word_token(text, i, j, all[k]) by {
        if k < ts.len() {
            assert(all[k] == ts[k]);
        }
    }
}

/// Token `t` is the whole number at characters `[i, j)` of `cs`: ASCII
/// digits not followed by another digit; the token's text is the digits and
/// its span their bytes.
pub open spec fn whole_number_token(cs: Seq<char>, i: int, j: int, t: TokenModel) -> bool {
    &&& 0 <= i < j <= cs.len()
    &&& forall|m: int| i <= m < j ==> '0' <= #[trigger] cs[m] && cs[m] <= '9'
    &&& (j == cs.len() || !('0' <= cs[j] && cs[j] <= '9'))
    &&& t.lexeme == Some(cs.subrange(i, j))
    &&& t.span == span_of(cs, i, j)
}

proof fn lemma_digits_end_props(cs: Seq<char>, i: int)
    requires
        0 <= i <= cs.len(),
    ensures
        forall|m: int| i <= m < digits_end(cs, i) ==> is_digit(#[trigger] cs[m]),
        digits_end(cs, i) == cs.len() || !is_digit(cs[digits_end(cs, i)]),
        i <= digits_end(cs, i) <= cs.len(),
    decreases cs.len() - i,
{
    if i < cs.len() && is_digit(cs[i]) {
        lemma_digits_end_props(cs, i + 1);
    }
}

proof fn lemma_lex_from_numbers(cs: Seq<char>, i: int)
    requires
        0 <= i <= cs.len(),
    ensures
        forall|k: int|
            0 <= k < lex_from(cs, i).0.len() && (#[trigger] lex_from(cs, i).0[k]).kind
                == TokenKind::IntLiteral ==> exists|p: int, q: int|
                whole_number_token(cs, p, q, lex_from(cs, i).0[k]),
    decreases cs.len() - i,
{
    if i < cs.len() {
        lemma_scan_bounds(cs, i);
        let step = scan(cs, i);
        let e = step.end;
        lemma_lex_from_numbers(cs, e);
        let rest = lex_from(cs, e);
        match step.kind {
            StepKind::Emit(kd) => {
                let t = token_at(cs, i, e, kd);
                let ts = seq![t] + rest.0;
                assert(lex_from(cs, i).0 == ts);
                if kd == TokenKind::IntLiteral {
                    assert(is_digit(cs[i]));
                    lemma_digits_end_props(cs, i + 1);
                    assert(e == digits_end(cs, i + 1));
                    assert forall|m: int| i <= m < e implies '0' <= #[trigger] cs[m] && cs[m] <= '9' by {
                        if m > i {
                            assert(is_digit(cs[m]));
                        }
                    }
                    assert(whole_number_token(cs, i, e, t));
                }
                assert forall|k: int|
                    0 <= k < ts.len() && (#[trigger] ts[k]).kind == TokenKind::IntLiteral implies exists|
                    p: int,
                    q: int,
                | whole_number_token(cs, p, q, ts[k]) by {
                    if k > 0 {
                        assert(ts[k] == rest.0[k - 1]);
                    }
                }
            },
            _ => {},
        }
    }
}

/// Integer literals are whole numbers: every integer token is a run of
/// ASCII digits of the text not followed by another digit, its text those
/// digits and its span their bytes.
pub proof fn lemma_number_tokens_are_whole_numbers(text: Seq<char>)
    ensures
        forall|k: int|
            0 <= k < lex_tokens(text).len() && (#[trigger] lex_tokens(text)[k]).kind
                == TokenKind::IntLiteral ==> exists|i: int, j: int|
                whole_number_token(text, i, j, lex_tokens(text)[k]),
{
    lemma_lex_from_numbers(text, 0);
    let ts = lex_from(text, 0).0;
    let all = lex_tokens(text);
    assert forall|k: int|
        0 <= k < all.len() && (#[trigger] all[k]).kind == TokenKind::IntLiteral implies exists|
        i: int,
        j: int,
    | whole_number_token(text, i, j, all[k]) by {
        if k < ts.len() {
            assert(all[k] == ts[k]);
        }
    }
}

/// The operator texts: `+ - * / % < >` and `== != <= >=`.
pub open spec fn operator_text(w: Seq<char>) -> bool {
    w == seq!['+'] || w == seq!['-'] || w == seq!['*'] || w == seq!['/'] || w == seq!['%'] || w
        == seq!['<'] || w == seq!['>'] || w == seq!['=', '='] || w == seq!['!', '='] || w == seq![
        '<',
        '=',
    ] || w == seq!['>', '=']
}

/// Token `t` is the operator at characters `[i, j)` of `cs`: its text is an
/// operator text, and a one-character `<` or `>` is not followed by `=`
/// (which would make it two characters long).
pub open spec fn whole_operator_token(cs: Seq<char>, i: int, j: int, t: TokenModel) -> bool {
    &&& 0 <= i < j <= cs.len()
    &&& operator_text(cs.subrange(i, j))
    &&& ((cs[i] == '<' || cs[i] == '>') && j == i + 1 ==> (j == cs.len() || cs[j] != '='))
    &&& t.lexeme == Some(cs.subrange(i, j))
    &&& t.span == span_of(cs, i, j)
}

/// Token `t` is an `=` standing alone at character `i`: not followed by `=`.
pub open spec fn lone_assign_token(cs: Seq<char>, i: int, t: TokenModel) -> bool {
    &&& 0 <= i < cs.len()
    &&& cs[i] == '='
    &&& (i + 1 == cs.len() || cs[i + 1] != '=')
    &&& t.span == span_of(cs, i, i + 1)
}

proof fn lemma_lex_from_operators(cs: Seq<char>, i: int)
    requires
        0 <= i <= cs.len(),
    ensures
        forall|k: int|
            0 <= k < lex_from(cs, i).0.len() && (#[trigger] lex_from(cs, i).0[k]).kind
                == TokenKind::Operator ==> exists|p: int, q: int|
                whole_operator_token(cs, p, q, lex_from(cs, i).0[k]),
        forall|k: int|
            0 <= k < lex_from(cs, i).0.len() && (#[trigger] lex_from(cs, i).0[k]).kind
                == TokenKind::Assign ==> exists|p: int| lone_assign_token(cs, p, lex_from(cs, i).0[k]),
    decreases cs.len() - i,
{
    if i < cs.len() {
        lemma_scan_bounds(cs, i);
        let step = scan(cs, i);
        let e = step.end;
        lemma_lex_from_operators(cs, e);
        let rest = lex_from(cs, e);
        match step.kind {
            StepKind::Emit(kd) => {
                let t = token_at(cs, i, e, kd);
                let ts = seq![t] + rest.0;
                assert(lex_from(cs, i).0 == ts);
                if kd == TokenKind::Operator {
                    if is_op2(cs, i) {
                        assert(e == i + 2);
                        assert(cs.subrange(i, e) =~= seq![cs[i], cs[i + 1]]);
                    } else {
                        assert(e == i + 1);
                        assert(cs.subrange(i, e) =~= seq![cs[i]]);
                    }
                    assert(whole_operator_token(cs, i, e, t));
                }
                if kd == TokenKind::Assign {
                    assert(!is_op2(cs, i));
                    assert(lone_assign_token(cs, i, t));
                }
                assert forall|k: int|
                    0 <= k < ts.len() && (#[trigger] ts[k]).kind == TokenKind::Operator implies exists|
                    p: int,
                    q: int,
                | whole_operator_token(cs, p, q, ts[k]) by {
                    if k > 0 {
                        assert(ts[k] == rest.0[k - 1]);
                    }
                }
                assert forall|k: int|
                    0 <= k < ts.len() && (#[trigger] ts[k]).kind == TokenKind::Assign implies exists|p: int|
                    lone_assign_token(cs, p, ts[k]) by {
                    if k > 0 {
                        assert(ts[k] == rest.0[k - 1]);
                    }
                }
            },
            _ => {},
        }
    }
}

/// Operators are read whole: every operator token's text is one of
/// `+ - * / % < > == != <= >=` taken from the text, a `<` or `>` followed by
/// `=` is read with it, and an `=` is an assignment only when no `=`
/// follows it.
pub proof fn lemma_operator_tokens_are_whole(text: Seq<char>)
    ensures
        forall|k: int|
            0 <= k < lex_tokens(text).len() && (#[trigger] lex_tokens(text)[k]).kind
                == TokenKind::Operator ==> exists|i: int, j: int|
                whole_operator_token(text, i, j, lex_tokens(text)[k]),
        forall|k: int|
            0 <= k < lex_tokens(text).len() && (#[trigger] lex_tokens(text)[k]).kind
                == TokenKind::Assign ==> exists|i: int| lone_assign_token(text, i, lex_tokens(text)[k]),
{
    lemma_lex_from_operators(text, 0);
    let ts = lex_from(text, 0).0;
    let all = lex_tokens(text);
    assert forall|k: int|
        0 <= k < all.len() && (#[trigger] all[k]).kind == TokenKind::Operator implies exists|
        i: int,
        j: int,
    | whole_operator_token(text, i, j, all[k]) by {
        if k < ts.len() {
            assert(all[k] == ts[k]);
        }
    }
    assert forall|k: int|
        0 <= k < all.len() && (#[trigger] all[k]).kind == TokenKind::Assign implies exists|i: int|
        lone_assign_token(text, i, all[k]) by {
        if k < ts.len() {
            assert(all[k] == ts[k]);
        }
    }
}

/// A lexer over a borrowed source.
pub struct Lexer<'input> {
    source: &'input str,
}

impl<'input> Lexer<'input> {
    /// The text this lexer reads.
    pub closed spec fn text(&self) -> Seq<char> {
        self.source@
    }

    pub fn new<S: SourceBuffer>(source: &'input S) -> (l: Lexer<'input>)
        ensures
            l.text() == source.source_text(),
    {
        Lexer { source: source.as_str() }
    }

    /// Lexes the whole source.
    pub fn run(&self) -> (out: LexOutput)
        ensures
            out.token_models() == lex_tokens(self.text()),
            out.errors@ == lex_errors(self.text()),
    {
        lex_source(self.source)
    }
}

} // verus!
