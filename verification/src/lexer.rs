//! Tokenization of Via source text.
//!
//! `lex` turns a source string into tokens: identifiers and the
//! punctuation the grammar knows.  The spec function `lex_from` is the
//! mathematical statement of that tokenization; `lex` is proved to return
//! exactly its result, or an error exactly when it has none.

use vstd::prelude::*;
use vstd::string::StrSliceExecFns;

verus! {

/// The mathematical form of one token: the identifier text, or one
/// punctuation mark.
pub enum TokView {
    Ident(Seq<char>),
    LBrace,
    RBrace,
    LBracket,
    RBracket,
    LParen,
    RParen,
    Colon,
    Comma,
    Question,
    At,
}

#[derive(Debug, Clone)]
pub enum TokenKind {
    Ident(String),
    LBrace,
    RBrace,
    LBracket,
    RBracket,
    LParen,
    RParen,
    Colon,
    Comma,
    Question,
    At,
}

/// One token together with the line and column (both 1-based) where it
/// starts, kept for error reporting.
#[derive(Debug, Clone)]
pub struct Token {
    pub kind: TokenKind,
    pub line: usize,
    pub col: usize,
}

impl View for Token {
    type V = TokView;

    open spec fn view(&self) -> TokView {
        match self.kind {
            TokenKind::Ident(s) => TokView::Ident(s@),
            TokenKind::LBrace => TokView::LBrace,
            TokenKind::RBrace => TokView::RBrace,
            TokenKind::LBracket => TokView::LBracket,
            TokenKind::RBracket => TokView::RBracket,
            TokenKind::LParen => TokView::LParen,
            TokenKind::RParen => TokView::RParen,
            TokenKind::Colon => TokView::Colon,
            TokenKind::Comma => TokView::Comma,
            TokenKind::Question => TokView::Question,
            TokenKind::At => TokView::At,
        }
    }
}

/// The views of a token sequence.
pub open spec fn toks_view(ts: Seq<Token>) -> Seq<TokView> {
    ts.map_values(|t: Token| t@)
}

/// A character the lexer skips between tokens.
pub open spec fn is_space_char(c: char) -> bool {
    c == ' ' || c == '\t' || c == '\r' || c == '\n'
}

/// A character that may begin an identifier.
pub open spec fn is_ident_start_char(c: char) -> bool {
    ('a' <= c && c <= 'z') || ('A' <= c && c <= 'Z') || c == '_'
}

/// A character that may continue an identifier.
pub open spec fn is_ident_char(c: char) -> bool {
    is_ident_start_char(c) || ('0' <= c && c <= '9')
}

/// A punctuation character of the grammar.
pub open spec fn is_punct_char(c: char) -> bool {
    c == '{' || c == '}' || c == '[' || c == ']' || c == '(' || c == ')' || c == ':' || c == ','
        || c == '?' || c == '@'
}

/// The token a punctuation character stands for (meaningful under
/// `is_punct_char`).
pub open spec fn punct_tok(c: char) -> TokView {
    if c == '{' {
        TokView::LBrace
    } else if c == '}' {
        TokView::RBrace
    } else if c == '[' {
        TokView::LBracket
    } else if c == ']' {
        TokView::RBracket
    } else if c == '(' {
        TokView::LParen
    } else if c == ')' {
        TokView::RParen
    } else if c == ':' {
        TokView::Colon
    } else if c == ',' {
        TokView::Comma
    } else if c == '?' {
        TokView::Question
    } else {
        TokView::At
    }
}

/// The end of the identifier that starts at `i`: the first position at or
/// after `i` whose character no longer belongs to an identifier.
pub open spec fn ident_end(s: Seq<char>, i: int) -> int
    decreases s.len() - i,
{
    if i < s.len() && 0 <= i && is_ident_char(s[i]) {
        ident_end(s, i + 1)
    } else {
        i
    }
}

pub proof fn lemma_ident_end_bounds(s: Seq<char>, i: int)
    requires
        0 <= i <= s.len(),
    ensures
        i <= ident_end(s, i) <= s.len(),
    decreases s.len() - i,
{
    if i < s.len() && is_ident_char(s[i]) {
        lemma_ident_end_bounds(s, i + 1);
    }
}

/// The tokenization of `s` from position `i` on: `None` exactly when a
/// character that fits no token is reached.
pub open spec fn lex_from(s: Seq<char>, i: int) -> Option<Seq<TokView>>
    decreases s.len() - i,
{
    if i < 0 || i >= s.len() {
        Some(Seq::empty())
    } else if is_space_char(s[i]) {
        lex_from(s, i + 1)
    } else if is_ident_start_char(s[i]) {
        let j = ident_end(s, i);
        if i < j <= s.len() {
            match lex_from(s, j) {
                Some(rest) => Some(seq![TokView::Ident(s.subrange(i, j))] + rest),
                None => None,
            }
        } else {
            None
        }
    } else if is_punct_char(s[i]) {
        match lex_from(s, i + 1) {
            Some(rest) => Some(seq![punct_tok(s[i])] + rest),
            None => None,
        }
    } else {
        None
    }
}

/// A character no token can start with, and the place it was found.
#[derive(Debug, Clone)]
pub struct LexError {
    pub line: usize,
    pub col: usize,
}

fn is_space_char_exec(c: char) -> (r: bool)
    ensures
        r == is_space_char(c),
{
    c == ' ' || c == '\t' || c == '\r' || c == '\n'
}

fn is_ident_start_char_exec(c: char) -> (r: bool)
    ensures
        r == is_ident_start_char(c),
{
    ('a' <= c && c <= 'z') || ('A' <= c && c <= 'Z') || c == '_'
}

fn is_ident_char_exec(c: char) -> (r: bool)
    ensures
        r == is_ident_char(c),
{
    is_ident_start_char_exec(c) || ('0' <= c && c <= '9')
}

/// Advances a 1-based position counter, stopping at the largest value
/// rather than wrapping; positions are for diagnostics only.
fn bump(x: usize, d: usize) -> (r: usize) {
    if x <= usize::MAX - d {
        x + d
    } else {
        usize::MAX
    }
}

fn is_punct_char_exec(c: char) -> (r: bool)
    ensures
        r == is_punct_char(c),
{
    c == '{' || c == '}' || c == '[' || c == ']' || c == '(' || c == ')' || c == ':' || c == ','
        || c == '?' || c == '@'
}

fn scan_ident(s: &str, n: usize, i: usize) -> (j: usize)
    requires
        n == s@.len(),
        i <= n,
    ensures
        j == ident_end(s@, i as int),
        i <= j <= n,
    decreases n - i,
{
    if i < n {
        let c = s.get_char(i);
        if is_ident_char_exec(c) {
            return scan_ident(s, n, i + 1);
        }
    }
    i
}

fn punct_kind(c: char) -> (k: TokenKind)
    requires
        is_punct_char(c),
    ensures
        (Token { kind: k, line: 0, col: 0 })@ == punct_tok(c),
{
    if c == '{' {
        TokenKind::LBrace
    } else if c == '}' {
        TokenKind::RBrace
    } else if c == '[' {
        TokenKind::LBracket
    } else if c == ']' {
        TokenKind::RBracket
    } else if c == '(' {
        TokenKind::LParen
    } else if c == ')' {
        TokenKind::RParen
    } else if c == ':' {
        TokenKind::Colon
    } else if c == ',' {
        TokenKind::Comma
    } else if c == '?' {
        TokenKind::Question
    } else {
        TokenKind::At
    }
}

fn lex_at(s: &str, n: usize, i: usize, line: usize, col: usize) -> (r: Result<
    Vec<Token>,
    LexError,
>)
    requires
        n == s@.len(),
        i <= n,
    ensures
        match r {
            Ok(toks) => lex_from(s@, i as int) == Some(toks_view(toks@)),
            Err(_) => lex_from(s@, i as int) is None,
        },
    decreases n - i,
{
    if i >= n {
        let toks: Vec<Token> = Vec::new();
        proof {
            assert(toks_view(toks@) =~= Seq::<TokView>::empty());
        }
        return Ok(toks);
    }
    let c = s.get_char(i);
    if is_space_char_exec(c) {
        if c == '\n' {
            lex_at(s, n, i + 1, bump(line, 1), 1)
        } else {
            lex_at(s, n, i + 1, line, bump(col, 1))
        }
    } else if is_ident_start_char_exec(c) {
        let j = scan_ident(s, n, i);
        proof {
            assert(i < j) by {
                assert(is_ident_char(s@[i as int]));
                lemma_ident_end_bounds(s@, i + 1);
            }
        }
        let text: String = s.substring_char(i, j).to_owned();
        let tok = Token { kind: TokenKind::Ident(text), line, col };
        let col2 = bump(col, j - i);
        match lex_at(s, n, j, line, col2) {
            Ok(mut rest) => {
                let ghost rest0 = rest@;
                rest.insert(0, tok);
                proof {
                    assert(toks_view(rest@) =~= seq![TokView::Ident(s@.subrange(i as int, j as int))]
                        + toks_view(rest0));
                }
                Ok(rest)
            },
            Err(e) => Err(e),
        }
    } else {
        let punct = is_punct_char_exec(c);
        if punct {
            let tok = Token { kind: punct_kind(c), line, col };
            match lex_at(s, n, i + 1, line, bump(col, 1)) {
                Ok(mut rest) => {
                    let ghost rest0 = rest@;
                    rest.insert(0, tok);
                    proof {
                        assert(toks_view(rest@) =~= seq![punct_tok(s@[i as int])] + toks_view(
                            rest0,
                        ));
                    }
                    Ok(rest)
                },
                Err(e) => Err(e),
            }
        } else {
            Err(LexError { line, col })
        }
    }
}

/// Tokenizes a whole source string.  Returns the tokens exactly when
/// `lex_from` accepts the text, and an error (with the 1-based line and
/// column of the offending character) exactly when it does not.
pub fn lex(s: &str) -> (r: Result<Vec<Token>, LexError>)
    ensures
        match r {
            Ok(toks) => lex_from(s@, 0) == Some(toks_view(toks@)),
            Err(_) => lex_from(s@, 0) is None,
        },
{
    let n = s.unicode_len();
    lex_at(s, n, 0, 1, 1)
}

} // verus!
