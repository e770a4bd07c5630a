//! Token streams of attribute arguments and the two queries made on them.

use vstd::prelude::*;

verus! {

/// The lexical class of a single token.
#[derive(Clone, Copy, Debug, PartialEq, Eq, Structural)]
pub enum TokenKind {
    /// An identifier or keyword.
    Ident,
    /// The path separator `::`.
    PathSep,
    /// A comma.
    Comma,
    /// A literal (string, number, ...).
    Literal,
    /// Any other punctuation.
    Punct,
}

/// A single lexical token: its class and its text.
#[derive(Debug)]
pub struct Token {
    pub kind: TokenKind,
    pub text: String,
}

/// A token tree: a single token, or a delimited group of token trees.
#[derive(Debug)]
pub enum TokenTree {
    Leaf(Token),
    Group(Vec<TokenTree>),
}

impl Token {
    /// An identifier token with the given text.
    pub fn ident(name: &str) -> (r: Token)
        ensures
            r.kind == TokenKind::Ident,
            r.text@ == name@,
    {
        Token { kind: TokenKind::Ident, text: String::from_str(name) }
    }

    /// A path separator token, `::`.
    pub fn path_sep() -> (r: Token)
        ensures
            r.kind == TokenKind::PathSep,
            r.text@ == "::"@,
    {
        Token { kind: TokenKind::PathSep, text: String::from_str("::") }
    }

    /// A comma token.
    pub fn comma() -> (r: Token)
        ensures
            r.kind == TokenKind::Comma,
            r.text@ == ","@,
    {
        Token { kind: TokenKind::Comma, text: String::from_str(",") }
    }
}

/// `t` is a top-level identifier token whose text is `name`.
pub open spec fn is_ident_named(t: TokenTree, name: Seq<char>) -> bool {
    match t {
        TokenTree::Leaf(tok) => tok.kind == TokenKind::Ident && tok.text@ == name,
        TokenTree::Group(_) => false,
    }
}

/// `t` is a top-level path separator token.
pub open spec fn is_path_sep(t: TokenTree) -> bool {
    match t {
        TokenTree::Leaf(tok) => tok.kind == TokenKind::PathSep,
        TokenTree::Group(_) => false,
    }
}

/// Some top-level token of `s` is the identifier `name`.
pub open spec fn has_ident(s: Seq<TokenTree>, name: Seq<char>) -> bool {
    exists|i: int| 0 <= i < s.len() && #[trigger] is_ident_named(s[i], name)
}

/// The three tokens of `s` starting at `i` read `scope :: name`.
pub open spec fn path_at(s: Seq<TokenTree>, i: int, scope: Seq<char>, name: Seq<char>) -> bool {
    0 <= i && i + 2 < s.len() && is_ident_named(s[i], scope) && is_path_sep(s[i + 1])
        && is_ident_named(s[i + 2], name)
}

/// Some window of three consecutive top-level tokens of `s` reads `scope :: name`.
pub open spec fn has_path(s: Seq<TokenTree>, scope: Seq<char>, name: Seq<char>) -> bool {
    exists|i: int| #[trigger] path_at(s, i, scope, name)
}

/// Whether `t` is the identifier token `name`.
fn tree_is_ident(t: &TokenTree, name: &String) -> (r: bool)
    ensures
        r == is_ident_named(*t, name@),
{
    match t {
        TokenTree::Leaf(tok) => {
            match tok.kind {
                TokenKind::Ident => tok.text == *name,
                _ => false,
            }
        },
        TokenTree::Group(_) => false,
    }
}

/// Whether `t` is the path separator token.
fn tree_is_path_sep(t: &TokenTree) -> (r: bool)
    ensures
        r == is_path_sep(*t),
{
    match t {
        TokenTree::Leaf(tok) => {
            match tok.kind {
                TokenKind::PathSep => true,
                _ => false,
            }
        },
        TokenTree::Group(_) => false,
    }
}

/// Whether some top-level token of `stream` is the identifier `name`.
/// Delimited groups are not searched.
pub fn contains_identifier(stream: &Vec<TokenTree>, name: &str) -> (r: bool)
    ensures
        r == has_ident(stream@, name@),
{
    let target = String::from_str(name);
    let mut i: usize = 0;
    while i < stream.len()
        invariant
            i <= stream@.len(),
            target@ == name@,
            forall|j: int| 0 <= j < i ==> !is_ident_named(#[trigger] stream@[j], name@),
        decreases stream.len() - i,
    {
        if tree_is_ident(&stream[i], &target) {
            return true;
        }
        i += 1;
    }
    false
}

/// Whether some three consecutive top-level tokens of `stream` read
/// `scope :: name`. The window slides over the whole stream, so such a path
/// is found among any surrounding tokens.
pub fn contains_path(stream: &Vec<TokenTree>, scope: &str, name: &str) -> (r: bool)
    ensures
        r == has_path(stream@, scope@, name@),
{
    let scope_s = String::from_str(scope);
    let name_s = String::from_str(name);
    let mut i: usize = 0;
    while i < stream.len() && stream.len() - i > 2
        invariant
            i <= stream@.len(),
            scope_s@ == scope@,
            name_s@ == name@,
            forall|j: int| 0 <= j < i ==> !#[trigger] path_at(stream@, j, scope@, name@),
        decreases stream.len() - i,
    {
        if tree_is_ident(&stream[i], &scope_s) && tree_is_path_sep(&stream[i + 1])
            && tree_is_ident(&stream[i + 2], &name_s) {
            assert(path_at(stream@, i as int, scope@, name@));
            return true;
        }
        i += 1;
    }
    assert forall|j: int| !#[trigger] path_at(stream@, j, scope@, name@) by {
        if j >= i {
            assert(!(j + 2 < stream@.len()));
        }
    }
    false
}

} // verus!
