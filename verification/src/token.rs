//! The token model: a flat sequence of lexical tokens in which delimited
//! groups appear as explicit `Open`/`Close` tokens. Nesting is therefore a
//! property of the sequence (balanced open/close pairs), not of the type,
//! which keeps the mathematical model first-order.

use vstd::prelude::*;

verus! {

/// Whether a punctuation character is immediately followed by another
/// punctuation character that continues the same operator (`Joint`), or
/// stands on its own (`Alone`). Multi-character operators such as `::`,
/// `->` and `||` are sequences of `Joint` puncts ended by an `Alone` one.
#[derive(Clone, Copy, Debug, PartialEq, Eq, Structural)]
pub enum Spacing {
    Alone,
    Joint,
}

/// The delimiter kind of a group.
#[derive(Clone, Copy, Debug, PartialEq, Eq, Structural)]
pub enum Delim {
    Paren,
    Bracket,
    Brace,
}

/// One lexical token. Identifiers and keywords are both `Ident`; literals
/// carry their text verbatim; `Open`/`Close` bracket a delimited group.
#[derive(Clone, Debug, PartialEq, Eq)]
pub enum Token {
    Ident(String),
    Punct(char, Spacing),
    Literal(String),
    Open(Delim),
    Close(Delim),
}

/// The mathematical value of a `Token`: the same shape with text abstracted
/// to character sequences. All contracts speak of `TokView` sequences.
pub enum TokView {
    Ident(Seq<char>),
    Punct(char, Spacing),
    Literal(Seq<char>),
    Open(Delim),
    Close(Delim),
}

impl View for Token {
    type V = TokView;

    open spec fn view(&self) -> TokView {
        match self {
            Token::Ident(s) => TokView::Ident(s@),
            Token::Punct(c, sp) => TokView::Punct(*c, *sp),
            Token::Literal(s) => TokView::Literal(s@),
            Token::Open(d) => TokView::Open(*d),
            Token::Close(d) => TokView::Close(*d),
        }
    }
}

impl DeepView for Token {
    type V = TokView;

    open spec fn deep_view(&self) -> TokView {
        self.view()
    }
}

/// True of the token that opens any delimited group.
pub open spec fn is_open(t: TokView) -> bool {
    t is Open
}

/// True of the token that closes any delimited group.
pub open spec fn is_close(t: TokView) -> bool {
    t is Close
}

/// True of a punctuation token with the given character, either spacing.
pub open spec fn is_punct(t: TokView, c: char) -> bool {
    t matches TokView::Punct(d, _) && d == c
}

/// True of an identifier token whose text is exactly `s`.
pub open spec fn is_ident(t: TokView, s: Seq<char>) -> bool {
    t matches TokView::Ident(u) && u == s
}

/// True of a punctuation token with the given character and `Joint` spacing.
pub open spec fn is_joint_punct(t: TokView, c: char) -> bool {
    t matches TokView::Punct(d, sp) && d == c && sp == Spacing::Joint
}

/// The text of an identifier token; the empty sequence for any other token.
pub open spec fn ident_text(t: TokView) -> Seq<char> {
    match t {
        TokView::Ident(s) => s,
        _ => Seq::empty(),
    }
}

/// Runs the delimiter stack over `toks` from index `i`, starting from the
/// open groups `st` (innermost last): `Some` of the stack left at the end,
/// or `None` if some `Close` does not match the innermost open group.
pub open spec fn stack_run(toks: Seq<TokView>, i: int, st: Seq<Delim>) -> Option<Seq<Delim>>
    decreases toks.len() - i,
{
    if i >= toks.len() {
        Some(st)
    } else {
        match toks[i] {
            TokView::Open(d) => stack_run(toks, i + 1, st.push(d)),
            TokView::Close(d) => if st.len() > 0 && st.last() == d {
                stack_run(toks, i + 1, st.drop_last())
            } else {
                None
            },
            _ => stack_run(toks, i + 1, st),
        }
    }
}

/// A sequence nests properly: every group opened in it is closed in it, with
/// the same delimiter, and nothing closes a group opened outside it.
pub open spec fn well_nested(toks: Seq<TokView>) -> bool {
    stack_run(toks, 0, Seq::empty()) == Some(Seq::<Delim>::empty())
}

/// Clones one token; the copy is equal to the original as a value.
pub fn copy_token(t: &Token) -> (r: Token)
    ensures
        r == *t,
{
    match t {
        Token::Ident(s) => Token::Ident(s.clone()),
        Token::Punct(c, sp) => Token::Punct(*c, *sp),
        Token::Literal(s) => Token::Literal(s.clone()),
        Token::Open(d) => Token::Open(*d),
        Token::Close(d) => Token::Close(*d),
    }
}

/// Whether `t` is the identifier `kw`.
pub fn token_is_ident(t: &Token, kw: &str) -> (r: bool)
    ensures
        r == is_ident(t@, kw@),
{
    match t {
        Token::Ident(s) => {
            let k: String = kw.to_owned();
            *s == k
        },
        _ => false,
    }
}

/// Whether `t` is a punctuation token carrying `c` (either spacing).
pub fn token_is_punct(t: &Token, c: char) -> (r: bool)
    ensures
        r == is_punct(t@, c),
{
    match t {
        Token::Punct(d, _) => *d == c,
        _ => false,
    }
}

/// Whether `t` is a punctuation token carrying `c` with `Joint` spacing.
pub fn token_is_joint_punct(t: &Token, c: char) -> (r: bool)
    ensures
        r == is_joint_punct(t@, c),
{
    match t {
        Token::Punct(d, Spacing::Joint) => *d == c,
        _ => false,
    }
}

/// Whether `t` opens a group (any delimiter).
pub fn token_is_open(t: &Token) -> (r: bool)
    ensures
        r == is_open(t@),
{
    match t {
        Token::Open(_) => true,
        _ => false,
    }
}

/// Whether `t` closes a group (any delimiter).
pub fn token_is_close(t: &Token) -> (r: bool)
    ensures
        r == is_close(t@),
{
    match t {
        Token::Close(_) => true,
        _ => false,
    }
}

/// Whether `t` opens a group with exactly the delimiter `d`.
pub fn token_opens(t: &Token, d: Delim) -> (r: bool)
    ensures
        r == (t@ == TokView::Open(d)),
{
    match t {
        Token::Open(x) => *x == d,
        _ => false,
    }
}

/// The text of an identifier token, or `None` for any other token.
pub fn token_ident_text(t: &Token) -> (r: Option<String>)
    ensures
        match r {
            Some(s) => t@ is Ident && s@ == ident_text(t@),
            None => !(t@ is Ident),
        },
{
    match t {
        Token::Ident(s) => Some(s.clone()),
        _ => None,
    }
}

} // verus!
