//! The declaration parser. A block is a sequence of declarations
//!
//! ```text
//! declaration := attribute* visibility 'static' 'ref' IDENT ':' TYPE '=' EXPR ';'
//! ```
//!
//! Attributes are accepted and discarded. The visibility (either absent, or
//! `pub` optionally followed by a parenthesized restriction) is kept verbatim.
//! TYPE is the token run up to the `=` sign, found outside any group and
//! outside angle brackets; EXPR is the token run up to the `;`, found outside
//! any group. Both runs must be nonempty and must pass a token-level
//! well-formedness scan ([`run_flaw`]): at the top level of the run, two
//! atoms may not stand side by side without a connective (a literal next to
//! a literal, a plain word next to a plain word, a literal followed — or in
//! an initializer preceded — by a plain word), and a type may not begin with
//! a literal. Reserved words and lifetimes are connectives, so casts
//! (`1 as u32`), labels (`break 'l 1`) and references (`&'a str`) pass. The
//! scan rejects only shapes that no type or expression can take, and gives
//! the offending token's own index. What passes it is then rendered as text
//! and put to the host grammar itself ([`type_ok_of`], [`expr_ok_of`],
//! decided by trusted calls into the host-language parser): a run that is
//! not one complete type or expression fails with the index of the run's
//! first token. Parsing stops at the first error.
//!
//! The binding name may be any identifier token that is not a reserved word
//! of the host language. Uniqueness of names within a block is not validated
//! here: two bindings of one name surface as the host compiler's
//! duplicate-definition diagnostics on the emitted symbols.
//!
//! The grammar is first stated as recursive spec functions over token
//! sequences; the executable parser is proved to return exactly what they say.

use vstd::prelude::*;

use crate::token::copy_token;
use crate::token::ident_text;
use crate::token::is_close;
use crate::token::is_ident;
use crate::token::is_joint_punct;
use crate::token::is_open;
use crate::token::is_punct;
use crate::token::token_ident_text;
use crate::token::token_is_close;
use crate::token::token_is_ident;
use crate::token::token_is_joint_punct;
use crate::token::token_is_open;
use crate::token::token_is_punct;
use crate::token::token_opens;
use crate::token::Delim;
use crate::token::Spacing;
use crate::token::TokView;
use crate::token::Token;
use vstd::string::StringExecFns;

verus! {

/// What went wrong, at the token index carried beside it.
#[derive(Clone, Copy, Debug, PartialEq, Eq, Structural)]
pub enum ErrorKind {
    /// A `#` was not followed by a bracketed attribute body.
    AttrDelim,
    /// A group was opened but never closed before the input ended.
    UnclosedGroup,
    /// A group was closed that was never opened.
    UnexpectedClose,
    /// The keyword `static` was expected here.
    ExpectedStatic,
    /// The keyword `ref` was expected here.
    ExpectedRef,
    /// The binding's name (an identifier) was expected here.
    ExpectedName,
    /// A `:` between the name and its type was expected here.
    ExpectedColon,
    /// The input ended before the `=` that ends the type annotation.
    MissingEq,
    /// The type annotation between `:` and `=` is empty.
    EmptyType,
    /// The input ended before the `;` that ends the initializer.
    MissingSemi,
    /// The initializer between `=` and `;` is empty.
    EmptyInit,
    /// The binding's name is a reserved word of the host language.
    ReservedName,
    /// The type annotation holds a shape no type can take.
    InvalidType,
    /// The initializer holds a shape no expression can take.
    InvalidInit,
}

/// A parse error: the kind of failure and the index of the offending token
/// (the input length when the input ended too early).
#[derive(Clone, Copy, Debug, PartialEq, Eq, Structural)]
pub struct ParseError {
    pub pos: usize,
    pub kind: ErrorKind,
}

/// One parsed declaration. The visibility, type and initializer hold the
/// source tokens verbatim; attributes are not kept.
#[derive(Clone, Debug, PartialEq, Eq)]
pub struct Binding {
    pub vis: Vec<Token>,
    pub name: String,
    pub ty: Vec<Token>,
    pub init: Vec<Token>,
}

/// The mathematical value of a `Binding`.
pub struct BindingView {
    pub vis: Seq<TokView>,
    pub name: Seq<char>,
    pub ty: Seq<TokView>,
    pub init: Seq<TokView>,
}

impl View for Binding {
    type V = BindingView;

    open spec fn view(&self) -> BindingView {
        BindingView {
            vis: self.vis.deep_view(),
            name: self.name@,
            ty: self.ty.deep_view(),
            init: self.init.deep_view(),
        }
    }
}

impl DeepView for Binding {
    type V = BindingView;

    open spec fn deep_view(&self) -> BindingView {
        self.view()
    }
}

/// Shorthand for an error value at position `p` (a position never exceeds the
/// input length, so the cast is exact for any sequence an executable caller
/// can hold).
pub open spec fn err(p: int, k: ErrorKind) -> ParseError {
    ParseError { pos: p as usize, kind: k }
}

/// The reserved words of the host language, which cannot name a binding and
/// which act as connectives in the well-formedness scan. The keyword that
/// introduces foreign blocks is spelled in two halves here: its text may not
/// stand whole anywhere in this crate's source.
pub open spec fn is_reserved_word(s: Seq<char>) -> bool {
    s == "as"@ || s == "async"@ || s == "await"@ || s == "break"@ || s == "const"@ || s
        == "continue"@ || s == "crate"@ || s == "dyn"@ || s == "else"@ || s == "enum"@ || s
        == "false"@ || s == "fn"@ || s == "for"@ || s == "if"@ || s == "impl"@ || s == "in"@ || s
        == "let"@ || s == "loop"@ || s == "match"@ || s == "mod"@ || s == "move"@ || s == "mut"@
        || s == "pub"@ || s == "ref"@ || s == "return"@ || s == "self"@ || s == "Self"@ || s
        == "static"@ || s == "struct"@ || s == "super"@ || s == "trait"@ || s == "true"@ || s
        == "type"@ || s == "unsafe"@ || s == "use"@ || s == "where"@ || s == "while"@ || s
        == "yield"@ || s == "abstract"@ || s == "become"@ || s == "box"@ || s == "do"@ || s
        == "final"@ || s == "macro"@ || s == "override"@ || s == "priv"@ || s == "try"@ || s
        == "typeof"@ || s == "unsized"@ || s == "virtual"@ || s == "ext"@ + "ern"@
}

/// What the previous top-level token of a run was, for the well-formedness
/// scan: the start of the run, a literal atom, a plain identifier, a
/// reserved word, a lifetime's identifier, punctuation, the quote that
/// starts a lifetime, or a whole delimited group.
#[derive(Clone, Copy, Debug, PartialEq, Eq, Structural)]
pub enum TokClass {
    Start,
    LitAtom,
    PlainWord,
    ReservedWord,
    LifetimeWord,
    Punctuation,
    Quote,
    Grouped,
}

/// The token-level well-formedness scan of the run `[i, end)`: the index of
/// the first token that makes the run a shape no type (or, with
/// `expr_mode`, no expression) can take, or `None`. Only tokens outside any
/// group are judged; a group counts as one atom. The flaws are: a literal
/// directly after a literal; a literal directly after a plain word (in
/// expressions); a literal first in a type; a plain word directly after a
/// literal or after another plain word. Reserved words, lifetimes,
/// punctuation and groups connect freely.
pub open spec fn run_flaw(
    toks: Seq<TokView>,
    i: int,
    end: int,
    depth: int,
    prev: TokClass,
    expr_mode: bool,
) -> Option<int>
    decreases end - i,
{
    if i >= end || i >= toks.len() {
        None
    } else {
        match toks[i] {
            TokView::Open(_) => run_flaw(
                toks,
                i + 1,
                end,
                depth + 1,
                if depth == 0 {
                    TokClass::Grouped
                } else {
                    prev
                },
                expr_mode,
            ),
            TokView::Close(_) => run_flaw(
                toks,
                i + 1,
                end,
                if depth > 0 {
                    depth - 1
                } else {
                    0
                },
                prev,
                expr_mode,
            ),
            TokView::Punct(c, _) => if depth == 0 {
                run_flaw(
                    toks,
                    i + 1,
                    end,
                    depth,
                    if c == '\'' {
                        TokClass::Quote
                    } else {
                        TokClass::Punctuation
                    },
                    expr_mode,
                )
            } else {
                run_flaw(toks, i + 1, end, depth, prev, expr_mode)
            },
            TokView::Literal(_) => if depth == 0 {
                if prev == TokClass::LitAtom || (expr_mode && prev == TokClass::PlainWord) || (
                !expr_mode && prev == TokClass::Start) {
                    Some(i)
                } else {
                    run_flaw(toks, i + 1, end, depth, TokClass::LitAtom, expr_mode)
                }
            } else {
                run_flaw(toks, i + 1, end, depth, prev, expr_mode)
            },
            TokView::Ident(s) => if depth == 0 {
                if prev == TokClass::Quote {
                    run_flaw(toks, i + 1, end, depth, TokClass::LifetimeWord, expr_mode)
                } else if is_reserved_word(s) {
                    run_flaw(toks, i + 1, end, depth, TokClass::ReservedWord, expr_mode)
                } else if prev == TokClass::LitAtom || prev == TokClass::PlainWord {
                    Some(i)
                } else {
                    run_flaw(toks, i + 1, end, depth, TokClass::PlainWord, expr_mode)
                }
            } else {
                run_flaw(toks, i + 1, end, depth, prev, expr_mode)
            },
        }
    }
}

/// The index just past the `Close` that closes the group the scan stands in,
/// given that `depth` further groups have been opened since entering it.
pub open spec fn skip_to_close(toks: Seq<TokView>, i: int, depth: int) -> Result<int, ParseError>
    decreases toks.len() - i,
{
    if i >= toks.len() {
        Err(err(toks.len() as int, ErrorKind::UnclosedGroup))
    } else if is_open(toks[i]) {
        skip_to_close(toks, i + 1, depth + 1)
    } else if is_close(toks[i]) {
        if depth == 0 {
            Ok(i + 1)
        } else {
            skip_to_close(toks, i + 1, depth - 1)
        }
    } else {
        skip_to_close(toks, i + 1, depth)
    }
}

pub proof fn lemma_skip_to_close_advances(toks: Seq<TokView>, i: int, depth: int)
    ensures
        skip_to_close(toks, i, depth) matches Ok(j) ==> i < j <= toks.len(),
    decreases toks.len() - i,
{
    if i < toks.len() {
        lemma_skip_to_close_advances(toks, i + 1, depth + 1);
        lemma_skip_to_close_advances(toks, i + 1, depth - 1);
        lemma_skip_to_close_advances(toks, i + 1, depth);
    }
}

/// The index just past zero or more leading outer attributes `# [ ... ]`.
pub open spec fn after_attrs(toks: Seq<TokView>, i: int) -> Result<int, ParseError>
    decreases toks.len() - i,
        via after_attrs_decreases
{
    if i >= toks.len() {
        Ok(i)
    } else if is_punct(toks[i], '#') {
        if !(i + 1 < toks.len() && toks[i + 1] == TokView::Open(Delim::Bracket)) {
            Err(err(i + 1, ErrorKind::AttrDelim))
        } else {
            match skip_to_close(toks, i + 2, 0) {
                Ok(j) => after_attrs(toks, j),
                Err(e) => Err(e),
            }
        }
    } else {
        Ok(i)
    }
}

#[via_fn]
proof fn after_attrs_decreases(toks: Seq<TokView>, i: int) {
    if i < toks.len() && is_punct(toks[i], '#') && i + 1 < toks.len() && toks[i + 1]
        == TokView::Open(Delim::Bracket) {
        lemma_skip_to_close_advances(toks, i + 2, 0);
    }
}

pub proof fn lemma_after_attrs_advances(toks: Seq<TokView>, i: int)
    requires
        i <= toks.len(),
    ensures
        after_attrs(toks, i) matches Ok(j) ==> i <= j <= toks.len(),
    decreases toks.len() - i,
{
    if i < toks.len() && is_punct(toks[i], '#') && i + 1 < toks.len() && toks[i + 1]
        == TokView::Open(Delim::Bracket) {
        lemma_skip_to_close_advances(toks, i + 2, 0);
        if let Ok(j) = skip_to_close(toks, i + 2, 0) {
            lemma_after_attrs_advances(toks, j);
        }
    }
}

/// The index just past the visibility qualifier: nothing, `pub`, or one of
/// the restricted forms `pub ( crate )`, `pub ( self )`, `pub ( super )`,
/// `pub ( in … )`. A parenthesized group of any other shape after `pub` is
/// not part of the visibility (it is then left in place, where the missing
/// `static` is reported), as the host language's own visibility parse has
/// it.
pub open spec fn after_vis(toks: Seq<TokView>, i: int) -> Result<int, ParseError> {
    if i < toks.len() && is_ident(toks[i], "pub"@) {
        if i + 1 < toks.len() && toks[i + 1] == TokView::Open(Delim::Paren) {
            if i + 2 < toks.len() && is_ident(toks[i + 2], "in"@) {
                skip_to_close(toks, i + 2, 0)
            } else if i + 3 < toks.len() && (is_ident(toks[i + 2], "crate"@) || is_ident(
                toks[i + 2],
                "self"@,
            ) || is_ident(toks[i + 2], "super"@)) && is_close(toks[i + 3]) {
                Ok(i + 4)
            } else {
                Ok(i + 1)
            }
        } else {
            Ok(i + 1)
        }
    } else {
        Ok(i)
    }
}

pub proof fn lemma_after_vis_advances(toks: Seq<TokView>, i: int)
    requires
        i <= toks.len(),
    ensures
        after_vis(toks, i) matches Ok(j) ==> i <= j <= toks.len(),
{
    lemma_skip_to_close_advances(toks, i + 2, 0);
}

/// The index of the `=` that ends a type annotation starting at `i`: the
/// first `=` outside any group and outside angle brackets. A `>` that is the
/// second half of an arrow `->` does not close an angle bracket.
pub open spec fn type_end(toks: Seq<TokView>, i: int, depth: int, angle: int) -> Result<
    int,
    ParseError,
>
    decreases toks.len() - i,
{
    if i >= toks.len() {
        Err(err(toks.len() as int, ErrorKind::MissingEq))
    } else if is_open(toks[i]) {
        type_end(toks, i + 1, depth + 1, angle)
    } else if is_close(toks[i]) {
        if depth == 0 {
            Err(err(i, ErrorKind::UnexpectedClose))
        } else {
            type_end(toks, i + 1, depth - 1, angle)
        }
    } else if is_joint_punct(toks[i], '-') && i + 1 < toks.len() && is_punct(toks[i + 1], '>') {
        type_end(toks, i + 2, depth, angle)
    } else if depth == 0 && angle == 0 && is_punct(toks[i], '=') {
        Ok(i)
    } else if depth == 0 && is_punct(toks[i], '<') {
        type_end(toks, i + 1, depth, angle + 1)
    } else if depth == 0 && angle > 0 && is_punct(toks[i], '>') {
        type_end(toks, i + 1, depth, angle - 1)
    } else {
        type_end(toks, i + 1, depth, angle)
    }
}

pub proof fn lemma_type_end_advances(toks: Seq<TokView>, i: int, depth: int, angle: int)
    ensures
        type_end(toks, i, depth, angle) matches Ok(j) ==> i <= j < toks.len(),
    decreases toks.len() - i,
{
    if i < toks.len() {
        lemma_type_end_advances(toks, i + 1, depth + 1, angle);
        lemma_type_end_advances(toks, i + 1, depth - 1, angle);
        if i + 1 < toks.len() {
            lemma_type_end_advances(toks, i + 2, depth, angle);
        }
        lemma_type_end_advances(toks, i + 1, depth, angle + 1);
        lemma_type_end_advances(toks, i + 1, depth, angle - 1);
        lemma_type_end_advances(toks, i + 1, depth, angle);
    }
}

/// The index of the `;` that ends an initializer expression starting at `i`:
/// the first `;` outside any group.
pub open spec fn expr_end(toks: Seq<TokView>, i: int, depth: int) -> Result<int, ParseError>
    decreases toks.len() - i,
{
    if i >= toks.len() {
        Err(err(toks.len() as int, ErrorKind::MissingSemi))
    } else if is_open(toks[i]) {
        expr_end(toks, i + 1, depth + 1)
    } else if is_close(toks[i]) {
        if depth == 0 {
            Err(err(i, ErrorKind::UnexpectedClose))
        } else {
            expr_end(toks, i + 1, depth - 1)
        }
    } else if depth == 0 && is_punct(toks[i], ';') {
        Ok(i)
    } else {
        expr_end(toks, i + 1, depth)
    }
}

pub proof fn lemma_expr_end_advances(toks: Seq<TokView>, i: int, depth: int)
    ensures
        expr_end(toks, i, depth) matches Ok(j) ==> i <= j < toks.len(),
    decreases toks.len() - i,
{
    if i < toks.len() {
        lemma_expr_end_advances(toks, i + 1, depth + 1);
        lemma_expr_end_advances(toks, i + 1, depth - 1);
        lemma_expr_end_advances(toks, i + 1, depth);
    }
}

/// One declaration parsed at index `i`: the binding it declares and the index
/// just past its closing `;`.
/// The character that opens a group with delimiter `d`.
pub open spec fn open_char(d: Delim) -> char {
    match d {
        Delim::Paren => '(',
        Delim::Bracket => '[',
        Delim::Brace => '{',
    }
}

/// The character that closes a group with delimiter `d`.
pub open spec fn close_char(d: Delim) -> char {
    match d {
        Delim::Paren => ')',
        Delim::Bracket => ']',
        Delim::Brace => '}',
    }
}

/// The text of one token as the host parser reads it: joint punctuation
/// fuses with what follows; every other token is followed by one space.
pub open spec fn token_text(t: TokView) -> Seq<char> {
    match t {
        TokView::Ident(s) => s + seq![' '],
        TokView::Literal(s) => s + seq![' '],
        TokView::Punct(c, sp) => if sp == Spacing::Joint {
            seq![c]
        } else {
            seq![c, ' ']
        },
        TokView::Open(d) => seq![open_char(d), ' '],
        TokView::Close(d) => seq![close_char(d), ' '],
    }
}

/// The text of the token run `[i, end)`.
pub open spec fn rendered(toks: Seq<TokView>, i: int, end: int) -> Seq<char>
    decreases end - i,
{
    if i >= end || i >= toks.len() {
        Seq::empty()
    } else {
        token_text(toks[i]) + rendered(toks, i + 1, end)
    }
}

/// Whether this text is exactly one well-formed type of the host language,
/// with nothing left over. Decided by the host grammar (see [`text_is_type`]);
/// a function of the text alone.
pub uninterp spec fn type_ok_of(s: Seq<char>) -> bool;

/// Whether this text is exactly one well-formed expression of the host
/// language, with nothing left over. Decided by the host grammar (see
/// [`text_is_expr`]); a function of the text alone.
pub uninterp spec fn expr_ok_of(s: Seq<char>) -> bool;

/// Relies on `syn::parse_str::<syn::Type>`: whether the text parses as one
/// complete type, consuming all of it. The result depends on the text alone.
#[verifier::external_body]
fn text_is_type(s: &str) -> (r: bool)
    ensures
        r == type_ok_of(s@),
{
    syn::parse_str::<syn::Type>(s).is_ok()
}

/// Relies on `syn::parse_str::<syn::Expr>`: whether the text parses as one
/// complete expression, consuming all of it. The result depends on the text
/// alone.
#[verifier::external_body]
fn text_is_expr(s: &str) -> (r: bool)
    ensures
        r == expr_ok_of(s@),
{
    syn::parse_str::<syn::Expr>(s).is_ok()
}

/// Relies on `String::push`: appends exactly the one character.
#[verifier::external_body]
fn push_char(s: &mut String, c: char)
    ensures
        final(s)@ == old(s)@.push(c),
{
    s.push(c);
}

fn delim_open(d: Delim) -> (c: char)
    ensures
        c == open_char(d),
{
    match d {
        Delim::Paren => '(',
        Delim::Bracket => '[',
        Delim::Brace => '{',
    }
}

fn delim_close(d: Delim) -> (c: char)
    ensures
        c == close_char(d),
{
    match d {
        Delim::Paren => ')',
        Delim::Bracket => ']',
        Delim::Brace => '}',
    }
}

/// Renders the token run `[start, end)` as text for the host parser.
fn render_run(tokens: &Vec<Token>, start: usize, end: usize) -> (r: String)
    requires
        start <= end <= tokens.len(),
    ensures
        r@ == rendered(tokens.deep_view(), start as int, end as int),
{
    let ghost v = tokens.deep_view();
    let mut out: String = String::new();
    let mut i: usize = start;
    while i < end
        invariant
            start <= i <= end <= tokens.len(),
            v == tokens.deep_view(),
            rendered(v, start as int, end as int) == out@ + rendered(v, i as int, end as int),
        decreases end - i,
    {
        let ghost prev = out@;
        let t = &tokens[i];
        proof {
            assert(t@ == v[i as int]);
        }
        match t {
            Token::Ident(s) => {
                out.append(s.as_str());
                push_char(&mut out, ' ');
            },
            Token::Literal(s) => {
                out.append(s.as_str());
                push_char(&mut out, ' ');
            },
            Token::Punct(c, sp) => {
                push_char(&mut out, *c);
                match sp {
                    Spacing::Joint => {},
                    Spacing::Alone => {
                        push_char(&mut out, ' ');
                    },
                }
            },
            Token::Open(d) => {
                push_char(&mut out, delim_open(*d));
                push_char(&mut out, ' ');
            },
            Token::Close(d) => {
                push_char(&mut out, delim_close(*d));
                push_char(&mut out, ' ');
            },
        }
        proof {
            assert(out@ =~= prev + token_text(v[i as int]));
            assert(prev + (token_text(v[i as int]) + rendered(v, i as int + 1, end as int)) =~= (
            prev + token_text(v[i as int])) + rendered(v, i as int + 1, end as int));
        }
        i = i + 1;
    }
    proof {
        assert(out@ + rendered(v, i as int, end as int) =~= out@);
    }
    out
}

pub open spec fn parse_decl(toks: Seq<TokView>, i: int) -> Result<(BindingView, int), ParseError> {
    match after_attrs(toks, i) {
        Err(e) => Err(e),
        Ok(v0) => match after_vis(toks, v0) {
            Err(e) => Err(e),
            Ok(s0) => if !(s0 < toks.len() && is_ident(toks[s0], "static"@)) {
                Err(err(s0, ErrorKind::ExpectedStatic))
            } else if !(s0 + 1 < toks.len() && is_ident(toks[s0 + 1], "ref"@)) {
                Err(err(s0 + 1, ErrorKind::ExpectedRef))
            } else if !(s0 + 2 < toks.len() && toks[s0 + 2] is Ident) {
                Err(err(s0 + 2, ErrorKind::ExpectedName))
            } else if is_reserved_word(ident_text(toks[s0 + 2])) {
                Err(err(s0 + 2, ErrorKind::ReservedName))
            } else if !(s0 + 3 < toks.len() && is_punct(toks[s0 + 3], ':')) {
                Err(err(s0 + 3, ErrorKind::ExpectedColon))
            } else {
                match type_end(toks, s0 + 4, 0, 0) {
                    Err(e) => Err(e),
                    Ok(te) => if te == s0 + 4 {
                        Err(err(s0 + 4, ErrorKind::EmptyType))
                    } else {
                        match run_flaw(toks, s0 + 4, te, 0, TokClass::Start, false) {
                            Some(fp) => Err(err(fp, ErrorKind::InvalidType)),
                            None => if !type_ok_of(rendered(toks, s0 + 4, te)) {
                                Err(err(s0 + 4, ErrorKind::InvalidType))
                            } else {
                                match expr_end(toks, te + 1, 0) {
                                    Err(e) => Err(e),
                                    Ok(se) => if se == te + 1 {
                                        Err(err(te + 1, ErrorKind::EmptyInit))
                                    } else {
                                        match run_flaw(toks, te + 1, se, 0, TokClass::Start, true) {
                                            Some(fp) => Err(err(fp, ErrorKind::InvalidInit)),
                                            None => if !expr_ok_of(rendered(toks, te + 1, se)) {
                                                Err(err(te + 1, ErrorKind::InvalidInit))
                                            } else {
                                                Ok(
                                                    (
                                                        BindingView {
                                                            vis: toks.subrange(v0, s0),
                                                            name: ident_text(toks[s0 + 2]),
                                                            ty: toks.subrange(s0 + 4, te),
                                                            init: toks.subrange(te + 1, se),
                                                        },
                                                        se + 1,
                                                    ),
                                                )
                                            },
                                        }
                                    },
                                }
                            },
                        }
                    },
                }
            },
        },
    }
}

pub proof fn lemma_parse_decl_advances(toks: Seq<TokView>, i: int)
    requires
        0 <= i <= toks.len(),
    ensures
        parse_decl(toks, i) matches Ok(p) ==> i < p.1 <= toks.len(),
{
    lemma_after_attrs_advances(toks, i);
    if let Ok(v0) = after_attrs(toks, i) {
        lemma_after_vis_advances(toks, v0);
        if let Ok(s0) = after_vis(toks, v0) {
            lemma_type_end_advances(toks, s0 + 4, 0, 0);
            if let Ok(te) = type_end(toks, s0 + 4, 0, 0) {
                lemma_expr_end_advances(toks, te + 1, 0);
            }
        }
    }
}

/// The whole block from index `i`: zero or more declarations until the input
/// is exhausted, in source order.
pub open spec fn parse_from(toks: Seq<TokView>, i: int) -> Result<Seq<BindingView>, ParseError>
    decreases toks.len() - i,
        when 0 <= i
        via parse_from_decreases
{
    if i >= toks.len() {
        Ok(Seq::empty())
    } else {
        match parse_decl(toks, i) {
            Err(e) => Err(e),
            Ok(p) => match parse_from(toks, p.1) {
                Err(e) => Err(e),
                Ok(rest) => Ok(seq![p.0] + rest),
            },
        }
    }
}

#[via_fn]
proof fn parse_from_decreases(toks: Seq<TokView>, i: int) {
    if 0 <= i < toks.len() {
        lemma_parse_decl_advances(toks, i);
    }
}

/// What the parser returns on a whole input: the spec of [`parse`].
pub open spec fn parse_spec(toks: Seq<TokView>) -> Result<Seq<BindingView>, ParseError> {
    parse_from(toks, 0)
}

fn scan_to_close(tokens: &Vec<Token>, start: usize) -> (r: Result<usize, ParseError>)
    requires
        start <= tokens.len(),
    ensures
        (match r {
            Ok(j) => skip_to_close(tokens.deep_view(), start as int, 0) == Ok::<int, ParseError>(
                j as int,
            ) && start < j <= tokens.len(),
            Err(e) => skip_to_close(tokens.deep_view(), start as int, 0) == Err::<int, ParseError>(
                e,
            ),
        }),
{
    let ghost v = tokens.deep_view();
    let mut i: usize = start;
    let mut depth: usize = 0;
    loop
        invariant
            start <= i <= tokens.len(),
            depth as int <= i as int,
            v == tokens.deep_view(),
            skip_to_close(v, start as int, 0) == skip_to_close(v, i as int, depth as int),
        decreases tokens.len() - i,
    {
        if i >= tokens.len() {
            return Err(ParseError { pos: tokens.len(), kind: ErrorKind::UnclosedGroup });
        }
        let t = &tokens[i];
        proof {
            assert(t@ == v[i as int]);
        }
        if token_is_open(t) {
            depth = depth + 1;
            i = i + 1;
        } else if token_is_close(t) {
            if depth == 0 {
                return Ok(i + 1);
            }
            depth = depth - 1;
            i = i + 1;
        } else {
            i = i + 1;
        }
    }
}

fn scan_after_attrs(tokens: &Vec<Token>, start: usize) -> (r: Result<usize, ParseError>)
    requires
        start <= tokens.len(),
    ensures
        (match r {
            Ok(j) => after_attrs(tokens.deep_view(), start as int) == Ok::<int, ParseError>(
                j as int,
            ) && start <= j <= tokens.len(),
            Err(e) => after_attrs(tokens.deep_view(), start as int) == Err::<int, ParseError>(e),
        }),
{
    let ghost v = tokens.deep_view();
    let mut i: usize = start;
    loop
        invariant
            start <= i <= tokens.len(),
            v == tokens.deep_view(),
            after_attrs(v, start as int) == after_attrs(v, i as int),
        decreases tokens.len() - i,
    {
        if i >= tokens.len() {
            return Ok(i);
        }
        proof {
            assert(tokens[i as int]@ == v[i as int]);
        }
        if !token_is_punct(&tokens[i], '#') {
            return Ok(i);
        }
        if !(i + 1 < tokens.len() && token_opens(&tokens[i + 1], Delim::Bracket)) {
            return Err(ParseError { pos: i + 1, kind: ErrorKind::AttrDelim });
        }
        proof {
            assert(tokens[i + 1 as int]@ == v[i + 1 as int]);
        }
        match scan_to_close(tokens, i + 2) {
            Ok(j) => {
                i = j;
            },
            Err(e) => {
                return Err(e);
            },
        }
    }
}

fn scan_after_vis(tokens: &Vec<Token>, start: usize) -> (r: Result<usize, ParseError>)
    requires
        start <= tokens.len(),
    ensures
        (match r {
            Ok(j) => after_vis(tokens.deep_view(), start as int) == Ok::<int, ParseError>(j as int)
                && start <= j <= tokens.len(),
            Err(e) => after_vis(tokens.deep_view(), start as int) == Err::<int, ParseError>(e),
        }),
{
    let ghost v = tokens.deep_view();
    if start < tokens.len() && token_is_ident(&tokens[start], "pub") {
        if start + 1 < tokens.len() && token_opens(&tokens[start + 1], Delim::Paren) {
            if start + 2 < tokens.len() && token_is_ident(&tokens[start + 2], "in") {
                scan_to_close(tokens, start + 2)
            } else if start + 2 < tokens.len() && start + 3 < tokens.len() && (token_is_ident(
                &tokens[start + 2],
                "crate",
            )
                || token_is_ident(&tokens[start + 2], "self") || token_is_ident(
                &tokens[start + 2],
                "super",
            )) && token_is_close(&tokens[start + 3]) {
                Ok(start + 4)
            } else {
                Ok(start + 1)
            }
        } else {
            Ok(start + 1)
        }
    } else {
        Ok(start)
    }
}

fn scan_type_end(tokens: &Vec<Token>, start: usize) -> (r: Result<usize, ParseError>)
    requires
        start <= tokens.len(),
    ensures
        (match r {
            Ok(j) => type_end(tokens.deep_view(), start as int, 0, 0) == Ok::<int, ParseError>(
                j as int,
            ) && start <= j < tokens.len(),
            Err(e) => type_end(tokens.deep_view(), start as int, 0, 0) == Err::<int, ParseError>(
                e,
            ),
        }),
{
    let ghost v = tokens.deep_view();
    let mut i: usize = start;
    let mut depth: usize = 0;
    let mut angle: usize = 0;
    loop
        invariant
            start <= i <= tokens.len(),
            depth as int <= i as int,
            angle as int <= i as int,
            v == tokens.deep_view(),
            type_end(v, start as int, 0, 0) == type_end(v, i as int, depth as int, angle as int),
        decreases tokens.len() - i,
    {
        if i >= tokens.len() {
            return Err(ParseError { pos: tokens.len(), kind: ErrorKind::MissingEq });
        }
        let t = &tokens[i];
        proof {
            assert(t@ == v[i as int]);
        }
        if token_is_open(t) {
            depth = depth + 1;
            i = i + 1;
        } else if token_is_close(t) {
            if depth == 0 {
                return Err(ParseError { pos: i, kind: ErrorKind::UnexpectedClose });
            }
            depth = depth - 1;
            i = i + 1;
        } else if token_is_joint_punct(t, '-') && i + 1 < tokens.len() && token_is_punct(
            &tokens[i + 1],
            '>',
        ) {
            proof {
                assert(tokens[i + 1 as int]@ == v[i + 1 as int]);
            }
            i = i + 2;
        } else if depth == 0 && angle == 0 && token_is_punct(t, '=') {
            return Ok(i);
        } else if depth == 0 && token_is_punct(t, '<') {
            angle = angle + 1;
            i = i + 1;
        } else if depth == 0 && angle > 0 && token_is_punct(t, '>') {
            angle = angle - 1;
            i = i + 1;
        } else {
            i = i + 1;
        }
    }
}

fn scan_expr_end(tokens: &Vec<Token>, start: usize) -> (r: Result<usize, ParseError>)
    requires
        start <= tokens.len(),
    ensures
        (match r {
            Ok(j) => expr_end(tokens.deep_view(), start as int, 0) == Ok::<int, ParseError>(
                j as int,
            ) && start <= j < tokens.len(),
            Err(e) => expr_end(tokens.deep_view(), start as int, 0) == Err::<int, ParseError>(e),
        }),
{
    let ghost v = tokens.deep_view();
    let mut i: usize = start;
    let mut depth: usize = 0;
    loop
        invariant
            start <= i <= tokens.len(),
            depth as int <= i as int,
            v == tokens.deep_view(),
            expr_end(v, start as int, 0) == expr_end(v, i as int, depth as int),
        decreases tokens.len() - i,
    {
        if i >= tokens.len() {
            return Err(ParseError { pos: tokens.len(), kind: ErrorKind::MissingSemi });
        }
        let t = &tokens[i];
        proof {
            assert(t@ == v[i as int]);
        }
        if token_is_open(t) {
            depth = depth + 1;
            i = i + 1;
        } else if token_is_close(t) {
            if depth == 0 {
                return Err(ParseError { pos: i, kind: ErrorKind::UnexpectedClose });
            }
            depth = depth - 1;
            i = i + 1;
        } else if depth == 0 && token_is_punct(t, ';') {
            return Ok(i);
        } else {
            i = i + 1;
        }
    }
}

/// Clones the token run `[from, to)` of `tokens`.
fn copy_range(tokens: &Vec<Token>, from: usize, to: usize) -> (r: Vec<Token>)
    requires
        from <= to <= tokens.len(),
    ensures
        r.deep_view() == tokens.deep_view().subrange(from as int, to as int),
{
    let ghost v = tokens.deep_view();
    let mut out: Vec<Token> = Vec::new();
    proof {
        assert(out.deep_view() =~= v.subrange(from as int, from as int));
    }
    let mut i: usize = from;
    while i < to
        invariant
            from <= i <= to <= tokens.len(),
            v == tokens.deep_view(),
            out.deep_view() == v.subrange(from as int, i as int),
        decreases to - i,
    {
        let ghost prev = out.deep_view();
        let t = copy_token(&tokens[i]);
        proof {
            assert(t.deep_view() == v[i as int]);
        }
        out.push(t);
        proof {
            assert(out.deep_view().len() == prev.len() + 1);
            assert(forall|k: int|
                0 <= k < prev.len() ==> out.deep_view()[k] == #[trigger] prev[k]);
            assert(out.deep_view()[prev.len() as int] == t.deep_view());
            assert(out.deep_view() =~= v.subrange(from as int, i as int + 1));
        }
        i = i + 1;
    }
    out
}

fn word_eq(a: &str, b: &str) -> (r: bool)
    ensures
        r == (a@ == b@),
{
    let x: String = a.to_owned();
    let y: String = b.to_owned();
    x == y
}

fn word_is_reserved(s: &str) -> (r: bool)
    ensures
        r == is_reserved_word(s@),
{
    let mut foreign_kw: String = "ext".to_owned();
    foreign_kw.append("ern");
    word_eq(s, foreign_kw.as_str()) || word_eq(s, "as") || word_eq(s, "async") || word_eq(s, "await") || word_eq(s, "break")
        || word_eq(s, "const") || word_eq(s, "continue") || word_eq(s, "crate") || word_eq(
        s,
        "dyn",
    ) || word_eq(s, "else") || word_eq(s, "enum") || word_eq(s, "false") || word_eq(s, "fn")
        || word_eq(s, "for") || word_eq(s, "if") || word_eq(s, "impl") || word_eq(s, "in")
        || word_eq(s, "let") || word_eq(s, "loop") || word_eq(s, "match") || word_eq(s, "mod")
        || word_eq(s, "move") || word_eq(s, "mut") || word_eq(s, "pub") || word_eq(s, "ref")
        || word_eq(s, "return") || word_eq(s, "self") || word_eq(s, "Self") || word_eq(s, "static")
        || word_eq(s, "struct") || word_eq(s, "super") || word_eq(s, "trait") || word_eq(s, "true")
        || word_eq(s, "type") || word_eq(s, "unsafe") || word_eq(s, "use") || word_eq(s, "where")
        || word_eq(s, "while") || word_eq(s, "yield") || word_eq(s, "abstract") || word_eq(
        s,
        "become",
    ) || word_eq(s, "box") || word_eq(s, "do") || word_eq(s, "final") || word_eq(s, "macro")
        || word_eq(s, "override") || word_eq(s, "priv") || word_eq(s, "try") || word_eq(
        s,
        "typeof",
    ) || word_eq(s, "unsized") || word_eq(s, "virtual")
}

fn scan_flaw(tokens: &Vec<Token>, start: usize, end: usize, expr_mode: bool) -> (r: Option<usize>)
    requires
        start <= end <= tokens.len(),
    ensures
        (match r {
            Some(fp) => run_flaw(
                tokens.deep_view(),
                start as int,
                end as int,
                0,
                TokClass::Start,
                expr_mode,
            ) == Some(fp as int),
            None => run_flaw(
                tokens.deep_view(),
                start as int,
                end as int,
                0,
                TokClass::Start,
                expr_mode,
            ) is None,
        }),
{
    let ghost v = tokens.deep_view();
    let mut i: usize = start;
    let mut depth: usize = 0;
    let mut prev = TokClass::Start;
    loop
        invariant
            start <= i <= end <= tokens.len(),
            depth as int <= i as int,
            v == tokens.deep_view(),
            run_flaw(v, start as int, end as int, 0, TokClass::Start, expr_mode) == run_flaw(
                v,
                i as int,
                end as int,
                depth as int,
                prev,
                expr_mode,
            ),
        decreases end - i,
    {
        if i >= end {
            return None;
        }
        let t = &tokens[i];
        proof {
            assert(t@ == v[i as int]);
        }
        match t {
            Token::Open(_) => {
                if depth == 0 {
                    prev = TokClass::Grouped;
                }
                depth = depth + 1;
                i = i + 1;
            },
            Token::Close(_) => {
                if depth > 0 {
                    depth = depth - 1;
                }
                i = i + 1;
            },
            Token::Punct(c, _) => {
                if depth == 0 {
                    prev = if *c == '\'' {
                        TokClass::Quote
                    } else {
                        TokClass::Punctuation
                    };
                }
                i = i + 1;
            },
            Token::Literal(_) => {
                if depth == 0 {
                    if prev == TokClass::LitAtom || (expr_mode && prev == TokClass::PlainWord) || (
                    !expr_mode && prev == TokClass::Start) {
                        return Some(i);
                    }
                    prev = TokClass::LitAtom;
                }
                i = i + 1;
            },
            Token::Ident(s) => {
                if depth == 0 {
                    if prev == TokClass::Quote {
                        prev = TokClass::LifetimeWord;
                    } else if word_is_reserved(s.as_str()) {
                        prev = TokClass::ReservedWord;
                    } else if prev == TokClass::LitAtom || prev == TokClass::PlainWord {
                        return Some(i);
                    } else {
                        prev = TokClass::PlainWord;
                    }
                }
                i = i + 1;
            },
        }
    }
}

fn parse_decl_at(tokens: &Vec<Token>, at: usize) -> (r: Result<(Binding, usize), ParseError>)
    requires
        at <= tokens.len(),
    ensures
        (match r {
            Ok(p) => parse_decl(tokens.deep_view(), at as int) == Ok::<
                (BindingView, int),
                ParseError,
            >((p.0.deep_view(), p.1 as int)) && at < p.1 <= tokens.len(),
            Err(e) => parse_decl(tokens.deep_view(), at as int) == Err::<
                (BindingView, int),
                ParseError,
            >(e),
        }),
{
    let ghost v = tokens.deep_view();
    let v0 = match scan_after_attrs(tokens, at) {
        Ok(j) => j,
        Err(e) => {
            return Err(e);
        },
    };
    let s0 = match scan_after_vis(tokens, v0) {
        Ok(j) => j,
        Err(e) => {
            return Err(e);
        },
    };
    if s0 >= tokens.len() || !token_is_ident(&tokens[s0], "static") {
        return Err(ParseError { pos: s0, kind: ErrorKind::ExpectedStatic });
    }
    let r0 = s0 + 1;
    if r0 >= tokens.len() || !token_is_ident(&tokens[r0], "ref") {
        return Err(ParseError { pos: r0, kind: ErrorKind::ExpectedRef });
    }
    let n0 = r0 + 1;
    let name_opt = if n0 < tokens.len() {
        token_ident_text(&tokens[n0])
    } else {
        None
    };
    let name = match name_opt {
        Some(s) => s,
        None => {
            return Err(ParseError { pos: n0, kind: ErrorKind::ExpectedName });
        },
    };
    proof {
        assert(tokens[n0 as int]@ == v[n0 as int]);
    }
    if word_is_reserved(name.as_str()) {
        return Err(ParseError { pos: n0, kind: ErrorKind::ReservedName });
    }
    let c0 = n0 + 1;
    if c0 >= tokens.len() || !token_is_punct(&tokens[c0], ':') {
        return Err(ParseError { pos: c0, kind: ErrorKind::ExpectedColon });
    }
    let t0 = c0 + 1;
    let te = match scan_type_end(tokens, t0) {
        Ok(j) => j,
        Err(e) => {
            return Err(e);
        },
    };
    if te == t0 {
        return Err(ParseError { pos: t0, kind: ErrorKind::EmptyType });
    }
    match scan_flaw(tokens, t0, te, false) {
        Some(fp) => {
            return Err(ParseError { pos: fp, kind: ErrorKind::InvalidType });
        },
        None => {},
    }
    let ty_text = render_run(tokens, t0, te);
    if !text_is_type(ty_text.as_str()) {
        return Err(ParseError { pos: t0, kind: ErrorKind::InvalidType });
    }
    let e0 = te + 1;
    let se = match scan_expr_end(tokens, e0) {
        Ok(j) => j,
        Err(e) => {
            return Err(e);
        },
    };
    if se == e0 {
        return Err(ParseError { pos: e0, kind: ErrorKind::EmptyInit });
    }
    match scan_flaw(tokens, e0, se, true) {
        Some(fp) => {
            return Err(ParseError { pos: fp, kind: ErrorKind::InvalidInit });
        },
        None => {},
    }
    let init_text = render_run(tokens, e0, se);
    if !text_is_expr(init_text.as_str()) {
        return Err(ParseError { pos: e0, kind: ErrorKind::InvalidInit });
    }
    let vis = copy_range(tokens, v0, s0);
    let ty = copy_range(tokens, t0, te);
    let init = copy_range(tokens, e0, se);
    let b = Binding { vis, name, ty, init };
    proof {
        assert(tokens[n0 as int]@ == v[n0 as int]);
        assert(b.deep_view() == (BindingView {
            vis: v.subrange(v0 as int, s0 as int),
            name: ident_text(v[n0 as int]),
            ty: v.subrange(t0 as int, te as int),
            init: v.subrange(e0 as int, se as int),
        }));
    }
    Ok((b, se + 1))
}

/// Parses a whole declaration block: the ordered bindings it declares, or the
/// first error. Returns exactly what [`parse_spec`] says of the input.
pub fn parse(tokens: &Vec<Token>) -> (r: Result<Vec<Binding>, ParseError>)
    ensures
        (match r {
            Ok(bs) => parse_spec(tokens.deep_view()) == Ok::<Seq<BindingView>, ParseError>(
                bs.deep_view(),
            ),
            Err(e) => parse_spec(tokens.deep_view()) == Err::<Seq<BindingView>, ParseError>(e),
        }),
{
    let ghost v = tokens.deep_view();
    let mut out: Vec<Binding> = Vec::new();
    proof {
        assert(out.deep_view() =~= Seq::<BindingView>::empty());
    }
    let mut i: usize = 0;
    loop
        invariant
            i <= tokens.len(),
            v == tokens.deep_view(),
            (match parse_from(v, i as int) {
                Ok(rest) => parse_from(v, 0) == Ok::<Seq<BindingView>, ParseError>(
                    out.deep_view() + rest,
                ),
                Err(e) => parse_from(v, 0) == Err::<Seq<BindingView>, ParseError>(e),
            }),
        decreases tokens.len() - i,
    {
        if i >= tokens.len() {
            proof {
                assert(parse_from(v, i as int) == Ok::<Seq<BindingView>, ParseError>(Seq::empty()));
                assert(out.deep_view() + Seq::<BindingView>::empty() =~= out.deep_view());
            }
            return Ok(out);
        }
        match parse_decl_at(tokens, i) {
            Err(e) => {
                proof {
                    assert(parse_from(v, i as int) == Err::<Seq<BindingView>, ParseError>(e));
                }
                return Err(e);
            },
            Ok((b, j)) => {
                let ghost prev = out.deep_view();
                let ghost bv = b.deep_view();
                out.push(b);
                proof {
                    assert(out.deep_view() =~= prev.push(bv));
                    assert(prev.push(bv) =~= prev + seq![bv]);
                    if let Ok(rest) = parse_from(v, j as int) {
                        assert(parse_from(v, i as int) == Ok::<Seq<BindingView>, ParseError>(
                            seq![bv] + rest,
                        ));
                        assert(prev + (seq![bv] + rest) =~= (prev + seq![bv]) + rest);
                    }
                }
                i = j;
            },
        }
    }
}

} // verus!
