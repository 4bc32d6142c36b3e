//! The code generator. For every binding, in source order, it emits a
//! zero-sized marker type and value named after the binding, and a
//! dereference implementation that asserts at compile time that the declared
//! type is `Sync` and `Sized`, then initializes a process-wide slot exactly
//! once under a one-time guard and returns a reference to it. After all
//! bindings it emits one public `init_all` function that dereferences every
//! marker in declaration order.
//!
//! If any binding's initializer is the empty parenthesized grouping `()` (a
//! reserved form), the whole invocation produces no output at all.
//!
//! The emitted token sequence is stated exactly by [`generate_spec`]; the
//! executable [`generate`] is proved to return it.

use vstd::prelude::*;

use crate::parse::Binding;
use crate::parse::BindingView;
use crate::token::copy_token;
use crate::token::Delim;
use crate::token::Spacing;
use crate::token::TokView;
use crate::token::Token;

verus! {

/// An identifier token.
pub open spec fn tvi(s: Seq<char>) -> TokView {
    TokView::Ident(s)
}

/// A punctuation token standing alone.
pub open spec fn tvp(c: char) -> TokView {
    TokView::Punct(c, Spacing::Alone)
}

/// A punctuation token joined to the next one (first half of `::`, `->`, `||`).
pub open spec fn tvj(c: char) -> TokView {
    TokView::Punct(c, Spacing::Joint)
}

/// An opening delimiter.
pub open spec fn tvo(d: Delim) -> TokView {
    TokView::Open(d)
}

/// A closing delimiter.
pub open spec fn tvc(d: Delim) -> TokView {
    TokView::Close(d)
}

/// An outer attribute of one argument: `# [ name ( arg ) ]`.
pub open spec fn attr_tokens(name: Seq<char>, arg: Seq<char>) -> Seq<TokView> {
    seq![
        tvp('#'),
        tvo(Delim::Bracket),
        tvi(name),
        tvo(Delim::Paren),
        tvi(arg),
        tvc(Delim::Paren),
        tvc(Delim::Bracket),
    ]
}

/// A three-segment path `a :: b :: c`.
pub open spec fn path3(a: Seq<char>, b: Seq<char>, c: Seq<char>) -> Seq<TokView> {
    seq![tvi(a), tvj(':'), tvp(':'), tvi(b), tvj(':'), tvp(':'), tvi(c)]
}

/// The marker for one binding: a unit-like struct named after it, and a
/// static of that type so the name can be dereferenced, both with the
/// binding's own visibility.
pub open spec fn marker_tokens(vis: Seq<TokView>, name: Seq<char>) -> Seq<TokView> {
    attr_tokens("allow"@, "missing_copy_implementations"@) + attr_tokens(
        "allow"@,
        "non_camel_case_types"@,
    ) + attr_tokens("allow"@, "dead_code"@) + vis + seq![
        tvi("struct"@),
        tvi(name),
        tvo(Delim::Brace),
        tvi("__"@),
        tvp(':'),
        tvo(Delim::Paren),
        tvc(Delim::Paren),
        tvc(Delim::Brace),
    ] + attr_tokens("doc"@, "hidden"@) + vis + seq![
        tvi("static"@),
        tvi(name),
        tvp(':'),
        tvi(name),
        tvp('='),
        tvi(name),
        tvo(Delim::Brace),
        tvi("__"@),
        tvp(':'),
        tvo(Delim::Paren),
        tvc(Delim::Paren),
        tvc(Delim::Brace),
        tvp(';'),
    ]
}

/// A compile-time assertion that the declared type has a marker capability:
/// `struct name where TYPE : std :: marker :: trait_name ;`.
pub open spec fn guard_tokens(name: Seq<char>, ty: Seq<TokView>, trait_name: Seq<char>) -> Seq<
    TokView,
> {
    seq![tvi("struct"@), tvi(name), tvi("where"@)] + ty + seq![tvp(':')] + path3(
        "std"@,
        "marker"@,
        trait_name,
    ) + seq![tvp(';')]
}

/// The one-time guard: `static ONCE : std :: sync :: Once = std :: sync :: Once :: new ( ) ;`.
pub open spec fn once_tokens() -> Seq<TokView> {
    seq![tvi("static"@), tvi("ONCE"@), tvp(':')] + path3("std"@, "sync"@, "Once"@) + seq![tvp('=')]
        + path3("std"@, "sync"@, "Once"@) + seq![
        tvj(':'),
        tvp(':'),
        tvi("new"@),
        tvo(Delim::Paren),
        tvc(Delim::Paren),
        tvp(';'),
    ]
}

/// The process-wide slot: `static mut VALUE : * mut TYPE = 0 as * mut TYPE ;`.
pub open spec fn slot_tokens(ty: Seq<TokView>) -> Seq<TokView> {
    seq![tvi("static"@), tvi("mut"@), tvi("VALUE"@), tvp(':'), tvp('*'), tvi("mut"@)] + ty + seq![
        tvp('='),
        TokView::Literal("0"@),
        tvi("as"@),
        tvp('*'),
        tvi("mut"@),
    ] + ty + seq![tvp(';')]
}

/// The guarded initialization up to the point where the initializer
/// expression is spliced in: the sole copy of the initializer stands inside
/// the closure handed to `call_once`.
pub open spec fn guarded_init_head() -> Seq<TokView> {
    seq![
        tvi("unsafe"@),
        tvo(Delim::Brace),
        tvi("ONCE"@),
        tvp('.'),
        tvi("call_once"@),
        tvo(Delim::Paren),
        tvj('|'),
        tvp('|'),
        tvi("VALUE"@),
        tvp('='),
        tvi("Box"@),
        tvj(':'),
        tvp(':'),
        tvi("into_raw"@),
        tvo(Delim::Paren),
        tvi("Box"@),
        tvj(':'),
        tvp(':'),
        tvi("new"@),
        tvo(Delim::Paren),
    ]
}

/// What follows the spliced initializer: close the calls, then return a
/// reference to the slot that every access (first or later) reads.
pub open spec fn guarded_init_tail() -> Seq<TokView> {
    seq![
        tvc(Delim::Paren),
        tvc(Delim::Paren),
        tvc(Delim::Paren),
        tvp(';'),
        tvp('&'),
        tvp('*'),
        tvi("VALUE"@),
        tvc(Delim::Brace),
    ]
}

/// Everything of the dereference implementation that stands before the
/// spliced initializer expression: the `Deref` impl head, the two
/// compile-time capability assertions, the one-time guard, the slot, and the
/// opening of the `call_once` closure.
pub open spec fn deref_impl_lead(name: Seq<char>, ty: Seq<TokView>) -> Seq<TokView> {
    seq![tvi("impl"@)] + path3("std"@, "ops"@, "Deref"@) + seq![
        tvi("for"@),
        tvi(name),
        tvo(Delim::Brace),
        tvi("type"@),
        tvi("Target"@),
        tvp('='),
    ] + ty + seq![
        tvp(';'),
        tvi("fn"@),
        tvi("deref"@),
        tvo(Delim::Paren),
        tvp('&'),
        tvi("self"@),
        tvc(Delim::Paren),
        tvj('-'),
        tvp('>'),
        tvp('&'),
    ] + ty + seq![tvo(Delim::Brace)] + guard_tokens("_AssertSync"@, ty, "Sync"@) + guard_tokens(
        "_AssertSized"@,
        ty,
        "Sized"@,
    ) + once_tokens() + slot_tokens(ty) + guarded_init_head()
}

/// Everything of the dereference implementation that stands after the
/// spliced initializer expression.
pub open spec fn deref_impl_close() -> Seq<TokView> {
    guarded_init_tail() + seq![tvc(Delim::Brace), tvc(Delim::Brace)]
}

/// The dereference implementation for one binding. The binding's initializer
/// expression is spliced in exactly once, between the lead and the close,
/// inside the closure handed to the one-time guard.
pub open spec fn deref_impl_tokens(name: Seq<char>, ty: Seq<TokView>, init: Seq<TokView>) -> Seq<
    TokView,
> {
    deref_impl_lead(name, ty) + init + deref_impl_close()
}

/// Everything emitted for one binding.
pub open spec fn binding_tokens(b: BindingView) -> Seq<TokView> {
    marker_tokens(b.vis, b.name) + deref_impl_tokens(b.name, b.ty, b.init)
}

/// Everything emitted for a sequence of bindings, in order.
pub open spec fn bindings_tokens(bs: Seq<BindingView>) -> Seq<TokView>
    decreases bs.len(),
{
    if bs.len() == 0 {
        Seq::empty()
    } else {
        bindings_tokens(bs.drop_last()) + binding_tokens(bs.last())
    }
}

/// One forced access in the aggregate initializer:
/// `let _ = std :: ops :: Deref :: deref ( & name ) ;`.
pub open spec fn deref_stmt(name: Seq<char>) -> Seq<TokView> {
    seq![tvi("let"@), tvi("_"@), tvp('=')] + path3("std"@, "ops"@, "Deref"@) + seq![
        tvj(':'),
        tvp(':'),
        tvi("deref"@),
        tvo(Delim::Paren),
        tvp('&'),
        tvi(name),
        tvc(Delim::Paren),
        tvp(';'),
    ]
}

/// The forced accesses of the aggregate initializer, one per name, in order.
pub open spec fn derefs_tokens(names: Seq<Seq<char>>) -> Seq<TokView>
    decreases names.len(),
{
    if names.len() == 0 {
        Seq::empty()
    } else {
        derefs_tokens(names.drop_last()) + deref_stmt(names.last())
    }
}

/// The head of the aggregate initializer: `pub fn init_all ( ) {`.
pub open spec fn init_all_head() -> Seq<TokView> {
    seq![
        tvi("pub"@),
        tvi("fn"@),
        tvi("init_all"@),
        tvo(Delim::Paren),
        tvc(Delim::Paren),
        tvo(Delim::Brace),
    ]
}

/// The aggregate initializer function, which forces every named binding.
pub open spec fn init_all_tokens(names: Seq<Seq<char>>) -> Seq<TokView> {
    init_all_head() + derefs_tokens(names) + seq![tvc(Delim::Brace)]
}

/// The names of the bindings, in declaration order.
pub open spec fn names_of(bs: Seq<BindingView>) -> Seq<Seq<char>> {
    bs.map_values(|b: BindingView| b.name)
}

/// The reserved degenerate form: an initializer that is exactly `( )`.
pub open spec fn is_unit_init(b: BindingView) -> bool {
    b.init == seq![tvo(Delim::Paren), tvc(Delim::Paren)]
}

/// Whether any binding of the block carries the degenerate initializer.
pub open spec fn has_unit_init(bs: Seq<BindingView>) -> bool {
    exists|k: int| 0 <= k < bs.len() && is_unit_init(#[trigger] bs[k])
}

/// What the generator emits for a block: nothing at all if any binding has
/// the degenerate initializer; otherwise every binding's construct in source
/// order followed by the aggregate initializer.
pub open spec fn generate_spec(bs: Seq<BindingView>) -> Seq<TokView> {
    if has_unit_init(bs) {
        Seq::empty()
    } else {
        bindings_tokens(bs) + init_all_tokens(names_of(bs))
    }
}

fn push_tok(out: &mut Vec<Token>, t: Token)
    ensures
        final(out).deep_view() == old(out).deep_view().push(t.deep_view()),
{
    let ghost prev = out.deep_view();
    let ghost tv = t.deep_view();
    out.push(t);
    proof {
        assert(out.deep_view().len() == prev.len() + 1);
        assert(forall|k: int| 0 <= k < prev.len() ==> out.deep_view()[k] == #[trigger] prev[k]);
        assert(out.deep_view()[prev.len() as int] == tv);
        assert(out.deep_view() =~= prev.push(tv));
    }
}

fn push_ident(out: &mut Vec<Token>, s: &str)
    ensures
        final(out).deep_view() == old(out).deep_view().push(tvi(s@)),
{
    push_tok(out, Token::Ident(s.to_owned()));
}

fn push_punct(out: &mut Vec<Token>, c: char)
    ensures
        final(out).deep_view() == old(out).deep_view().push(tvp(c)),
{
    push_tok(out, Token::Punct(c, Spacing::Alone));
}

fn push_joint(out: &mut Vec<Token>, c: char)
    ensures
        final(out).deep_view() == old(out).deep_view().push(tvj(c)),
{
    push_tok(out, Token::Punct(c, Spacing::Joint));
}

fn push_open(out: &mut Vec<Token>, d: Delim)
    ensures
        final(out).deep_view() == old(out).deep_view().push(tvo(d)),
{
    push_tok(out, Token::Open(d));
}

fn push_close(out: &mut Vec<Token>, d: Delim)
    ensures
        final(out).deep_view() == old(out).deep_view().push(tvc(d)),
{
    push_tok(out, Token::Close(d));
}

/// Appends a verbatim copy of `src`.
fn emit_tokens(out: &mut Vec<Token>, src: &Vec<Token>)
    ensures
        final(out).deep_view() == old(out).deep_view() + src.deep_view(),
{
    let ghost base = out.deep_view();
    let ghost v = src.deep_view();
    let mut i: usize = 0;
    proof {
        assert(out.deep_view() =~= base + v.subrange(0, 0));
    }
    while i < src.len()
        invariant
            i <= src.len(),
            base == old(out).deep_view(),
            v == src.deep_view(),
            out.deep_view() == base + v.subrange(0, i as int),
        decreases src.len() - i,
    {
        let t = copy_token(&src[i]);
        proof {
            assert(t.deep_view() == v[i as int]);
        }
        push_tok(out, t);
        proof {
            assert(out.deep_view() =~= base + v.subrange(0, i as int + 1));
        }
        i = i + 1;
    }
    proof {
        assert(v.subrange(0, src.len() as int) =~= v);
    }
}

fn emit_attr(out: &mut Vec<Token>, name: &str, arg: &str)
    ensures
        final(out).deep_view() == old(out).deep_view() + attr_tokens(name@, arg@),
{
    let ghost base = out.deep_view();
    push_punct(out, '#');
    push_open(out, Delim::Bracket);
    push_ident(out, name);
    push_open(out, Delim::Paren);
    push_ident(out, arg);
    push_close(out, Delim::Paren);
    push_close(out, Delim::Bracket);
    proof {
        assert(out.deep_view() =~= base + attr_tokens(name@, arg@));
    }
}

fn emit_path3(out: &mut Vec<Token>, a: &str, b: &str, c: &str)
    ensures
        final(out).deep_view() == old(out).deep_view() + path3(a@, b@, c@),
{
    let ghost base = out.deep_view();
    push_ident(out, a);
    push_joint(out, ':');
    push_punct(out, ':');
    push_ident(out, b);
    push_joint(out, ':');
    push_punct(out, ':');
    push_ident(out, c);
    proof {
        assert(out.deep_view() =~= base + path3(a@, b@, c@));
    }
}

fn emit_marker(out: &mut Vec<Token>, vis: &Vec<Token>, name: &String)
    ensures
        final(out).deep_view() == old(out).deep_view() + marker_tokens(vis.deep_view(), name@),
{
    let ghost base = out.deep_view();
    emit_attr(out, "allow", "missing_copy_implementations");
    emit_attr(out, "allow", "non_camel_case_types");
    emit_attr(out, "allow", "dead_code");
    emit_tokens(out, vis);
    push_ident(out, "struct");
    push_ident(out, name.as_str());
    push_open(out, Delim::Brace);
    push_ident(out, "__");
    push_punct(out, ':');
    push_open(out, Delim::Paren);
    push_close(out, Delim::Paren);
    push_close(out, Delim::Brace);
    emit_attr(out, "doc", "hidden");
    emit_tokens(out, vis);
    push_ident(out, "static");
    push_ident(out, name.as_str());
    push_punct(out, ':');
    push_ident(out, name.as_str());
    push_punct(out, '=');
    push_ident(out, name.as_str());
    push_open(out, Delim::Brace);
    push_ident(out, "__");
    push_punct(out, ':');
    push_open(out, Delim::Paren);
    push_close(out, Delim::Paren);
    push_close(out, Delim::Brace);
    push_punct(out, ';');
    proof {
        assert(out.deep_view() =~= base + marker_tokens(vis.deep_view(), name@));
    }
}

fn emit_guard(out: &mut Vec<Token>, name: &str, ty: &Vec<Token>, trait_name: &str)
    ensures
        final(out).deep_view() == old(out).deep_view() + guard_tokens(
            name@,
            ty.deep_view(),
            trait_name@,
        ),
{
    let ghost base = out.deep_view();
    push_ident(out, "struct");
    push_ident(out, name);
    push_ident(out, "where");
    emit_tokens(out, ty);
    push_punct(out, ':');
    emit_path3(out, "std", "marker", trait_name);
    push_punct(out, ';');
    proof {
        assert(out.deep_view() =~= base + guard_tokens(name@, ty.deep_view(), trait_name@));
    }
}

fn emit_once(out: &mut Vec<Token>)
    ensures
        final(out).deep_view() == old(out).deep_view() + once_tokens(),
{
    let ghost base = out.deep_view();
    push_ident(out, "static");
    push_ident(out, "ONCE");
    push_punct(out, ':');
    emit_path3(out, "std", "sync", "Once");
    push_punct(out, '=');
    emit_path3(out, "std", "sync", "Once");
    push_joint(out, ':');
    push_punct(out, ':');
    push_ident(out, "new");
    push_open(out, Delim::Paren);
    push_close(out, Delim::Paren);
    push_punct(out, ';');
    proof {
        assert(out.deep_view() =~= base + once_tokens());
    }
}

fn emit_slot(out: &mut Vec<Token>, ty: &Vec<Token>)
    ensures
        final(out).deep_view() == old(out).deep_view() + slot_tokens(ty.deep_view()),
{
    let ghost base = out.deep_view();
    push_ident(out, "static");
    push_ident(out, "mut");
    push_ident(out, "VALUE");
    push_punct(out, ':');
    push_punct(out, '*');
    push_ident(out, "mut");
    emit_tokens(out, ty);
    push_punct(out, '=');
    push_tok(out, Token::Literal("0".to_owned()));
    push_ident(out, "as");
    push_punct(out, '*');
    push_ident(out, "mut");
    emit_tokens(out, ty);
    push_punct(out, ';');
    proof {
        assert(out.deep_view() =~= base + slot_tokens(ty.deep_view()));
    }
}

fn emit_guarded_init(out: &mut Vec<Token>, init: &Vec<Token>)
    ensures
        final(out).deep_view() == old(out).deep_view() + guarded_init_head() + init.deep_view()
            + guarded_init_tail(),
{
    let ghost base = out.deep_view();
    push_ident(out, "unsafe");
    push_open(out, Delim::Brace);
    push_ident(out, "ONCE");
    push_punct(out, '.');
    push_ident(out, "call_once");
    push_open(out, Delim::Paren);
    push_joint(out, '|');
    push_punct(out, '|');
    push_ident(out, "VALUE");
    push_punct(out, '=');
    push_ident(out, "Box");
    push_joint(out, ':');
    push_punct(out, ':');
    push_ident(out, "into_raw");
    push_open(out, Delim::Paren);
    push_ident(out, "Box");
    push_joint(out, ':');
    push_punct(out, ':');
    push_ident(out, "new");
    push_open(out, Delim::Paren);
    proof {
        assert(out.deep_view() =~= base + guarded_init_head());
    }
    emit_tokens(out, init);
    push_close(out, Delim::Paren);
    push_close(out, Delim::Paren);
    push_close(out, Delim::Paren);
    push_punct(out, ';');
    push_punct(out, '&');
    push_punct(out, '*');
    push_ident(out, "VALUE");
    push_close(out, Delim::Brace);
    proof {
        assert(out.deep_view() =~= base + guarded_init_head() + init.deep_view()
            + guarded_init_tail());
    }
}

#[verifier::rlimit(80)]
fn emit_deref_impl(out: &mut Vec<Token>, name: &String, ty: &Vec<Token>, init: &Vec<Token>)
    ensures
        final(out).deep_view() == old(out).deep_view() + deref_impl_tokens(
            name@,
            ty.deep_view(),
            init.deep_view(),
        ),
{
    let ghost base = out.deep_view();
    push_ident(out, "impl");
    emit_path3(out, "std", "ops", "Deref");
    push_ident(out, "for");
    push_ident(out, name.as_str());
    push_open(out, Delim::Brace);
    push_ident(out, "type");
    push_ident(out, "Target");
    push_punct(out, '=');
    emit_tokens(out, ty);
    push_punct(out, ';');
    push_ident(out, "fn");
    push_ident(out, "deref");
    push_open(out, Delim::Paren);
    push_punct(out, '&');
    push_ident(out, "self");
    push_close(out, Delim::Paren);
    push_joint(out, '-');
    push_punct(out, '>');
    push_punct(out, '&');
    emit_tokens(out, ty);
    push_open(out, Delim::Brace);
    let ghost mid = base + seq![tvi("impl"@)] + path3("std"@, "ops"@, "Deref"@) + seq![
        tvi("for"@),
        tvi(name@),
        tvo(Delim::Brace),
        tvi("type"@),
        tvi("Target"@),
        tvp('='),
    ] + ty.deep_view() + seq![
        tvp(';'),
        tvi("fn"@),
        tvi("deref"@),
        tvo(Delim::Paren),
        tvp('&'),
        tvi("self"@),
        tvc(Delim::Paren),
        tvj('-'),
        tvp('>'),
        tvp('&'),
    ] + ty.deep_view() + seq![tvo(Delim::Brace)];
    proof {
        assert(out.deep_view() =~= mid);
    }
    emit_guard(out, "_AssertSync", ty, "Sync");
    emit_guard(out, "_AssertSized", ty, "Sized");
    emit_once(out);
    emit_slot(out, ty);
    emit_guarded_init(out, init);
    push_close(out, Delim::Brace);
    push_close(out, Delim::Brace);
    proof {
        assert(out.deep_view() =~= base + deref_impl_tokens(
            name@,
            ty.deep_view(),
            init.deep_view(),
        ));
    }
}

fn emit_binding(out: &mut Vec<Token>, b: &Binding)
    ensures
        final(out).deep_view() == old(out).deep_view() + binding_tokens(b.deep_view()),
{
    let ghost base = out.deep_view();
    emit_marker(out, &b.vis, &b.name);
    emit_deref_impl(out, &b.name, &b.ty, &b.init);
    proof {
        assert(out.deep_view() =~= base + binding_tokens(b.deep_view()));
    }
}

fn emit_deref_stmt(out: &mut Vec<Token>, name: &String)
    ensures
        final(out).deep_view() == old(out).deep_view() + deref_stmt(name@),
{
    let ghost base = out.deep_view();
    push_ident(out, "let");
    push_ident(out, "_");
    push_punct(out, '=');
    emit_path3(out, "std", "ops", "Deref");
    push_joint(out, ':');
    push_punct(out, ':');
    push_ident(out, "deref");
    push_open(out, Delim::Paren);
    push_punct(out, '&');
    push_ident(out, name.as_str());
    push_close(out, Delim::Paren);
    push_punct(out, ';');
    proof {
        assert(out.deep_view() =~= base + deref_stmt(name@));
    }
}

/// Whether this binding's initializer is exactly the reserved `( )` form.
pub fn binding_has_unit_init(b: &Binding) -> (r: bool)
    ensures
        r == is_unit_init(b.deep_view()),
{
    let ghost bv = b.deep_view();
    let ghost unit = seq![tvo(Delim::Paren), tvc(Delim::Paren)];
    if b.init.len() != 2 {
        proof {
            assert(bv.init.len() != 2);
        }
        return false;
    }
    let c0 = match &b.init[0] {
        Token::Open(Delim::Paren) => true,
        _ => false,
    };
    let c1 = match &b.init[1] {
        Token::Close(Delim::Paren) => true,
        _ => false,
    };
    proof {
        assert(bv.init[0] == b.init@[0].deep_view());
        assert(bv.init[1] == b.init@[1].deep_view());
    }
    if c0 && c1 {
        proof {
            assert(bv.init =~= unit);
        }
        true
    } else {
        proof {
            assert(bv.init != unit);
        }
        false
    }
}

/// Emits the whole output for a block of parsed bindings: exactly what
/// [`generate_spec`] says, which is nothing at all when any binding carries
/// the reserved empty-grouping initializer, and otherwise one marker and one
/// dereference implementation per binding followed by the aggregate
/// initializer `init_all`.
pub fn generate(bindings: &Vec<Binding>) -> (r: Vec<Token>)
    ensures
        r.deep_view() == generate_spec(bindings.deep_view()),
{
    let ghost bs = bindings.deep_view();
    let mut k: usize = 0;
    while k < bindings.len()
        invariant
            k <= bindings.len(),
            bs == bindings.deep_view(),
            forall|j: int| 0 <= j < k ==> !is_unit_init(#[trigger] bs[j]),
        decreases bindings.len() - k,
    {
        proof {
            assert(bindings[k as int].deep_view() == bs[k as int]);
        }
        if binding_has_unit_init(&bindings[k]) {
            let empty_out: Vec<Token> = Vec::new();
            proof {
                assert(has_unit_init(bs));
                assert(empty_out.deep_view() =~= Seq::<TokView>::empty());
            }
            return empty_out;
        }
        k = k + 1;
    }
    proof {
        assert(!has_unit_init(bs));
    }
    let mut out: Vec<Token> = Vec::new();
    proof {
        assert(out.deep_view() =~= Seq::<TokView>::empty());
        assert(bs.subrange(0, 0).len() == 0);
        assert(out.deep_view() == bindings_tokens(bs.subrange(0, 0)));
    }
    let mut k: usize = 0;
    while k < bindings.len()
        invariant
            k <= bindings.len(),
            bs == bindings.deep_view(),
            out.deep_view() == bindings_tokens(bs.subrange(0, k as int)),
        decreases bindings.len() - k,
    {
        proof {
            assert(bindings[k as int].deep_view() == bs[k as int]);
        }
        emit_binding(&mut out, &bindings[k]);
        proof {
            let s = bs.subrange(0, k as int + 1);
            assert(s.drop_last() =~= bs.subrange(0, k as int));
            assert(s.last() == bs[k as int]);
            assert(bindings_tokens(s) == bindings_tokens(s.drop_last()) + binding_tokens(s.last()));
        }
        k = k + 1;
    }
    proof {
        assert(bs.subrange(0, bs.len() as int) =~= bs);
    }
    push_ident(&mut out, "pub");
    push_ident(&mut out, "fn");
    push_ident(&mut out, "init_all");
    push_open(&mut out, Delim::Paren);
    push_close(&mut out, Delim::Paren);
    push_open(&mut out, Delim::Brace);
    let ghost ns = names_of(bs);
    proof {
        assert(out.deep_view() =~= bindings_tokens(bs) + init_all_head());
        assert(ns.subrange(0, 0).len() == 0);
        assert(out.deep_view() == bindings_tokens(bs) + init_all_head() + derefs_tokens(
            ns.subrange(0, 0),
        ));
    }
    let mut k: usize = 0;
    while k < bindings.len()
        invariant
            k <= bindings.len(),
            bs == bindings.deep_view(),
            ns == names_of(bs),
            ns.len() == bindings.len(),
            out.deep_view() == bindings_tokens(bs) + init_all_head() + derefs_tokens(
                ns.subrange(0, k as int),
            ),
        decreases bindings.len() - k,
    {
        let b = &bindings[k];
        proof {
            assert(b.deep_view() == bs[k as int]);
            assert(ns[k as int] == bs[k as int].name);
        }
        emit_deref_stmt(&mut out, &b.name);
        proof {
            let s = ns.subrange(0, k as int + 1);
            assert(s.drop_last() =~= ns.subrange(0, k as int));
            assert(s.last() == ns[k as int]);
            assert(derefs_tokens(s) == derefs_tokens(s.drop_last()) + deref_stmt(s.last()));
            assert(out.deep_view() =~= bindings_tokens(bs) + init_all_head() + derefs_tokens(s));
        }
        k = k + 1;
    }
    push_close(&mut out, Delim::Brace);
    proof {
        assert(ns.subrange(0, ns.len() as int) =~= ns);
        assert(out.deep_view() =~= bindings_tokens(bs) + init_all_tokens(ns));
    }
    out
}

} // verus!
