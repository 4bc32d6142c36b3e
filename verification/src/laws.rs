//! The laws of the generator, stated and proved over the same spec functions
//! that the executable functions' contracts use.
//!
//! The transform has no run-time component of its own: what the emitted code
//! does when the consuming program runs (exactly-once evaluation under
//! concurrent first access, blocking until initialization completes) is
//! delegated to the `std::sync::Once` it emits. What can be stated here is
//! the exact shape of the emission, and that is what these laws pin down.

use vstd::prelude::*;

use crate::emit::attr_tokens;
use crate::emit::binding_tokens;
use crate::emit::bindings_tokens;
use crate::emit::guard_tokens;
use crate::emit::guarded_init_head;
use crate::emit::guarded_init_tail;
use crate::emit::once_tokens;
use crate::emit::path3;
use crate::emit::slot_tokens;
use crate::emit::tvj;
use crate::emit::tvp;
use crate::emit::deref_impl_close;
use crate::emit::deref_impl_lead;
use crate::emit::deref_impl_tokens;
use crate::emit::deref_stmt;
use crate::emit::derefs_tokens;
use crate::emit::generate_spec;
use crate::emit::has_unit_init;
use crate::emit::init_all_head;
use crate::emit::init_all_tokens;
use crate::emit::is_unit_init;
use crate::emit::marker_tokens;
use crate::emit::names_of;
use crate::emit::tvc;
use crate::emit::tvi;
use crate::emit::tvo;
use crate::parse::BindingView;
use crate::token::stack_run;
use crate::token::well_nested;
use crate::token::Delim;
use crate::token::TokView;

verus! {

proof fn lemma_stack_run_shift(a: Seq<TokView>, b: Seq<TokView>, j: int, st: Seq<Delim>)
    requires
        0 <= j <= b.len(),
    ensures
        stack_run(a + b, a.len() + j, st) == stack_run(b, j, st),
    decreases b.len() - j,
{
    if j < b.len() {
        assert((a + b)[a.len() + j] == b[j]);
        match b[j] {
            TokView::Open(d) => lemma_stack_run_shift(a, b, j + 1, st.push(d)),
            TokView::Close(d) => {
                if st.len() > 0 && st.last() == d {
                    lemma_stack_run_shift(a, b, j + 1, st.drop_last());
                }
            },
            _ => lemma_stack_run_shift(a, b, j + 1, st),
        }
    }
}

proof fn lemma_stack_run_mid(a: Seq<TokView>, b: Seq<TokView>, i: int, st: Seq<Delim>)
    requires
        0 <= i <= a.len(),
    ensures
        stack_run(a + b, i, st) == (match stack_run(a, i, st) {
            Some(m) => stack_run(b, 0, m),
            None => None,
        }),
    decreases a.len() - i,
{
    if i >= a.len() {
        lemma_stack_run_shift(a, b, 0, st);
    } else {
        assert((a + b)[i] == a[i]);
        match a[i] {
            TokView::Open(d) => lemma_stack_run_mid(a, b, i + 1, st.push(d)),
            TokView::Close(d) => {
                if st.len() > 0 && st.last() == d {
                    lemma_stack_run_mid(a, b, i + 1, st.drop_last());
                }
            },
            _ => lemma_stack_run_mid(a, b, i + 1, st),
        }
    }
}

/// Running the delimiter stack over a concatenation is running it over the
/// first part, then over the second from where the first left off.
pub proof fn lemma_stack_run_concat(a: Seq<TokView>, b: Seq<TokView>, st: Seq<Delim>)
    ensures
        stack_run(a + b, 0, st) == (match stack_run(a, 0, st) {
            Some(m) => stack_run(b, 0, m),
            None => None,
        }),
{
    lemma_stack_run_mid(a, b, 0, st);
}

proof fn lemma_stack_run_base(x: Seq<TokView>, i: int, st: Seq<Delim>, base: Seq<Delim>)
    requires
        0 <= i <= x.len(),
    ensures
        stack_run(x, i, st) matches Some(m) ==> stack_run(x, i, base + st) == Some(base + m),
    decreases x.len() - i,
{
    if i < x.len() {
        match x[i] {
            TokView::Open(d) => {
                lemma_stack_run_base(x, i + 1, st.push(d), base);
                assert(base + st.push(d) =~= (base + st).push(d));
            },
            TokView::Close(d) => {
                if st.len() > 0 && st.last() == d {
                    lemma_stack_run_base(x, i + 1, st.drop_last(), base);
                    assert((base + st).last() == d);
                    assert(base + st.drop_last() =~= (base + st).drop_last());
                }
            },
            _ => lemma_stack_run_base(x, i + 1, st, base),
        }
    }
}

/// A properly nested run neither opens nor closes anything on balance: it
/// leaves any surrounding stack exactly as it found it.
pub proof fn lemma_wn_preserves_stack(x: Seq<TokView>, st: Seq<Delim>)
    requires
        well_nested(x),
    ensures
        stack_run(x, 0, st) == Some(st),
{
    lemma_stack_run_base(x, 0, Seq::empty(), st);
    assert(st + Seq::<Delim>::empty() =~= st);
}

/// Properly nested runs concatenate to a properly nested run.
pub proof fn lemma_wn_concat(a: Seq<TokView>, b: Seq<TokView>)
    requires
        well_nested(a),
        well_nested(b),
    ensures
        well_nested(a + b),
{
    lemma_stack_run_concat(a, b, Seq::empty());
}

proof fn lemma_deref_stmt_wn(name: Seq<char>)
    ensures
        well_nested(deref_stmt(name)),
{
    let st = Seq::<Delim>::empty();
    assert(st.push(Delim::Paren).last() == Delim::Paren);
    assert(st.push(Delim::Paren).drop_last() =~= st);
    reveal_with_fuel(stack_run, 20);
    assert(stack_run(deref_stmt(name), 0, st) == Some(st));
}

proof fn lemma_init_all_head_stack(st: Seq<Delim>)
    ensures
        stack_run(init_all_head(), 0, st) == Some(st.push(Delim::Brace)),
{
    assert(st.push(Delim::Paren).last() == Delim::Paren);
    assert(st.push(Delim::Paren).drop_last() =~= st);
    reveal_with_fuel(stack_run, 8);
    assert(stack_run(init_all_head(), 0, st) == Some(st.push(Delim::Brace)));
}

proof fn lemma_derefs_wn(names: Seq<Seq<char>>)
    ensures
        well_nested(derefs_tokens(names)),
    decreases names.len(),
{
    if names.len() == 0 {
        assert(well_nested(Seq::empty()));
    } else {
        lemma_derefs_wn(names.drop_last());
        lemma_deref_stmt_wn(names.last());
        lemma_wn_concat(derefs_tokens(names.drop_last()), deref_stmt(names.last()));
    }
}

/// The aggregate initializer is always a properly nested token run, whatever
/// the binding names: every group it opens is closed with the same
/// delimiter.
pub proof fn law_aggregate_well_nested(names: Seq<Seq<char>>)
    ensures
        well_nested(init_all_tokens(names)),
{
    let st = Seq::<Delim>::empty();
    lemma_derefs_wn(names);
    lemma_init_all_head_stack(st);
    lemma_wn_preserves_stack(derefs_tokens(names), st.push(Delim::Brace));
    lemma_stack_run_concat(init_all_head(), derefs_tokens(names), st);
    lemma_stack_run_concat(init_all_head() + derefs_tokens(names), seq![tvc(Delim::Brace)], st);
    assert(st.push(Delim::Brace).last() == Delim::Brace);
    assert(st.push(Delim::Brace).drop_last() =~= st);
    reveal_with_fuel(stack_run, 3);
    assert(stack_run(seq![tvc(Delim::Brace)], 0, st.push(Delim::Brace)) == Some(st));
}

proof fn lemma_attr_wn(name: Seq<char>, arg: Seq<char>)
    ensures
        well_nested(attr_tokens(name, arg)),
{
    let st = Seq::<Delim>::empty();
    let s1 = st.push(Delim::Bracket);
    let s2 = s1.push(Delim::Paren);
    assert(s2.last() == Delim::Paren);
    assert(s2.drop_last() =~= s1);
    assert(s1.last() == Delim::Bracket);
    assert(s1.drop_last() =~= st);
    reveal_with_fuel(stack_run, 9);
    assert(stack_run(attr_tokens(name, arg), 0, st) == Some(st));
}

proof fn lemma_path3_wn(a: Seq<char>, b: Seq<char>, c: Seq<char>)
    ensures
        well_nested(path3(a, b, c)),
{
    reveal_with_fuel(stack_run, 9);
    assert(stack_run(path3(a, b, c), 0, Seq::<Delim>::empty()) == Some(Seq::<Delim>::empty()));
}

proof fn lemma_marker_wn(vis: Seq<TokView>, name: Seq<char>)
    requires
        well_nested(vis),
    ensures
        well_nested(marker_tokens(vis, name)),
{
    let st = Seq::<Delim>::empty();
    let a1 = attr_tokens("allow"@, "missing_copy_implementations"@);
    let a2 = attr_tokens("allow"@, "non_camel_case_types"@);
    let a3 = attr_tokens("allow"@, "dead_code"@);
    let sbody = seq![
        tvi("struct"@),
        tvi(name),
        tvo(Delim::Brace),
        tvi("__"@),
        tvp(':'),
        tvo(Delim::Paren),
        tvc(Delim::Paren),
        tvc(Delim::Brace),
    ];
    let doch = attr_tokens("doc"@, "hidden"@);
    let sdecl = seq![
        tvi("static"@),
        tvi(name),
        tvp(':'),
        tvi(name),
        tvp('='),
        tvi(name),
        tvo(Delim::Brace),
        tvi("__"@),
        tvp(':'),
        tvo(Delim::Paren),
        tvc(Delim::Paren),
        tvc(Delim::Brace),
        tvp(';'),
    ];
    lemma_attr_wn("allow"@, "missing_copy_implementations"@);
    lemma_attr_wn("allow"@, "non_camel_case_types"@);
    lemma_attr_wn("allow"@, "dead_code"@);
    lemma_attr_wn("doc"@, "hidden"@);
    let b1 = st.push(Delim::Brace);
    let b2 = b1.push(Delim::Paren);
    assert(b2.last() == Delim::Paren);
    assert(b2.drop_last() =~= b1);
    assert(b1.last() == Delim::Brace);
    assert(b1.drop_last() =~= st);
    reveal_with_fuel(stack_run, 15);
    assert(stack_run(sbody, 0, st) == Some(st));
    assert(stack_run(sdecl, 0, st) == Some(st));
    lemma_wn_concat(a1, a2);
    lemma_wn_concat(a1 + a2, a3);
    lemma_wn_concat(a1 + a2 + a3, vis);
    lemma_wn_concat(a1 + a2 + a3 + vis, sbody);
    lemma_wn_concat(a1 + a2 + a3 + vis + sbody, doch);
    lemma_wn_concat(a1 + a2 + a3 + vis + sbody + doch, vis);
    lemma_wn_concat(a1 + a2 + a3 + vis + sbody + doch + vis, sdecl);
    assert(marker_tokens(vis, name) == a1 + a2 + a3 + vis + sbody + doch + vis + sdecl);
}

proof fn lemma_guard_wn(name: Seq<char>, ty: Seq<TokView>, trait_name: Seq<char>)
    requires
        well_nested(ty),
    ensures
        well_nested(guard_tokens(name, ty, trait_name)),
{
    let st = Seq::<Delim>::empty();
    let h = seq![tvi("struct"@), tvi(name), tvi("where"@)];
    let col = seq![tvp(':')];
    let semi = seq![tvp(';')];
    reveal_with_fuel(stack_run, 5);
    assert(stack_run(h, 0, st) == Some(st));
    assert(stack_run(col, 0, st) == Some(st));
    assert(stack_run(semi, 0, st) == Some(st));
    lemma_path3_wn("std"@, "marker"@, trait_name);
    lemma_wn_concat(h, ty);
    lemma_wn_concat(h + ty, col);
    lemma_wn_concat(h + ty + col, path3("std"@, "marker"@, trait_name));
    lemma_wn_concat(h + ty + col + path3("std"@, "marker"@, trait_name), semi);
    assert(guard_tokens(name, ty, trait_name) == h + ty + col + path3("std"@, "marker"@, trait_name)
        + semi);
}

proof fn lemma_once_wn()
    ensures
        well_nested(once_tokens()),
{
    let st = Seq::<Delim>::empty();
    let h = seq![tvi("static"@), tvi("ONCE"@), tvp(':')];
    let eq = seq![tvp('=')];
    let tail = seq![tvj(':'), tvp(':'), tvi("new"@), tvo(Delim::Paren), tvc(Delim::Paren), tvp(';')];
    let s1 = st.push(Delim::Paren);
    assert(s1.last() == Delim::Paren);
    assert(s1.drop_last() =~= st);
    reveal_with_fuel(stack_run, 8);
    assert(stack_run(h, 0, st) == Some(st));
    assert(stack_run(eq, 0, st) == Some(st));
    assert(stack_run(tail, 0, st) == Some(st));
    lemma_path3_wn("std"@, "sync"@, "Once"@);
    let p = path3("std"@, "sync"@, "Once"@);
    lemma_wn_concat(h, p);
    lemma_wn_concat(h + p, eq);
    lemma_wn_concat(h + p + eq, p);
    lemma_wn_concat(h + p + eq + p, tail);
    assert(once_tokens() == h + p + eq + p + tail);
}

proof fn lemma_slot_wn(ty: Seq<TokView>)
    requires
        well_nested(ty),
    ensures
        well_nested(slot_tokens(ty)),
{
    let st = Seq::<Delim>::empty();
    let h = seq![tvi("static"@), tvi("mut"@), tvi("VALUE"@), tvp(':'), tvp('*'), tvi("mut"@)];
    let mid = seq![tvp('='), TokView::Literal("0"@), tvi("as"@), tvp('*'), tvi("mut"@)];
    let semi = seq![tvp(';')];
    reveal_with_fuel(stack_run, 8);
    assert(stack_run(h, 0, st) == Some(st));
    assert(stack_run(mid, 0, st) == Some(st));
    assert(stack_run(semi, 0, st) == Some(st));
    lemma_wn_concat(h, ty);
    lemma_wn_concat(h + ty, mid);
    lemma_wn_concat(h + ty + mid, ty);
    lemma_wn_concat(h + ty + mid + ty, semi);
    assert(slot_tokens(ty) == h + ty + mid + ty + semi);
}

proof fn lemma_guarded_head_stack(st: Seq<Delim>)
    ensures
        stack_run(guarded_init_head(), 0, st) == Some(
            st.push(Delim::Brace).push(Delim::Paren).push(Delim::Paren).push(Delim::Paren),
        ),
{
    reveal_with_fuel(stack_run, 22);
    assert(stack_run(guarded_init_head(), 0, st) == Some(
        st.push(Delim::Brace).push(Delim::Paren).push(Delim::Paren).push(Delim::Paren),
    ));
}

proof fn lemma_guarded_tail_stack(st: Seq<Delim>)
    ensures
        stack_run(
            guarded_init_tail(),
            0,
            st.push(Delim::Brace).push(Delim::Paren).push(Delim::Paren).push(Delim::Paren),
        ) == Some(st),
{
    let s1 = st.push(Delim::Brace);
    let s2 = s1.push(Delim::Paren);
    let s3 = s2.push(Delim::Paren);
    let s4 = s3.push(Delim::Paren);
    assert(s4.last() == Delim::Paren);
    assert(s4.drop_last() =~= s3);
    assert(s3.last() == Delim::Paren);
    assert(s3.drop_last() =~= s2);
    assert(s2.last() == Delim::Paren);
    assert(s2.drop_last() =~= s1);
    assert(s1.last() == Delim::Brace);
    assert(s1.drop_last() =~= st);
    reveal_with_fuel(stack_run, 10);
    assert(stack_run(guarded_init_tail(), 0, s4) == Some(st));
}

proof fn lemma_impl_w0_stack(st: Seq<Delim>)
    ensures
        stack_run(seq![tvi("impl"@)], 0, st) == Some(st),
{
    reveal_with_fuel(stack_run, 3);
}

proof fn lemma_impl_w1_stack(name: Seq<char>, st: Seq<Delim>)
    ensures
        stack_run(
            seq![tvi("for"@), tvi(name), tvo(Delim::Brace), tvi("type"@), tvi("Target"@), tvp('=')],
            0,
            st,
        ) == Some(st.push(Delim::Brace)),
{
    reveal_with_fuel(stack_run, 8);
}

proof fn lemma_impl_w2_stack(st: Seq<Delim>)
    ensures
        stack_run(
            seq![
                tvp(';'),
                tvi("fn"@),
                tvi("deref"@),
                tvo(Delim::Paren),
                tvp('&'),
                tvi("self"@),
                tvc(Delim::Paren),
                tvj('-'),
                tvp('>'),
                tvp('&'),
            ],
            0,
            st,
        ) == Some(st),
{
    let q1 = st.push(Delim::Paren);
    assert(q1.last() == Delim::Paren);
    assert(q1.drop_last() =~= st);
    reveal_with_fuel(stack_run, 12);
}

proof fn lemma_impl_w3_stack(st: Seq<Delim>)
    ensures
        stack_run(seq![tvo(Delim::Brace)], 0, st) == Some(st.push(Delim::Brace)),
{
    reveal_with_fuel(stack_run, 3);
}

proof fn lemma_impl_w4_stack(st: Seq<Delim>)
    ensures
        stack_run(
            seq![tvc(Delim::Brace), tvc(Delim::Brace)],
            0,
            st.push(Delim::Brace).push(Delim::Brace),
        ) == Some(st),
{
    let s1 = st.push(Delim::Brace);
    let s2 = s1.push(Delim::Brace);
    assert(s2.last() == Delim::Brace);
    assert(s2.drop_last() =~= s1);
    assert(s1.last() == Delim::Brace);
    assert(s1.drop_last() =~= st);
    reveal_with_fuel(stack_run, 4);
}

#[verifier::rlimit(100)]
proof fn lemma_deref_impl_wn(name: Seq<char>, ty: Seq<TokView>, init: Seq<TokView>)
    requires
        well_nested(ty),
        well_nested(init),
    ensures
        well_nested(deref_impl_tokens(name, ty, init)),
{
    let st = Seq::<Delim>::empty();
    let w0 = seq![tvi("impl"@)];
    let p = path3("std"@, "ops"@, "Deref"@);
    let w1 = seq![
        tvi("for"@),
        tvi(name),
        tvo(Delim::Brace),
        tvi("type"@),
        tvi("Target"@),
        tvp('='),
    ];
    let w2 = seq![
        tvp(';'),
        tvi("fn"@),
        tvi("deref"@),
        tvo(Delim::Paren),
        tvp('&'),
        tvi("self"@),
        tvc(Delim::Paren),
        tvj('-'),
        tvp('>'),
        tvp('&'),
    ];
    let w3 = seq![tvo(Delim::Brace)];
    let g1 = guard_tokens("_AssertSync"@, ty, "Sync"@);
    let g2 = guard_tokens("_AssertSized"@, ty, "Sized"@);
    let b1 = st.push(Delim::Brace);
    let b2 = b1.push(Delim::Brace);
    lemma_impl_w0_stack(st);
    lemma_impl_w1_stack(name, st);
    lemma_impl_w2_stack(b1);
    lemma_impl_w3_stack(b1);
    lemma_path3_wn("std"@, "ops"@, "Deref"@);
    lemma_wn_preserves_stack(p, st);
    lemma_wn_preserves_stack(ty, b1);
    lemma_guard_wn("_AssertSync"@, ty, "Sync"@);
    lemma_guard_wn("_AssertSized"@, ty, "Sized"@);
    lemma_once_wn();
    lemma_slot_wn(ty);
    lemma_wn_preserves_stack(g1, b2);
    lemma_wn_preserves_stack(g2, b2);
    lemma_wn_preserves_stack(once_tokens(), b2);
    lemma_wn_preserves_stack(slot_tokens(ty), b2);
    lemma_guarded_head_stack(b2);
    let full = b2.push(Delim::Brace).push(Delim::Paren).push(Delim::Paren).push(Delim::Paren);
    lemma_wn_preserves_stack(init, full);
    // compose the lead, left to right
    lemma_stack_run_concat(w0, p, st);
    lemma_stack_run_concat(w0 + p, w1, st);
    lemma_stack_run_concat(w0 + p + w1, ty, st);
    lemma_stack_run_concat(w0 + p + w1 + ty, w2, st);
    lemma_stack_run_concat(w0 + p + w1 + ty + w2, ty, st);
    lemma_stack_run_concat(w0 + p + w1 + ty + w2 + ty, w3, st);
    lemma_stack_run_concat(w0 + p + w1 + ty + w2 + ty + w3, g1, st);
    lemma_stack_run_concat(w0 + p + w1 + ty + w2 + ty + w3 + g1, g2, st);
    lemma_stack_run_concat(w0 + p + w1 + ty + w2 + ty + w3 + g1 + g2, once_tokens(), st);
    lemma_stack_run_concat(w0 + p + w1 + ty + w2 + ty + w3 + g1 + g2 + once_tokens(), slot_tokens(ty), st);
    lemma_stack_run_concat(
        w0 + p + w1 + ty + w2 + ty + w3 + g1 + g2 + once_tokens() + slot_tokens(ty),
        guarded_init_head(),
        st,
    );
    assert(deref_impl_lead(name, ty) == w0 + p + w1 + ty + w2 + ty + w3 + g1 + g2 + once_tokens()
        + slot_tokens(ty) + guarded_init_head());
    assert(stack_run(deref_impl_lead(name, ty), 0, st) == Some(full));
    lemma_stack_run_concat(deref_impl_lead(name, ty), init, st);
    // the close: the three call parentheses, the unsafe brace, then the
    // dereference-body and impl braces
    lemma_guarded_tail_stack(b2);
    let w4 = seq![tvc(Delim::Brace), tvc(Delim::Brace)];
    lemma_impl_w4_stack(st);
    assert(stack_run(w4, 0, b2) == Some(st));
    lemma_stack_run_concat(guarded_init_tail(), w4, full);
    assert(deref_impl_close() == guarded_init_tail() + w4);
    assert(stack_run(deref_impl_close(), 0, full) == Some(st));
    lemma_stack_run_concat(deref_impl_lead(name, ty) + init, deref_impl_close(), st);
    assert(deref_impl_tokens(name, ty, init) == deref_impl_lead(name, ty) + init
        + deref_impl_close());
}

/// The construct emitted for one binding nests properly whenever the
/// binding's own token runs (visibility, type, initializer) nest properly.
pub proof fn law_binding_well_nested(b: BindingView)
    requires
        well_nested(b.vis),
        well_nested(b.ty),
        well_nested(b.init),
    ensures
        well_nested(binding_tokens(b)),
{
    lemma_marker_wn(b.vis, b.name);
    lemma_deref_impl_wn(b.name, b.ty, b.init);
    lemma_wn_concat(marker_tokens(b.vis, b.name), deref_impl_tokens(b.name, b.ty, b.init));
}

proof fn lemma_bindings_wn(bs: Seq<BindingView>)
    requires
        forall|i: int|
            0 <= i < bs.len() ==> well_nested((#[trigger] bs[i]).vis) && well_nested(bs[i].ty)
                && well_nested(bs[i].init),
    ensures
        well_nested(bindings_tokens(bs)),
    decreases bs.len(),
{
    if bs.len() == 0 {
        assert(well_nested(Seq::empty()));
    } else {
        let pre = bs.drop_last();
        assert(forall|i: int|
            0 <= i < pre.len() ==> well_nested((#[trigger] pre[i]).vis) && well_nested(pre[i].ty)
                && well_nested(pre[i].init)) by {
            assert(forall|i: int| 0 <= i < pre.len() ==> pre[i] == #[trigger] bs[i]);
        }
        lemma_bindings_wn(pre);
        let j: int = bs.len() as int - 1;
        assert(well_nested(bs[j].vis) && well_nested(bs[j].ty) && well_nested(bs[j].init));
        assert(bs.last() == bs[j]);
        law_binding_well_nested(bs.last());
        lemma_wn_concat(bindings_tokens(pre), binding_tokens(bs.last()));
    }
}

/// Whatever the generator emits for a block nests properly, provided each
/// binding's own token runs do (as they are when the block was flattened
/// from a real token tree). Such output can always be rebuilt into a token
/// tree for the host compiler.
pub proof fn law_output_well_nested(bs: Seq<BindingView>)
    requires
        forall|i: int|
            0 <= i < bs.len() ==> well_nested((#[trigger] bs[i]).vis) && well_nested(bs[i].ty)
                && well_nested(bs[i].init),
    ensures
        well_nested(generate_spec(bs)),
{
    if has_unit_init(bs) {
        assert(well_nested(Seq::empty()));
    } else {
        lemma_bindings_wn(bs);
        law_aggregate_well_nested(names_of(bs));
        lemma_wn_concat(bindings_tokens(bs), init_all_tokens(names_of(bs)));
    }
}

/// An empty declaration block produces a valid aggregate initializer with an
/// empty body — `pub fn init_all ( ) { }` — and no marker symbols at all.
pub proof fn law_empty_block()
    ensures
        generate_spec(Seq::empty()) == seq![
            tvi("pub"@),
            tvi("fn"@),
            tvi("init_all"@),
            tvo(Delim::Paren),
            tvc(Delim::Paren),
            tvo(Delim::Brace),
            tvc(Delim::Brace),
        ],
{
    let bs = Seq::<BindingView>::empty();
    assert(!has_unit_init(bs));
    assert(bindings_tokens(bs) == Seq::<TokView>::empty());
    assert(names_of(bs).len() == 0);
    assert(derefs_tokens(names_of(bs)) == Seq::<TokView>::empty());
    assert(generate_spec(bs) =~= seq![
        tvi("pub"@),
        tvi("fn"@),
        tvi("init_all"@),
        tvo(Delim::Paren),
        tvc(Delim::Paren),
        tvo(Delim::Brace),
        tvc(Delim::Brace),
    ]);
}

/// If any one binding of a block carries the reserved empty-grouping
/// initializer `( )`, the block produces no output at all — not even for its
/// sibling bindings, and no `init_all`.
pub proof fn law_degenerate_voids_block(bs: Seq<BindingView>, k: int)
    requires
        0 <= k < bs.len(),
        is_unit_init(bs[k]),
    ensures
        generate_spec(bs) == Seq::<TokView>::empty(),
{
    assert(has_unit_init(bs));
}

/// The body of the aggregate initializer holds exactly one forced
/// dereference per name, in order: eighteen tokens per name, the run for
/// name `i` standing at offset `18 * i`.
pub proof fn lemma_derefs_structure(names: Seq<Seq<char>>)
    ensures
        derefs_tokens(names).len() == 18 * names.len(),
        forall|i: int|
            0 <= i < names.len() ==> derefs_tokens(names).subrange(18 * i, 18 * (i + 1))
                == deref_stmt(names[i]),
    decreases names.len(),
{
    if names.len() == 0 {
    } else {
        let pre = names.drop_last();
        lemma_derefs_structure(pre);
        assert(deref_stmt(names.last()).len() == 18);
        assert forall|i: int| 0 <= i < names.len() implies derefs_tokens(names).subrange(
            18 * i,
            18 * (i + 1),
        ) == deref_stmt(names[i]) by {
            if i < pre.len() {
                assert(derefs_tokens(names).subrange(18 * i, 18 * (i + 1)) =~= derefs_tokens(
                    pre,
                ).subrange(18 * i, 18 * (i + 1)));
                assert(names[i] == pre[i]);
            } else {
                assert(derefs_tokens(names).subrange(18 * i, 18 * (i + 1)) =~= deref_stmt(
                    names.last(),
                ));
            }
        }
    }
}

/// Aggregate forcing: in a block without the degenerate form, the emission
/// ends with the aggregate initializer, whose body dereferences every
/// binding declared in the block, each exactly once, in declaration order.
/// (That a second call of the emitted `init_all` evaluates no initializer
/// again is the emitted `std::sync::Once`'s guarantee, not restated here.)
pub proof fn law_aggregate_forces_all(bs: Seq<BindingView>)
    requires
        !has_unit_init(bs),
    ensures
        generate_spec(bs) == bindings_tokens(bs) + (init_all_head() + derefs_tokens(names_of(bs))
            + seq![tvc(Delim::Brace)]),
        derefs_tokens(names_of(bs)).len() == 18 * bs.len(),
        forall|i: int|
            0 <= i < bs.len() ==> derefs_tokens(names_of(bs)).subrange(18 * i, 18 * (i + 1))
                == deref_stmt(bs[i].name),
{
    lemma_derefs_structure(names_of(bs));
    assert(names_of(bs).len() == bs.len());
    assert(forall|i: int| 0 <= i < bs.len() ==> names_of(bs)[i] == #[trigger] bs[i].name);
    assert(generate_spec(bs) == bindings_tokens(bs) + init_all_tokens(names_of(bs)));
}

/// Independence of the bindings: the emission for a concatenation of two
/// binding runs is the concatenation of their emissions. Each binding's
/// construct is a function of that binding alone, unaffected by what stands
/// before or after it in the block — the structural side of the order
/// independence of the lazy constructs.
pub proof fn law_emission_concat(xs: Seq<BindingView>, ys: Seq<BindingView>)
    ensures
        bindings_tokens(xs + ys) == bindings_tokens(xs) + bindings_tokens(ys),
    decreases ys.len(),
{
    if ys.len() == 0 {
        assert(xs + ys =~= xs);
        assert(bindings_tokens(xs) + bindings_tokens(ys) =~= bindings_tokens(xs));
    } else {
        law_emission_concat(xs, ys.drop_last());
        assert((xs + ys).drop_last() =~= xs + ys.drop_last());
        assert((xs + ys).last() == ys.last());
        assert(bindings_tokens(xs + ys) == bindings_tokens(xs + ys.drop_last()) + binding_tokens(
            ys.last(),
        ));
        assert(bindings_tokens(xs) + bindings_tokens(ys) =~= bindings_tokens(xs)
            + bindings_tokens(ys.drop_last()) + binding_tokens(ys.last()));
    }
}

/// One splice per binding: everything emitted for a binding is its marker,
/// then the dereference implementation, in which the initializer expression
/// stands exactly once — between the lead, whose last tokens open the
/// closure handed to the one-time guard, and the fixed close. The emitted
/// code therefore evaluates the initializer only inside that guard; that the
/// guard runs it at most once per process, with every concurrent first
/// accessor blocking until it completes, is the emitted `std::sync::Once`'s
/// contract.
pub proof fn law_initializer_once_guarded(b: BindingView)
    ensures
        binding_tokens(b) == marker_tokens(b.vis, b.name) + (deref_impl_lead(b.name, b.ty)
            + b.init + deref_impl_close()),
{
    assert(binding_tokens(b) =~= marker_tokens(b.vis, b.name) + (deref_impl_lead(b.name, b.ty)
        + b.init + deref_impl_close()));
}

} // verus!
