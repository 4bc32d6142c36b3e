use eazy_static::eazy_static;
use eazy_static::emit::generate;
use eazy_static::Binding;
use eazy_static::Delim;
use eazy_static::Spacing;
use eazy_static::Token;

fn id(s: &str) -> Token {
    Token::Ident(s.to_owned())
}

fn p(c: char) -> Token {
    Token::Punct(c, Spacing::Alone)
}

fn pj(c: char) -> Token {
    Token::Punct(c, Spacing::Joint)
}

fn lit(s: &str) -> Token {
    Token::Literal(s.to_owned())
}

fn op(d: Delim) -> Token {
    Token::Open(d)
}

fn cl(d: Delim) -> Token {
    Token::Close(d)
}

fn binding(name: &str, ty: Vec<Token>, init: Vec<Token>) -> Binding {
    Binding { vis: vec![], name: name.to_owned(), ty, init }
}

fn empty_init_all() -> Vec<Token> {
    vec![
        id("pub"),
        id("fn"),
        id("init_all"),
        op(Delim::Paren),
        cl(Delim::Paren),
        op(Delim::Brace),
        cl(Delim::Brace),
    ]
}

// `let _ = std :: ops :: Deref :: deref ( & name ) ;`
fn deref_stmt_tokens(name: &str) -> Vec<Token> {
    vec![
        id("let"),
        id("_"),
        p('='),
        id("std"),
        pj(':'),
        p(':'),
        id("ops"),
        pj(':'),
        p(':'),
        id("Deref"),
        pj(':'),
        p(':'),
        id("deref"),
        op(Delim::Paren),
        p('&'),
        id(name),
        cl(Delim::Paren),
        p(';'),
    ]
}

fn count(tokens: &[Token], t: &Token) -> usize {
    tokens.iter().filter(|x| *x == t).count()
}

#[test]
fn empty_block_emits_empty_aggregate_initializer_only() {
    let out = generate(&vec![]);
    assert_eq!(out, empty_init_all());
}

#[test]
fn degenerate_initializer_voids_whole_block() {
    let a = binding("A", vec![id("i32")], vec![lit("1")]);
    let x = binding("X", vec![id("i32")], vec![op(Delim::Paren), cl(Delim::Paren)]);
    // alone
    let out = generate(&vec![binding(
        "X",
        vec![id("i32")],
        vec![op(Delim::Paren), cl(Delim::Paren)],
    )]);
    assert_eq!(out, Vec::<Token>::new());
    // the sibling binding's output is discarded too, and init_all is never emitted
    let out = generate(&vec![a, x]);
    assert_eq!(out, Vec::<Token>::new());
}

#[test]
fn nested_empty_grouping_is_not_degenerate() {
    // `( ( ) )` is a parenthesized unit value, not the reserved `( )` form
    let a = binding(
        "A",
        vec![op(Delim::Paren), cl(Delim::Paren)],
        vec![op(Delim::Paren), op(Delim::Paren), cl(Delim::Paren), cl(Delim::Paren)],
    );
    let out = generate(&vec![a]);
    assert!(!out.is_empty());
}

#[test]
fn single_binding_shape() {
    let a = binding("A", vec![id("i32")], vec![lit("7")]);
    let out = generate(&vec![a]);
    // one-token type and one-token initializer: 49 marker tokens, 122 for the
    // dereference implementation, 25 for the aggregate initializer
    assert_eq!(out.len(), 196);
    // starts with the lint attributes of the marker struct
    assert_eq!(
        &out[0..7],
        &[
            p('#'),
            op(Delim::Bracket),
            id("allow"),
            op(Delim::Paren),
            id("missing_copy_implementations"),
            cl(Delim::Paren),
            cl(Delim::Bracket),
        ]
    );
    // the initializer expression is spliced in exactly once
    assert_eq!(count(&out, &lit("7")), 1);
    // the binding's name: marker struct, static (three times), impl for, deref
    assert_eq!(count(&out, &id("A")), 6);
    // ends with the aggregate initializer forcing exactly this binding
    let mut expected_tail = vec![
        id("pub"),
        id("fn"),
        id("init_all"),
        op(Delim::Paren),
        cl(Delim::Paren),
        op(Delim::Brace),
    ];
    expected_tail.extend(deref_stmt_tokens("A"));
    expected_tail.push(cl(Delim::Brace));
    assert_eq!(&out[out.len() - 25..], &expected_tail[..]);
}

#[test]
fn aggregate_initializer_forces_all_in_declaration_order() {
    let a = binding("A", vec![id("i32")], vec![lit("1")]);
    let b = binding("B", vec![id("u8")], vec![lit("2")]);
    let out = generate(&vec![a, b]);
    let mut expected_tail = vec![
        id("pub"),
        id("fn"),
        id("init_all"),
        op(Delim::Paren),
        cl(Delim::Paren),
        op(Delim::Brace),
    ];
    expected_tail.extend(deref_stmt_tokens("A"));
    expected_tail.extend(deref_stmt_tokens("B"));
    expected_tail.push(cl(Delim::Brace));
    assert_eq!(&out[out.len() - 43..], &expected_tail[..]);
    // exactly one aggregate initializer is emitted
    assert_eq!(count(&out, &id("init_all")), 1);
}

#[test]
fn bindings_are_emitted_independently() {
    let a = binding("A", vec![id("i32")], vec![lit("1")]);
    let b = binding("B", vec![id("i32")], vec![id("A_VALUE_COMPUTED_ELSEWHERE")]);
    let solo_a = generate(&vec![a.clone()]);
    let solo_b = generate(&vec![b.clone()]);
    let both = generate(&vec![a, b]);
    // each solo output is its binding's construct plus a 25-token aggregate
    let chunk_a = &solo_a[..solo_a.len() - 25];
    let chunk_b = &solo_b[..solo_b.len() - 25];
    assert_eq!(&both[..chunk_a.len()], chunk_a);
    assert_eq!(&both[chunk_a.len()..chunk_a.len() + chunk_b.len()], chunk_b);
    // one binding's initializer never leaks into the other's construct
    assert_eq!(count(chunk_a, &id("A_VALUE_COMPUTED_ELSEWHERE")), 0);
    assert_eq!(count(chunk_b, &id("A_VALUE_COMPUTED_ELSEWHERE")), 1);
    assert_eq!(count(&both, &id("A_VALUE_COMPUTED_ELSEWHERE")), 1);
}

#[test]
fn pipeline_empty_block() {
    let out = eazy_static(&vec![]).unwrap();
    assert_eq!(out, empty_init_all());
}

#[test]
fn pipeline_degenerate_block_produces_nothing() {
    // static ref X : i32 = ( ) ;  — the whole invocation is voided
    let toks = vec![
        id("static"),
        id("ref"),
        id("X"),
        p(':'),
        id("i32"),
        p('='),
        op(Delim::Paren),
        cl(Delim::Paren),
        p(';'),
    ];
    let out = eazy_static(&toks).unwrap();
    assert_eq!(out, Vec::<Token>::new());
}

#[test]
fn pipeline_two_declarations() {
    let toks = vec![
        id("pub"),
        id("static"),
        id("ref"),
        id("XEDITED"),
        p(':'),
        p('&'),
        id("str"),
        p('='),
        lit("\"x\""),
        p(';'),
        id("static"),
        id("ref"),
        id("YEDITED"),
        p(':'),
        p('&'),
        id("str"),
        p('='),
        lit("\"y\""),
        p(';'),
    ];
    let out = eazy_static(&toks).unwrap();
    // both initializers spliced exactly once, aggregate emitted once
    assert_eq!(count(&out, &lit("\"x\"")), 1);
    assert_eq!(count(&out, &lit("\"y\"")), 1);
    assert_eq!(count(&out, &id("init_all")), 1);
    assert_eq!(out.last(), Some(&cl(Delim::Brace)));
    // the declared visibility is re-emitted for the first binding's marker
    assert_eq!(count(&out, &id("pub")), 3);  // struct, static, and fn init_all
}

#[test]
fn pipeline_block_initializers() {
    // static ref XEDITED : & str = { X . store ( false ) ; "X edited" } ;
    // static ref YEDITED : & str = { Y . store ( false ) ; "Y edited" } ;
    let decl = |name: &str, flag: &str, msg: &str| -> Vec<Token> {
        vec![
            id("static"),
            id("ref"),
            id(name),
            p(':'),
            p('&'),
            id("str"),
            p('='),
            op(Delim::Brace),
            id(flag),
            p('.'),
            id("store"),
            op(Delim::Paren),
            id("false"),
            cl(Delim::Paren),
            p(';'),
            lit(msg),
            cl(Delim::Brace),
            p(';'),
        ]
    };
    let mut toks = decl("XEDITED", "X", "\"X edited\"");
    toks.extend(decl("YEDITED", "Y", "\"Y edited\""));
    let out = eazy_static(&toks).unwrap();
    // each block initializer is spliced verbatim, exactly once
    assert_eq!(count(&out, &lit("\"X edited\"")), 1);
    assert_eq!(count(&out, &lit("\"Y edited\"")), 1);
    assert_eq!(count(&out, &id("store")), 2);
    // the aggregate forces both, in declaration order
    let mut expected_tail = deref_stmt_tokens("XEDITED");
    expected_tail.extend(deref_stmt_tokens("YEDITED"));
    expected_tail.push(cl(Delim::Brace));
    assert_eq!(&out[out.len() - 37..], &expected_tail[..]);
}

#[test]
fn restricted_visibility_emitted_for_marker_and_static() {
    let b = Binding {
        vis: vec![id("pub"), op(Delim::Paren), id("crate"), cl(Delim::Paren)],
        name: "A".to_owned(),
        ty: vec![id("i32")],
        init: vec![lit("1")],
    };
    let out = generate(&vec![b]);
    // the visibility qualifier stands before the marker struct and before the static
    assert_eq!(count(&out, &id("crate")), 2);
}

#[test]
fn pipeline_propagates_parse_error() {
    let toks = vec![id("static"), id("A")];
    let e = eazy_static(&toks).unwrap_err();
    assert_eq!(e.pos, 1);
    assert_eq!(e.kind, eazy_static::ErrorKind::ExpectedRef);
}
