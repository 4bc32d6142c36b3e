use eazy_static::parse::parse;
use eazy_static::Delim;
use eazy_static::ErrorKind;
use eazy_static::Spacing;
use eazy_static::Token;

fn id(s: &str) -> Token {
    Token::Ident(s.to_owned())
}

fn p(c: char) -> Token {
    Token::Punct(c, Spacing::Alone)
}

fn pj(c: char) -> Token {
    Token::Punct(c, Spacing::Joint)
}

fn lit(s: &str) -> Token {
    Token::Literal(s.to_owned())
}

fn op(d: Delim) -> Token {
    Token::Open(d)
}

fn cl(d: Delim) -> Token {
    Token::Close(d)
}

#[test]
fn single_binding() {
    // static ref A : i32 = 1 + 2 ;
    let toks = vec![
        id("static"),
        id("ref"),
        id("A"),
        p(':'),
        id("i32"),
        p('='),
        lit("1"),
        p('+'),
        lit("2"),
        p(';'),
    ];
    let bs = parse(&toks).unwrap();
    assert_eq!(bs.len(), 1);
    assert_eq!(bs[0].vis, Vec::<Token>::new());
    assert_eq!(bs[0].name, "A".to_owned());
    assert_eq!(bs[0].ty, vec![id("i32")]);
    assert_eq!(bs[0].init, vec![lit("1"), p('+'), lit("2")]);
}

#[test]
fn empty_block_parses_to_no_bindings() {
    let toks: Vec<Token> = vec![];
    let bs = parse(&toks).unwrap();
    assert_eq!(bs.len(), 0);
}

#[test]
fn pub_visibility_kept_verbatim() {
    // pub static ref B : u8 = 0 ;
    let toks = vec![
        id("pub"),
        id("static"),
        id("ref"),
        id("B"),
        p(':'),
        id("u8"),
        p('='),
        lit("0"),
        p(';'),
    ];
    let bs = parse(&toks).unwrap();
    assert_eq!(bs[0].vis, vec![id("pub")]);
    assert_eq!(bs[0].name, "B".to_owned());
}

#[test]
fn restricted_visibility_kept_verbatim() {
    // pub ( crate ) static ref C : u8 = 0 ;
    let toks = vec![
        id("pub"),
        op(Delim::Paren),
        id("crate"),
        cl(Delim::Paren),
        id("static"),
        id("ref"),
        id("C"),
        p(':'),
        id("u8"),
        p('='),
        lit("0"),
        p(';'),
    ];
    let bs = parse(&toks).unwrap();
    assert_eq!(bs[0].vis, vec![id("pub"), op(Delim::Paren), id("crate"), cl(Delim::Paren)]);
}

#[test]
fn attributes_are_discarded() {
    // # [ doc = "note" ] static ref A : i32 = 1 ;
    let toks = vec![
        p('#'),
        op(Delim::Bracket),
        id("doc"),
        p('='),
        lit("\"note\""),
        cl(Delim::Bracket),
        id("static"),
        id("ref"),
        id("A"),
        p(':'),
        id("i32"),
        p('='),
        lit("1"),
        p(';'),
    ];
    let bs = parse(&toks).unwrap();
    assert_eq!(bs.len(), 1);
    assert_eq!(bs[0].vis, Vec::<Token>::new());
    assert_eq!(bs[0].name, "A".to_owned());
}

#[test]
fn two_bindings_in_order() {
    let toks = vec![
        id("static"),
        id("ref"),
        id("A"),
        p(':'),
        id("i32"),
        p('='),
        lit("1"),
        p(';'),
        id("static"),
        id("ref"),
        id("B"),
        p(':'),
        id("i32"),
        p('='),
        lit("2"),
        p(';'),
    ];
    let bs = parse(&toks).unwrap();
    assert_eq!(bs.len(), 2);
    assert_eq!(bs[0].name, "A".to_owned());
    assert_eq!(bs[1].name, "B".to_owned());
}

#[test]
fn equals_inside_angle_brackets_does_not_end_type() {
    // static ref I : Box < dyn Iterator < Item = u8 > > = mk ( ) ;
    let toks = vec![
        id("static"),
        id("ref"),
        id("I"),
        p(':'),
        id("Box"),
        p('<'),
        id("dyn"),
        id("Iterator"),
        p('<'),
        id("Item"),
        p('='),
        id("u8"),
        p('>'),
        p('>'),
        p('='),
        id("mk"),
        op(Delim::Paren),
        cl(Delim::Paren),
        p(';'),
    ];
    let bs = parse(&toks).unwrap();
    assert_eq!(bs[0].ty.len(), 10);
    assert_eq!(bs[0].ty[0], id("Box"));
    assert_eq!(bs[0].ty[9], p('>'));
    assert_eq!(bs[0].init, vec![id("mk"), op(Delim::Paren), cl(Delim::Paren)]);
}

#[test]
fn arrow_in_type_does_not_close_angle_bracket() {
    // static ref F : Box < fn ( ) -> u8 > = mk ;
    let toks = vec![
        id("static"),
        id("ref"),
        id("F"),
        p(':'),
        id("Box"),
        p('<'),
        id("fn"),
        op(Delim::Paren),
        cl(Delim::Paren),
        pj('-'),
        p('>'),
        id("u8"),
        p('>'),
        p('='),
        id("mk"),
        p(';'),
    ];
    let bs = parse(&toks).unwrap();
    assert_eq!(bs[0].ty.len(), 9);
    assert_eq!(bs[0].init, vec![id("mk")]);
}

#[test]
fn semicolon_inside_braces_does_not_end_initializer() {
    // static ref S : u8 = { touch ( ) ; 7 } ;
    let toks = vec![
        id("static"),
        id("ref"),
        id("S"),
        p(':'),
        id("u8"),
        p('='),
        op(Delim::Brace),
        id("touch"),
        op(Delim::Paren),
        cl(Delim::Paren),
        p(';'),
        lit("7"),
        cl(Delim::Brace),
        p(';'),
    ];
    let bs = parse(&toks).unwrap();
    assert_eq!(bs[0].init.len(), 7);
    assert_eq!(bs[0].init[0], op(Delim::Brace));
    assert_eq!(bs[0].init[6], cl(Delim::Brace));
}

#[test]
fn error_expected_static() {
    let toks = vec![id("fixed"), id("ref"), id("A")];
    let e = parse(&toks).unwrap_err();
    assert_eq!(e.pos, 0);
    assert_eq!(e.kind, ErrorKind::ExpectedStatic);
}

#[test]
fn error_expected_ref() {
    let toks = vec![id("static"), id("A")];
    let e = parse(&toks).unwrap_err();
    assert_eq!(e.pos, 1);
    assert_eq!(e.kind, ErrorKind::ExpectedRef);
}

#[test]
fn error_expected_name() {
    let toks = vec![id("static"), id("ref"), p(';')];
    let e = parse(&toks).unwrap_err();
    assert_eq!(e.pos, 2);
    assert_eq!(e.kind, ErrorKind::ExpectedName);
}

#[test]
fn error_expected_colon() {
    let toks = vec![id("static"), id("ref"), id("A"), p('=')];
    let e = parse(&toks).unwrap_err();
    assert_eq!(e.pos, 3);
    assert_eq!(e.kind, ErrorKind::ExpectedColon);
}

#[test]
fn error_missing_eq() {
    let toks = vec![id("static"), id("ref"), id("A"), p(':'), id("i32")];
    let e = parse(&toks).unwrap_err();
    assert_eq!(e.pos, 5);
    assert_eq!(e.kind, ErrorKind::MissingEq);
}

#[test]
fn error_empty_type() {
    let toks = vec![id("static"), id("ref"), id("A"), p(':'), p('='), lit("1"), p(';')];
    let e = parse(&toks).unwrap_err();
    assert_eq!(e.pos, 4);
    assert_eq!(e.kind, ErrorKind::EmptyType);
}

#[test]
fn error_missing_semi() {
    let toks = vec![id("static"), id("ref"), id("A"), p(':'), id("i32"), p('='), lit("1")];
    let e = parse(&toks).unwrap_err();
    assert_eq!(e.pos, 7);
    assert_eq!(e.kind, ErrorKind::MissingSemi);
}

#[test]
fn error_empty_initializer() {
    let toks = vec![id("static"), id("ref"), id("A"), p(':'), id("i32"), p('='), p(';')];
    let e = parse(&toks).unwrap_err();
    assert_eq!(e.pos, 6);
    assert_eq!(e.kind, ErrorKind::EmptyInit);
}

#[test]
fn error_attr_without_bracket() {
    let toks = vec![p('#'), id("static")];
    let e = parse(&toks).unwrap_err();
    assert_eq!(e.pos, 1);
    assert_eq!(e.kind, ErrorKind::AttrDelim);
}

#[test]
fn error_unclosed_attribute_group() {
    let toks = vec![p('#'), op(Delim::Bracket), id("cfg")];
    let e = parse(&toks).unwrap_err();
    assert_eq!(e.pos, 3);
    assert_eq!(e.kind, ErrorKind::UnclosedGroup);
}

#[test]
fn error_stray_close_in_type() {
    let toks = vec![
        id("static"),
        id("ref"),
        id("A"),
        p(':'),
        cl(Delim::Paren),
        p('='),
        lit("1"),
        p(';'),
    ];
    let e = parse(&toks).unwrap_err();
    assert_eq!(e.pos, 4);
    assert_eq!(e.kind, ErrorKind::UnexpectedClose);
}

#[test]
fn error_reserved_word_as_name() {
    let toks = vec![
        id("static"),
        id("ref"),
        id("type"),
        p(':'),
        id("i32"),
        p('='),
        lit("1"),
        p(';'),
    ];
    let e = parse(&toks).unwrap_err();
    assert_eq!(e.pos, 2);
    assert_eq!(e.kind, ErrorKind::ReservedName);
}

#[test]
fn error_two_adjacent_literals_in_initializer() {
    // static ref A : i32 = 1 2 ;  — `1 2` is no expression
    let toks = vec![
        id("static"),
        id("ref"),
        id("A"),
        p(':'),
        id("i32"),
        p('='),
        lit("1"),
        lit("2"),
        p(';'),
    ];
    let e = parse(&toks).unwrap_err();
    assert_eq!(e.pos, 7);
    assert_eq!(e.kind, ErrorKind::InvalidInit);
}

#[test]
fn error_adjacent_words_in_initializer() {
    // `x y` is no expression
    let toks = vec![
        id("static"),
        id("ref"),
        id("A"),
        p(':'),
        id("i32"),
        p('='),
        id("x"),
        id("y"),
        p(';'),
    ];
    let e = parse(&toks).unwrap_err();
    assert_eq!(e.pos, 7);
    assert_eq!(e.kind, ErrorKind::InvalidInit);
}

#[test]
fn error_literal_after_word_in_initializer() {
    // `x 1` is no expression
    let toks = vec![
        id("static"),
        id("ref"),
        id("A"),
        p(':'),
        id("i32"),
        p('='),
        id("x"),
        lit("1"),
        p(';'),
    ];
    let e = parse(&toks).unwrap_err();
    assert_eq!(e.pos, 7);
    assert_eq!(e.kind, ErrorKind::InvalidInit);
}

#[test]
fn error_literal_as_type() {
    // static ref A : 1 = 2 ;  — a literal is no type
    let toks = vec![
        id("static"),
        id("ref"),
        id("A"),
        p(':'),
        lit("1"),
        p('='),
        lit("2"),
        p(';'),
    ];
    let e = parse(&toks).unwrap_err();
    assert_eq!(e.pos, 4);
    assert_eq!(e.kind, ErrorKind::InvalidType);
}

#[test]
fn error_adjacent_words_in_type() {
    // `u8 u8` is no type
    let toks = vec![
        id("static"),
        id("ref"),
        id("A"),
        p(':'),
        id("u8"),
        id("u8"),
        p('='),
        lit("1"),
        p(';'),
    ];
    let e = parse(&toks).unwrap_err();
    assert_eq!(e.pos, 5);
    assert_eq!(e.kind, ErrorKind::InvalidType);
}

#[test]
fn cast_initializer_accepted() {
    // `1 as u32`: the reserved word connects the atoms
    let toks = vec![
        id("static"),
        id("ref"),
        id("A"),
        p(':'),
        id("u32"),
        p('='),
        lit("1"),
        id("as"),
        id("u32"),
        p(';'),
    ];
    let bs = parse(&toks).unwrap();
    assert_eq!(bs[0].init, vec![lit("1"), id("as"), id("u32")]);
}

#[test]
fn lifetime_reference_type_accepted() {
    // static ref S : & 'static str = s ;  — a lifetime connects to the type
    let toks = vec![
        id("static"),
        id("ref"),
        id("S"),
        p(':'),
        p('&'),
        pj('\''),
        id("static"),
        id("str"),
        p('='),
        id("s"),
        p(';'),
    ];
    let bs = parse(&toks).unwrap();
    assert_eq!(bs[0].ty.len(), 4);
}

#[test]
fn macro_call_initializer_accepted() {
    // `msgs ! [ 1 , 2 ]`: adjacency inside the group is the macro's business
    let toks = vec![
        id("static"),
        id("ref"),
        id("A"),
        p(':'),
        id("u8"),
        p('='),
        id("msgs"),
        p('!'),
        op(Delim::Bracket),
        lit("1"),
        p(','),
        lit("2"),
        cl(Delim::Bracket),
        p(';'),
    ];
    let bs = parse(&toks).unwrap();
    assert_eq!(bs[0].init.len(), 7);
}

#[test]
fn error_incomplete_initializer_expression() {
    // static ref A : i32 = 1 + ;  — `1 +` is no expression of the host language
    let toks = vec![
        id("static"),
        id("ref"),
        id("A"),
        p(':'),
        id("i32"),
        p('='),
        lit("1"),
        p('+'),
        p(';'),
    ];
    let e = parse(&toks).unwrap_err();
    assert_eq!(e.pos, 6);
    assert_eq!(e.kind, ErrorKind::InvalidInit);
}

#[test]
fn error_incomplete_type() {
    // static ref A : & = 1 ;  — `&` alone is no type of the host language
    let toks = vec![
        id("static"),
        id("ref"),
        id("A"),
        p(':'),
        p('&'),
        p('='),
        lit("1"),
        p(';'),
    ];
    let e = parse(&toks).unwrap_err();
    assert_eq!(e.pos, 4);
    assert_eq!(e.kind, ErrorKind::InvalidType);
}

#[test]
fn error_foreign_block_keyword_as_name() {
    let kw = format!("ext{}", "ern");
    let toks = vec![
        id("static"),
        id("ref"),
        id(&kw),
        p(':'),
        id("i32"),
        p('='),
        lit("1"),
        p(';'),
    ];
    let e = parse(&toks).unwrap_err();
    assert_eq!(e.pos, 2);
    assert_eq!(e.kind, ErrorKind::ReservedName);
}

#[test]
fn unrestricted_paren_after_pub_is_not_visibility() {
    // pub ( foo ) …  — only crate / self / super / in … restrict a visibility
    let toks = vec![
        id("pub"),
        op(Delim::Paren),
        id("foo"),
        cl(Delim::Paren),
        id("static"),
        id("ref"),
        id("A"),
        p(':'),
        id("i32"),
        p('='),
        lit("1"),
        p(';'),
    ];
    let e = parse(&toks).unwrap_err();
    assert_eq!(e.pos, 1);
    assert_eq!(e.kind, ErrorKind::ExpectedStatic);
}

#[test]
fn pub_in_path_visibility_kept_verbatim() {
    // pub ( in self ) static ref C : u8 = 0 ;
    let toks = vec![
        id("pub"),
        op(Delim::Paren),
        id("in"),
        id("self"),
        cl(Delim::Paren),
        id("static"),
        id("ref"),
        id("C"),
        p(':'),
        id("u8"),
        p('='),
        lit("0"),
        p(';'),
    ];
    let bs = parse(&toks).unwrap();
    assert_eq!(
        bs[0].vis,
        vec![id("pub"), op(Delim::Paren), id("in"), id("self"), cl(Delim::Paren)]
    );
}

#[test]
fn stops_at_first_error() {
    // a good declaration followed by garbage: the good one is not returned
    let toks = vec![
        id("static"),
        id("ref"),
        id("A"),
        p(':'),
        id("i32"),
        p('='),
        lit("1"),
        p(';'),
        id("junk"),
    ];
    let e = parse(&toks).unwrap_err();
    assert_eq!(e.pos, 8);
    assert_eq!(e.kind, ErrorKind::ExpectedStatic);
}
