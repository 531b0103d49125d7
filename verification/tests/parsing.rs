use bracket_dsl::ast::{
    Block, Condition, Expression, Message, Program, Statement, ValueType, Variable,
};
use bracket_dsl::error::{ErrorKind, Expected};
use bracket_dsl::grammar::parse;
use bracket_dsl::lexer::Lexer;
use bracket_dsl::parser::Parser;
use bracket_dsl::position::{Located, Position};
use bracket_dsl::token::Token;

fn lex_all(src: &str) -> Vec<Located<Token>> {
    let mut lx = Lexer::new("test".to_string(), src.to_string());
    lx.lex().expect("lexing should succeed")
}

fn parse_src(src: &str) -> Result<Located<Program>, bracket_dsl::error::Error> {
    parse(&"test".to_string(), lex_all(src))
}

fn parser_for(src: &str) -> Parser {
    Parser::new("test".to_string(), lex_all(src))
}

fn var_names(p: &Program) -> Vec<String> {
    p.variables.iter().map(|v| v.item.id.item.clone()).collect()
}

#[test]
fn data_section_collects_variables() {
    let prog = parse_src("data { (x) (y) }").unwrap().item;
    assert_eq!(var_names(&prog), vec!["x".to_string(), "y".to_string()]);
    assert!(prog.variables[0].item.value.is_none());
    assert!(prog.variables[1].item.value.is_none());
    assert_eq!(prog.messages.len(), 0);
}

#[test]
fn end_terminated_members_give_the_same_declarations() {
    let a = parse_src("data { (x) (y) }").unwrap().item;
    let b = parse_src("data { (x) ; (y) }").unwrap().item;
    assert_eq!(var_names(&a), var_names(&b));
    assert_eq!(a.variables.len(), b.variables.len());
    assert!(b.variables[0].item.value.is_none());
    assert!(b.variables[1].item.value.is_none());
}

#[test]
fn unclosed_section_is_end_of_input() {
    let e = parse_src("data { (x) (y) ").unwrap_err();
    assert_eq!(e.kind, ErrorKind::UnexpectedEndOfInput);
    assert!(e.pos.is_none());
}

#[test]
fn messages_section_collects_messages() {
    let prog = parse_src("messages { (ping) (pong) }").unwrap().item;
    assert_eq!(prog.messages.len(), 2);
    assert_eq!(prog.messages[0].item, Message::new("ping".to_string()));
    assert_eq!(prog.messages[1].item, Message::new("pong".to_string()));
    assert_eq!(prog.variables.len(), 0);
}

#[test]
fn bare_word_member_is_rejected() {
    let e = parse_src("data { x }").unwrap_err();
    assert_eq!(
        e.kind,
        ErrorKind::UnexpectedToken {
            expected: Expected::Tok(Token::ExprIn),
            got: Token::Word("x".to_string()),
        }
    );
    assert!(e.pos.is_some());
}

#[test]
fn unterminated_string_fails_before_parsing() {
    let mut lx = Lexer::new("test".to_string(), "data { (\"hello) }".to_string());
    let e = lx.lex().unwrap_err();
    assert_eq!(e.kind, ErrorKind::UnterminatedString);
}

#[test]
fn declaration_order_is_kept_across_sections() {
    let prog = parse_src("data { (a) } messages { (m) } data { (b) (c) }")
        .unwrap()
        .item;
    assert_eq!(
        var_names(&prog),
        vec!["a".to_string(), "b".to_string(), "c".to_string()]
    );
    assert_eq!(prog.messages.len(), 1);
}

#[test]
fn variable_initializer_parses_as_full_expression() {
    let prog = parse_src("data { (x = 5) }").unwrap().item;
    let v: &Variable = &prog.variables[0].item;
    assert_eq!(v.id.item, "x");
    match &v.value {
        Some(e) => assert_eq!(e.item, Expression::Number("5".to_string())),
        None => panic!("initializer expected"),
    }
}

#[test]
fn unknown_section_word_is_rejected() {
    let e = parse_src("foo { }").unwrap_err();
    assert_eq!(e.kind, ErrorKind::UnknownSectionOrKeyword("foo".to_string()));
}

#[test]
fn non_word_at_top_level_is_rejected() {
    let e = parse_src("( x )").unwrap_err();
    assert_eq!(
        e.kind,
        ErrorKind::UnexpectedToken { expected: Expected::Section, got: Token::ExprIn }
    );
}

#[test]
fn expression_leaves_parse() {
    let mut p = parser_for("5 \"hi\" name");
    assert_eq!(
        Expression::parse(&mut p).unwrap().item,
        Expression::Number("5".to_string())
    );
    assert_eq!(
        Expression::parse(&mut p).unwrap().item,
        Expression::String("hi".to_string())
    );
    assert_eq!(
        Expression::parse(&mut p).unwrap().item,
        Expression::ID("name".to_string())
    );
}

#[test]
fn compound_expression_parses_in_prefix_form() {
    // Operator symbols are words of the token vocabulary; the lexer has no
    // character for them, so the sequence is built directly.
    let z = Position::new(0, 1, 0, 1);
    let toks = vec![
        Located::new(Token::ExprIn, z),
        Located::new(Token::Word("+".to_string()), z),
        Located::new(Token::Number("1".to_string()), z),
        Located::new(Token::Number("2".to_string()), z),
        Located::new(Token::ExprOut, z),
    ];
    let mut p = Parser::new("test".to_string(), toks);
    let e = Expression::parse(&mut p).unwrap().item;
    match e {
        Expression::Add(a, b) => {
            assert_eq!(a.item, Expression::Number("1".to_string()));
            assert_eq!(b.item, Expression::Number("2".to_string()));
        }
        other => panic!("expected an addition, got {:?}", other),
    }
}

#[test]
fn word_operators_parse() {
    let prog = parse_src("data { (x = (max 1 2)) (y = (substr \"abc\" 0 2)) }")
        .unwrap()
        .item;
    match prog.variables[0].item.value.as_ref().unwrap().item {
        Expression::Max(_, _) => {}
        ref other => panic!("expected max, got {:?}", other),
    }
    match prog.variables[1].item.value.as_ref().unwrap().item {
        Expression::SubString(_, _, _) => {}
        ref other => panic!("expected substr, got {:?}", other),
    }
}

#[test]
fn unknown_operator_is_rejected() {
    let e = parse_src("data { (x = (frob 1 2)) }").unwrap_err();
    assert_eq!(
        e.kind,
        ErrorKind::UnexpectedToken {
            expected: Expected::Operator,
            got: Token::Word("frob".to_string()),
        }
    );
}

#[test]
fn condition_leaves_and_comparisons_parse() {
    let mut p = parser_for("true false");
    assert_eq!(Condition::parse(&mut p).unwrap().item, Condition::True);
    assert_eq!(Condition::parse(&mut p).unwrap().item, Condition::False);

    let mut p = parser_for("< = x y >");
    assert!(matches!(
        Condition::parse(&mut p).unwrap().item,
        Condition::EQ(_, _)
    ));
    let mut p = parser_for("< < 1 2 >");
    assert!(matches!(
        Condition::parse(&mut p).unwrap().item,
        Condition::LT(_, _)
    ));
    let mut p = parser_for("< <= 1 2 >");
    assert!(matches!(
        Condition::parse(&mut p).unwrap().item,
        Condition::LE(_, _)
    ));
    let mut p = parser_for("< >= 1 2 >");
    assert!(matches!(
        Condition::parse(&mut p).unwrap().item,
        Condition::GE(_, _)
    ));
    let mut p = parser_for("< > 1 2 >");
    assert!(matches!(
        Condition::parse(&mut p).unwrap().item,
        Condition::GT(_, _)
    ));
}

#[test]
fn condition_combinators_parse() {
    let mut p = parser_for("< and true < not false > >");
    match Condition::parse(&mut p).unwrap().item {
        Condition::And(a, b) => {
            assert_eq!(a.item, Condition::True);
            assert!(matches!(b.item, Condition::Not(_)));
        }
        other => panic!("expected and, got {:?}", other),
    }
}

#[test]
fn statements_parse() {
    let mut p = parser_for("[break]");
    let s = Statement::parse(&mut p).unwrap();
    assert_eq!(s.item, Statement::Break);

    let mut p = parser_for("[set x 5]");
    assert!(matches!(
        Statement::parse(&mut p).unwrap().item,
        Statement::SetExpression(_, _)
    ));

    let mut p = parser_for("[set ok true]");
    assert!(matches!(
        Statement::parse(&mut p).unwrap().item,
        Statement::SetCondition(_, _)
    ));

    let mut p = parser_for("[if true { [break] } else { [next] }]");
    assert!(matches!(
        Statement::parse(&mut p).unwrap().item,
        Statement::IfElse(_, _, _)
    ));

    let mut p = parser_for("[while true { [next] }]");
    assert!(matches!(
        Statement::parse(&mut p).unwrap().item,
        Statement::While(_, _)
    ));

    let mut p = parser_for("[repeat 3 { [next] }]");
    assert!(matches!(
        Statement::parse(&mut p).unwrap().item,
        Statement::Repeat(_, _)
    ));

    let mut p = parser_for("[return 5]");
    assert!(matches!(
        Statement::parse(&mut p).unwrap().item,
        Statement::Return(_)
    ));

    let mut p = parser_for("[return true]");
    assert!(matches!(
        Statement::parse(&mut p).unwrap().item,
        Statement::ReturnCondition(_)
    ));
}

#[test]
fn unknown_statement_keyword_is_rejected() {
    let mut p = parser_for("[jump]");
    let e = Statement::parse(&mut p).unwrap_err();
    assert_eq!(e.kind, ErrorKind::UnknownSectionOrKeyword("jump".to_string()));
}

#[test]
fn block_collects_statements_in_order() {
    let mut p = parser_for("{ [break] [next] }");
    let b: Block = Block::parse(&mut p).unwrap().item;
    assert_eq!(b.statements, vec![Statement::Break, Statement::Next]);
}

#[test]
fn procedures_parse_with_params() {
    let prog = parse_src("procedures { f (x) <flag> { [break] } }").unwrap().item;
    assert_eq!(prog.procedures.len(), 1);
    let pr = &prog.procedures[0].item;
    assert_eq!(pr.id.item, "f");
    assert_eq!(pr.params.len(), 2);
    assert_eq!(pr.params[0].item.typ, ValueType::Expression);
    assert_eq!(pr.params[1].item.typ, ValueType::Condition);
    assert_eq!(pr.body.statements, vec![Statement::Break]);
}

#[test]
fn param_defaults_parse_with_their_category() {
    let prog = parse_src("procedures { f (x = 1) <ok = true> { } }").unwrap().item;
    let pr = &prog.procedures[0].item;
    assert!(pr.params[0].item.default.is_some());
    assert!(pr.params[1].item.default.is_some());
}

#[test]
fn functions_parse_with_block_or_direct_leaf_body() {
    let prog = parse_src("functions { (f) (x) { [return x] } }").unwrap().item;
    assert_eq!(prog.functions.len(), 1);
    let f = &prog.functions[0].item;
    assert_eq!(f.id.item, "f");
    assert_eq!(f.return_type, ValueType::Expression);
    assert_eq!(f.params.len(), 1);

    // A direct leaf body is wrapped as the body's single return.
    let prog = parse_src("functions { (g) 5 }").unwrap().item;
    let g = &prog.functions[0].item;
    assert!(matches!(g.body.statements[0], Statement::Return(_)));

    let prog = parse_src("functions { <h> true }").unwrap().item;
    let h = &prog.functions[0].item;
    assert_eq!(h.return_type, ValueType::Condition);
    assert!(matches!(h.body.statements[0], Statement::ReturnCondition(_)));
}

#[test]
fn empty_events_section_parses_and_members_are_rejected() {
    let prog = parse_src("events { }").unwrap().item;
    assert_eq!(prog.events.len(), 0);

    let e = parse_src("events { x }").unwrap_err();
    assert_eq!(
        e.kind,
        ErrorKind::UnexpectedToken {
            expected: Expected::Trigger,
            got: Token::Word("x".to_string()),
        }
    );
}

#[test]
fn reparsing_the_same_tokens_gives_the_same_result() {
    let toks = lex_all("data { (a = (join \"x\" \"y\")) } procedures { p { [loop { [break] }] } }");
    let a = parse(&"test".to_string(), toks.clone());
    let b = parse(&"test".to_string(), toks);
    assert_eq!(a, b);
}

#[test]
fn program_span_accumulates_section_ends() {
    let lp = parse_src("data { (x) }").unwrap();
    // The program's span reaches the closing brace.
    assert_eq!(lp.pos.ln_end, 1);
    assert_eq!(lp.pos.col_end, 12);
}

#[test]
fn errors_carry_the_file_and_a_message() {
    let e = parse_src("data { x }").unwrap_err();
    assert_eq!(e.path, "test");
    assert_eq!(e.message(), "unexpected token");
}
