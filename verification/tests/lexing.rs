use bracket_dsl::error::ErrorKind;
use bracket_dsl::lexer::Lexer;
use bracket_dsl::position::{Located, Position};
use bracket_dsl::token::Token;

fn lex_all(src: &str) -> Vec<Located<Token>> {
    let mut lx = Lexer::new("test".to_string(), src.to_string());
    lx.lex().expect("lexing should succeed")
}

fn lex_err(src: &str) -> ErrorKind {
    let mut lx = Lexer::new("test".to_string(), src.to_string());
    lx.lex().expect_err("lexing should fail").kind
}

#[test]
fn lexes_every_structural_character() {
    let toks = lex_all("; , : = ( ) < > [ ] { }");
    let items: Vec<Token> = toks.into_iter().map(|t| t.item).collect();
    assert_eq!(
        items,
        vec![
            Token::End,
            Token::Sep,
            Token::Rep,
            Token::Equal,
            Token::ExprIn,
            Token::ExprOut,
            Token::CondIn,
            Token::CondOut,
            Token::StatIn,
            Token::StatOut,
            Token::BodyIn,
            Token::BodyOut,
        ]
    );
}

#[test]
fn words_and_keywords_classify() {
    let toks = lex_all("true false data x_1");
    assert_eq!(toks[0].item, Token::Bool(true));
    assert_eq!(toks[1].item, Token::Bool(false));
    assert_eq!(toks[2].item, Token::Word("data".to_string()));
    assert_eq!(toks[3].item, Token::Word("x_1".to_string()));
}

#[test]
fn from_word_reclassifies_booleans() {
    assert_eq!(Token::from_word("true".to_string()), Token::Bool(true));
    assert_eq!(Token::from_word("false".to_string()), Token::Bool(false));
    assert_eq!(
        Token::from_word("truey".to_string()),
        Token::Word("truey".to_string())
    );
}

#[test]
fn numbers_keep_their_literal_text() {
    let toks = lex_all("12 12.5 7.");
    assert_eq!(toks[0].item, Token::Number("12".to_string()));
    assert_eq!(toks[1].item, Token::Number("12.5".to_string()));
    assert_eq!(toks[2].item, Token::Number("7.".to_string()));
}

#[test]
fn strings_keep_content_without_quotes() {
    let toks = lex_all("\"hello world\"");
    assert_eq!(toks[0].item, Token::String("hello world".to_string()));
    // The span covers both quotes.
    assert_eq!(toks[0].pos, Position::new(0, 1, 0, 13));
}

#[test]
fn token_spans_give_back_the_literal() {
    let src = "data  {(xy)}";
    let toks = lex_all(src);
    // Slicing the source line by each single-line token's span reproduces
    // the token's literal text.
    for t in &toks {
        assert_eq!(t.pos.ln_start, 0);
        assert_eq!(t.pos.ln_end, 1);
        let slice: String = src
            .chars()
            .skip(t.pos.col_start)
            .take(t.pos.col_end - t.pos.col_start)
            .collect();
        let expected = match &t.item {
            Token::Word(w) => w.clone(),
            Token::ExprIn => "(".to_string(),
            Token::ExprOut => ")".to_string(),
            Token::BodyIn => "{".to_string(),
            Token::BodyOut => "}".to_string(),
            _ => continue,
        };
        assert_eq!(slice, expected);
    }
}

#[test]
fn advance_tracks_lines_and_columns() {
    let toks = lex_all("(x)\n(y)");
    // `(` of the second line sits at line 1, column 0.
    assert_eq!(toks[3].item, Token::ExprIn);
    assert_eq!(toks[3].pos, Position::new(1, 2, 0, 1));
    assert_eq!(toks[4].item, Token::Word("y".to_string()));
    assert_eq!(toks[4].pos, Position::new(1, 2, 1, 2));
}

#[test]
fn lexer_primitives_work() {
    let mut lx = Lexer::new("test".to_string(), "a\nb".to_string());
    assert_eq!(lx.get(), Some('a'));
    assert_eq!(lx.pos(), Position::new(0, 1, 0, 1));
    lx.advance();
    assert_eq!(lx.get(), Some('\n'));
    lx.advance();
    // After the newline the column resets and the line advances.
    assert_eq!(lx.pos(), Position::new(1, 2, 0, 1));
    assert_eq!(lx.get(), Some('b'));
    lx.advance();
    assert_eq!(lx.get(), None);
}

#[test]
fn unterminated_string_fails() {
    assert_eq!(lex_err("\"hello"), ErrorKind::UnterminatedString);
}

#[test]
fn unsupported_character_fails() {
    assert_eq!(lex_err("#"), ErrorKind::UnsupportedCharacter('#'));
    assert_eq!(lex_err("data | x"), ErrorKind::UnsupportedCharacter('|'));
}

#[test]
fn empty_and_whitespace_inputs_lex_to_nothing() {
    assert_eq!(lex_all("").len(), 0);
    assert_eq!(lex_all("  \n\t \r ").len(), 0);
}

#[test]
fn token_names_describe_categories() {
    assert_eq!(Token::Word("x".to_string()).name(), "identifier");
    assert_eq!(Token::Number("1".to_string()).name(), "number");
    assert_eq!(Token::Bool(true).name(), "boolean");
    assert_eq!(Token::String("s".to_string()).name(), "string");
    assert_eq!(Token::End.name(), "';'");
    assert_eq!(Token::BodyIn.name(), "'{'");
}

#[test]
fn token_text_reproduces_the_literal() {
    assert_eq!(Token::Word("abc".to_string()).text(), "abc");
    assert_eq!(Token::Number("12.5".to_string()).text(), "12.5");
    assert_eq!(Token::Bool(true).text(), "true");
    assert_eq!(Token::Bool(false).text(), "false");
    assert_eq!(Token::String("hi".to_string()).text(), "\"hi\"");
    assert_eq!(Token::End.text(), ";");
    assert_eq!(Token::ExprIn.text(), "(");
    assert_eq!(Token::BodyOut.text(), "}");
}

#[test]
fn every_lexed_token_text_slices_back_out_of_the_source() {
    let src = "data { (x = 12.5) (s = \"hi\") } messages { (m) }";
    for t in lex_all(src) {
        assert_eq!(t.pos.ln_start, 0);
        let slice: String = src
            .chars()
            .skip(t.pos.col_start)
            .take(t.pos.col_end - t.pos.col_start)
            .collect();
        assert_eq!(slice, t.item.text());
    }
}
