use asena::lexer::{control_lexer, ident_lexer, lexer, Lexer};
use asena::span::Loc;
use asena::token::{Signed, Token, TokenKind};

fn kinds(source: &str) -> Vec<TokenKind> {
    lexer(source).iter().map(|(token, _)| token.kind()).collect()
}

#[test]
fn keywords_and_identifiers() {
    let tokens = lexer("let x = true");
    assert_eq!(tokens.len(), 4);
    assert_eq!(tokens[0], (Token::Let, Loc::new(0, 3)));
    assert_eq!(tokens[1], (Token::Ident("x".into()), Loc::new(4, 5)));
    assert_eq!(tokens[2], (Token::Symbol("=".into()), Loc::new(6, 7)));
    assert_eq!(tokens[3], (Token::True, Loc::new(8, 12)));
}

#[test]
fn every_keyword_is_read() {
    let source = "let true false if else then type record enum trait class case where match use";
    assert_eq!(
        kinds(source),
        vec![
            TokenKind::Let,
            TokenKind::True,
            TokenKind::False,
            TokenKind::If,
            TokenKind::Else,
            TokenKind::Then,
            TokenKind::Type,
            TokenKind::Record,
            TokenKind::Enum,
            TokenKind::Trait,
            TokenKind::Class,
            TokenKind::Case,
            TokenKind::Where,
            TokenKind::Match,
            TokenKind::Use,
        ]
    );
}

#[test]
fn a_keyword_inside_a_word_is_an_identifier() {
    assert_eq!(lexer("letter")[0].0, Token::Ident("letter".into()));
    assert_eq!(lexer("_if0")[0].0, Token::Ident("_if0".into()));
}

#[test]
fn control_characters() {
    assert_eq!(
        kinds("()[]{};,"),
        vec![
            TokenKind::LeftParen,
            TokenKind::RightParen,
            TokenKind::LeftBracket,
            TokenKind::RightBracket,
            TokenKind::LeftBrace,
            TokenKind::RightBrace,
            TokenKind::Semi,
            TokenKind::Comma,
        ]
    );
    assert_eq!(control_lexer('('), Some(Token::LeftParen));
    assert_eq!(control_lexer(':'), None);
    assert_eq!(control_lexer('.'), None);
    assert_eq!(control_lexer('a'), None);
}

#[test]
fn colon_and_dot_are_symbols() {
    let tokens = lexer("a: t . b");
    assert_eq!(tokens[1].0, Token::Symbol(":".into()));
    assert_eq!(tokens[3].0, Token::Symbol(".".into()));
}

#[test]
fn symbols_run_as_long_as_they_can() {
    let tokens = lexer("a -> b => c <- d");
    assert_eq!(tokens[1], (Token::Symbol("->".into()), Loc::new(2, 4)));
    assert_eq!(tokens[3], (Token::Symbol("=>".into()), Loc::new(7, 9)));
    assert_eq!(tokens[5], (Token::Symbol("<-".into()), Loc::new(12, 14)));
    assert_eq!(Token::sym("->"), Token::Symbol("->".into()));
}

#[test]
fn numbers() {
    let tokens = lexer("105 3.14 0 7.");
    assert_eq!(tokens[0], (Token::Float64("105".into()), Loc::new(0, 3)));
    assert_eq!(tokens[1], (Token::Float64("3.14".into()), Loc::new(4, 8)));
    assert_eq!(tokens[2], (Token::Float64("0".into()), Loc::new(9, 10)));
    assert_eq!(tokens[3], (Token::Float64("7".into()), Loc::new(11, 12)));
    assert_eq!(tokens[4], (Token::Symbol(".".into()), Loc::new(12, 13)));
    assert_eq!(tokens.len(), 5);
}

#[test]
fn a_leading_zero_is_a_number_of_its_own() {
    let tokens = lexer("007");
    assert_eq!(tokens.len(), 3);
    assert_eq!(tokens[0], (Token::Float64("0".into()), Loc::new(0, 1)));
    assert_eq!(tokens[1], (Token::Float64("0".into()), Loc::new(1, 2)));
    assert_eq!(tokens[2], (Token::Float64("7".into()), Loc::new(2, 3)));
}

#[test]
fn strings_keep_their_quotes() {
    let tokens = lexer("\"hello world\" x");
    assert_eq!(
        tokens[0],
        (Token::String("\"hello world\"".into()), Loc::new(0, 13))
    );
    assert_eq!(tokens[1].0, Token::Ident("x".into()));
}

#[test]
fn an_open_string_is_passed_over() {
    let tokens = lexer("\"abc");
    assert_eq!(tokens.len(), 1);
    assert_eq!(tokens[0], (Token::Ident("abc".into()), Loc::new(1, 4)));
}

#[test]
fn comments_and_white_space_are_passed_over() {
    let tokens = lexer("  // a comment\n  let // another\n\tx // last");
    assert_eq!(tokens.len(), 2);
    assert_eq!(tokens[0], (Token::Let, Loc::new(17, 20)));
    assert_eq!(tokens[1].0, Token::Ident("x".into()));
}

#[test]
fn slashes_inside_a_symbol_are_no_comment() {
    let tokens = lexer("a +// b");
    assert_eq!(tokens[1].0, Token::Symbol("+//".into()));
    assert_eq!(tokens[2].0, Token::Ident("b".into()));
}

#[test]
fn unknown_characters_are_passed_over() {
    let tokens = lexer("Π (d: t) -> e");
    assert_eq!(
        kinds("Π (d: t) -> e"),
        vec![
            TokenKind::LeftParen,
            TokenKind::Ident,
            TokenKind::Symbol,
            TokenKind::Ident,
            TokenKind::RightParen,
            TokenKind::Symbol,
            TokenKind::Ident,
        ]
    );
    // Locations are ranges of bytes: the first character takes two.
    assert_eq!(tokens[0].1, Loc::new(3, 4));
    assert_eq!(tokens[6].1, Loc::new(13, 14));
    let tokens = lexer("a€\u{10348}b \"é\"");
    assert_eq!(tokens[0], (Token::Ident("a".into()), Loc::new(0, 1)));
    assert_eq!(tokens[1], (Token::Ident("b".into()), Loc::new(8, 9)));
    assert_eq!(tokens[2], (Token::String("\"é\"".into()), Loc::new(10, 14)));
    let tokens = lexer("\\a b -> c");
    assert_eq!(tokens[0], (Token::Ident("a".into()), Loc::new(1, 2)));
}

#[test]
fn the_empty_source_has_no_tokens() {
    assert!(lexer("").is_empty());
    assert!(lexer("   \n\t ").is_empty());
    assert!(lexer("// only a comment").is_empty());
}

#[test]
fn the_lexer_gives_the_tokens_one_by_one() {
    let mut stream = Lexer::new("do { (Just a) <- findUser 105; }");
    let mut tokens = Vec::new();
    while let Some(token) = stream.next_token() {
        tokens.push(token);
    }
    assert_eq!(stream.next_token(), None);
    assert_eq!(tokens, lexer("do { (Just a) <- findUser 105; }"));
    assert_eq!(tokens.len(), 11);
    assert_eq!(tokens[0].0, Token::Ident("do".into()));
    assert_eq!(tokens[6].0, Token::Symbol("<-".into()));
    assert_eq!(tokens[8].0, Token::Float64("105".into()));
}

#[test]
fn words() {
    assert_eq!(ident_lexer("match"), Token::Match);
    assert_eq!(ident_lexer("matches"), Token::Ident("matches".into()));
    assert_eq!(ident_lexer(""), Token::Ident("".into()));
}

#[test]
fn tokens_as_data() {
    assert_eq!(Token::Int8(3, Signed::Signed).kind(), TokenKind::Int8);
    assert_eq!(Token::Int8(3, Signed::Signed).number(), 3);
    assert_eq!(Token::Int8(3, Signed::Signed).signed(), Signed::Signed);
    assert_eq!(Token::Ident("a".into()).text(), "a");
    assert_eq!(Token::Let.text(), "");
    assert_ne!(Token::Ident("a".into()), Token::Symbol("a".into()));
    assert_ne!(Token::Int8(3, Signed::Signed), Token::Int8(3, Signed::Unsigned));
    assert_eq!(Token::default(), Token::Error);
}
