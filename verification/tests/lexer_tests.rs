use cmdshell::lexer::{scan, starts_with_symbol, LexError, TokenContainer, Tokenizer};
use cmdshell::token::Token;

fn var(text: &str) -> Token {
    Token::VarString(String::from(text))
}

fn collect(container: &TokenContainer) -> Vec<Token> {
    let mut stream = container.get_stream();
    let mut tokens = Vec::new();
    while let Some(tok) = stream.next() {
        tokens.push(tok.clone());
    }
    tokens
}

fn lex(line: &str) -> Vec<Token> {
    collect(&line.tokenize().unwrap())
}

#[test]
fn test_tokenizer() {
    let tokens = " echo void &'sle''ep' 1000h;echo '%^;'".tokenize().unwrap();
    println!("{:?}", tokens);

    let mut it = tokens.get_stream();
    assert!(it.next() == Some(&Token::VarString(String::from("echo"))));
    assert!(it.next() == Some(&Token::VarString(String::from("void"))));
    assert!(it.next() == Some(&Token::Symbol("&")));
    assert!(it.next() == Some(&Token::VarString(String::from("sleep"))));
    assert!(it.next() == Some(&Token::VarString(String::from("1000h"))));
    assert!(it.next() == Some(&Token::Symbol(";")));
    assert!(it.next() == Some(&Token::VarString(String::from("echo"))));
}

#[test]
fn test_symbol_presence() {
    let string = "<< Help";
    println!("starts with {:?}", starts_with_symbol(string));
    assert!(starts_with_symbol(string) == Some("<<"));
    assert!(starts_with_symbol(&string[2..]) == None);
}

#[test]
fn tokenizer_reads_the_whole_line() {
    assert_eq!(
        lex(" echo void &'sle''ep' 1000h;echo '%^;'"),
        vec![
            var("echo"),
            var("void"),
            Token::Symbol("&"),
            var("sleep"),
            var("1000h"),
            Token::Symbol(";"),
            var("echo"),
            var("%^;"),
        ]
    );
}

#[test]
fn quoted_pieces_join_into_one_literal() {
    assert_eq!(lex("'sle''ep'"), vec![var("sleep")]);
    assert_eq!(lex("sleep"), vec![var("sleep")]);
    assert_eq!(lex("'sle''ep'"), lex("sleep"));
    assert_eq!(lex("sl\"ee\"p"), vec![var("sleep")]);
    assert_eq!(lex("'a b'c"), vec![var("a bc")]);
}

#[test]
fn scan_keeps_quotes_apart() {
    assert_eq!(
        scan("'sle''ep'").unwrap(),
        vec![
            Token::QuotedString(String::from("sle")),
            Token::QuotedString(String::from("ep")),
        ]
    );
    assert_eq!(scan("''").unwrap(), vec![Token::QuotedString(String::new())]);
}

#[test]
fn longest_symbol_wins() {
    assert_eq!(scan("<<").unwrap(), vec![Token::Symbol("<<")]);
    assert_eq!(lex("<<"), vec![Token::Symbol("<<")]);
    assert_eq!(lex("&&"), vec![Token::Symbol("&&")]);
    assert_eq!(lex("||"), vec![Token::Symbol("||")]);
    assert_eq!(lex(">>"), vec![Token::Symbol(">>")]);
    assert_eq!(lex("&&&"), vec![Token::Symbol("&&"), Token::Symbol("&")]);
    assert_eq!(lex("<<<"), vec![Token::Symbol("<<"), Token::Symbol("<")]);
    assert_eq!(lex("|||"), vec![Token::Symbol("||"), Token::Symbol("|")]);
}

#[test]
fn every_symbol_is_found() {
    assert_eq!(starts_with_symbol("&& a"), Some("&&"));
    assert_eq!(starts_with_symbol("|| a"), Some("||"));
    assert_eq!(starts_with_symbol(">> a"), Some(">>"));
    assert_eq!(starts_with_symbol("<< a"), Some("<<"));
    assert_eq!(starts_with_symbol(";a"), Some(";"));
    assert_eq!(starts_with_symbol("&a"), Some("&"));
    assert_eq!(starts_with_symbol("|a"), Some("|"));
    assert_eq!(starts_with_symbol("<a"), Some("<"));
    assert_eq!(starts_with_symbol(">a"), Some(">"));
    assert_eq!(starts_with_symbol("\na"), Some("\n"));
    assert_eq!(starts_with_symbol("a;"), None);
    assert_eq!(starts_with_symbol(""), None);
    assert_eq!(starts_with_symbol("&"), Some("&"));
}

#[test]
fn whitespace_runs_collapse() {
    assert_eq!(
        scan("a  \t b").unwrap(),
        vec![var("a"), Token::WhiteSpace, var("b")]
    );
    assert_eq!(lex("a  \t b"), vec![var("a"), var("b")]);
    assert_eq!(scan("   \t ").unwrap(), vec![]);
    assert_eq!(lex("   \t "), vec![]);
    assert_eq!(scan(" a ").unwrap(), vec![var("a"), Token::WhiteSpace]);
    assert_eq!(lex(""), vec![]);
}

#[test]
fn newlines_are_dropped() {
    assert_eq!(
        scan("ls\n").unwrap(),
        vec![var("ls"), Token::Symbol("\n")]
    );
    assert_eq!(lex("ls\n"), vec![var("ls")]);
    assert_eq!(lex("a\nb"), vec![var("a"), var("b")]);
}

#[test]
fn escape_takes_the_next_character() {
    assert_eq!(lex("\\;"), vec![var(";")]);
    assert_eq!(lex("a\\ b"), vec![var("a b")]);
    assert_eq!(lex("ab\\cd"), vec![var("abcd")]);
    assert_eq!(lex("\\'"), vec![var("'")]);
    assert_eq!(
        scan("ab\\cd").unwrap(),
        vec![var("ab"), var("c"), var("d")]
    );
}

#[test]
fn escape_at_the_end() {
    assert_eq!(lex("\\"), vec![]);
    assert_eq!(lex("ab\\"), vec![var("ab\\")]);
    assert_eq!(lex("a \\"), vec![var("a")]);
}

#[test]
fn unterminated_quote_is_an_error() {
    assert_eq!(
        "echo 'oops".tokenize().err(),
        Some(LexError::UnterminatedQuote)
    );
    assert_eq!(scan("echo \"oops'").err(), Some(LexError::UnterminatedQuote));
    assert_eq!(scan("'").err(), Some(LexError::UnterminatedQuote));
    assert!("echo 'o\"ops'".tokenize().is_ok());
}

#[test]
fn literals_hold_any_other_character() {
    assert_eq!(lex("h\u{e9}llo w\u{f6}rld"), vec![var("h\u{e9}llo"), var("w\u{f6}rld")]);
    assert_eq!(lex("'\u{3bb} x'>f"), vec![var("\u{3bb} x"), Token::Symbol(">"), var("f")]);
}

#[test]
fn flatten_joins_and_drops() {
    let container = TokenContainer::new(vec![
        Token::WhiteSpace,
        Token::QuotedString(String::from("a")),
        var("b"),
        Token::WhiteSpace,
        var("c"),
        Token::Symbol("\n"),
        Token::Symbol(";"),
    ]);
    assert_eq!(
        collect(&container.flatten()),
        vec![var("ab"), var("c"), Token::Symbol(";")]
    );
}

#[test]
fn token_predicates() {
    assert!(var("a").is_varstring());
    assert!(!var("a").is_symbol());
    assert!(Token::Symbol(";").is_symbol());
    assert!(!Token::Symbol(";").is_varstring());
    assert!(!Token::WhiteSpace.is_symbol());
    assert!(!Token::QuotedString(String::from("a")).is_varstring());
    assert_eq!(var("a").varstring(), Some(String::from("a")));
    assert_eq!(Token::Symbol(";").varstring(), None);
    assert_eq!(Token::QuotedString(String::from("a")).varstring(), None);
    assert_eq!(Token::Symbol(";").symbol(), Some(";"));
    assert_eq!(var(";").symbol(), None);
    assert_eq!(Token::default(), Token::WhiteSpace);
}
