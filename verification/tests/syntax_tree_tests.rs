use cmdshell::lexer::Tokenizer;
use cmdshell::parser::{ParseError, TokenStream};
use cmdshell::syntax_tree::{Parser, SyntaxTree};
use cmdshell::token::Token;

fn var(text: &str) -> Token {
    Token::VarString(String::from(text))
}

/// The tree written with brackets: the token, then what is left and right.
fn show(tree: Option<&SyntaxTree>) -> String {
    match tree {
        None => String::from("-"),
        Some(t) => {
            let text = match t.token() {
                Token::VarString(s) => s.clone(),
                Token::Symbol(s) => String::from(*s),
                other => format!("{:?}", other),
            };
            if t.left().is_none() && t.right().is_none() {
                text
            } else {
                format!("({} {} {})", text, show(t.left()), show(t.right()))
            }
        }
    }
}

fn parse_tree(line: &str) -> (String, Result<(), ParseError>) {
    let tokens = line.tokenize().unwrap();
    let mut parser = Parser::new(tokens.get_stream());
    let result = parser.parse();
    (show(parser.ast()), result)
}

#[test]
fn test_syntax_tree() {
    let syntaxtree = SyntaxTree::new(&Token::WhiteSpace, None, None)
        .set_left(&Token::WhiteSpace)
        .set_right(&Token::WhiteSpace);
    println!("{:#?}", syntaxtree);
    assert_eq!(syntaxtree.token(), &Token::WhiteSpace);
    assert_eq!(show(Some(&syntaxtree)), "(WhiteSpace WhiteSpace WhiteSpace)");
}

#[test]
fn tree_setters_replace_a_side() {
    let a = var("a");
    let b = var("b");
    let c = var("c");
    let tree = SyntaxTree::new(&a, None, None).set_left(&b).set_right(&c);
    assert_eq!(tree.token(), &a);
    assert_eq!(show(Some(&tree)), "(a b c)");
    let tree = tree.set_left(&c);
    assert_eq!(show(Some(&tree)), "(a c c)");
    let whole = SyntaxTree::new(&b, Some(Box::new(tree)), None);
    assert_eq!(show(Some(&whole)), "(b (a c c) -)");
}

#[test]
fn tree_of_redirections_in_sequence() {
    assert_eq!(
        parse_tree("ls > file; cat < file"),
        (String::from("(; (> ls file) (< cat file))"), Ok(()))
    );
}

#[test]
fn tree_of_arguments_leans_right() {
    assert_eq!(
        parse_tree("ls -l -a"),
        (String::from("(ls - (-l - -a))"), Ok(()))
    );
}

#[test]
fn tree_alternatives_in_order() {
    assert_eq!(
        parse_tree("echo hi & echo bye"),
        (String::from("(& (echo - hi) (echo - bye))"), Ok(()))
    );
    assert_eq!(parse_tree("a ;"), (String::from("(; a -)"), Ok(())));
    assert_eq!(parse_tree("a &"), (String::from("(& a -)"), Ok(())));
    assert_eq!(
        parse_tree("a | b | c"),
        (String::from("(| a (| b c))"), Ok(()))
    );
}

#[test]
fn tree_parse_errors() {
    assert_eq!(parse_tree(""), (String::from("-"), Ok(())));
    assert_eq!(
        parse_tree("; a"),
        (String::from("-"), Err(ParseError::NoMatch))
    );
    assert_eq!(
        parse_tree("echo hi ||"),
        (
            String::from("(echo - hi)"),
            Err(ParseError::UnexpectedToken(Token::Symbol("||")))
        )
    );
    assert_eq!(
        parse_tree("a |"),
        (
            String::from("a"),
            Err(ParseError::UnexpectedToken(Token::Symbol("|")))
        )
    );
}

#[test]
fn tree_alternatives_leave_the_cursor_on_failure() {
    let tokens = vec![var("a"), Token::Symbol("<"), Token::Symbol(";")];
    let mut parser = Parser::new(TokenStream::new(&tokens));
    assert!(parser.test_cmd_1().is_none());
    assert!(parser.test_cmd_2().is_none());
    assert!(parser.test_job_1().is_none());
    assert!(parser.test_cmdline_1().is_none());
    assert!(parser.test_cmdline_2().is_none());
    assert!(parser.test_cmdline_3().is_none());
    assert!(parser.test_cmdline_4().is_none());
    let tree = parser.test_cmdline_5();
    assert_eq!(show(tree.as_deref()), "a");
    assert!(parser.test_tokenlist().is_none());
    assert!(parser.test_simplecmd().is_none());

    let mut parser = Parser::new(TokenStream::new(&tokens));
    assert_eq!(show(parser.test_cmd_3().as_deref()), "a");
    let mut parser = Parser::new(TokenStream::new(&tokens));
    assert_eq!(show(parser.test_job_2().as_deref()), "a");
    let mut parser = Parser::new(TokenStream::new(&tokens));
    assert_eq!(show(parser.test_cmd().as_deref()), "a");
    let mut parser = Parser::new(TokenStream::new(&tokens));
    assert_eq!(show(parser.test_job().as_deref()), "a");
    let mut parser = Parser::new(TokenStream::new(&tokens));
    assert_eq!(show(parser.test_cmdline().as_deref()), "a");
}
