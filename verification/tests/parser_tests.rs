use cmdshell::ast::{
    CommandExpr, CommandLineExpr, CommandLineOp, CommandOp, JobExpr, JobOp, SimpleCmdExpr,
};
use cmdshell::lexer::Tokenizer;
use cmdshell::parser::{Parse, ParseError, ParserData, TokenStream};
use cmdshell::token::Token;

fn parse_line(line: &str) -> Result<Option<Box<CommandLineExpr>>, ParseError> {
    let tokens = line.tokenize().unwrap();
    tokens.get_stream().parse()
}

fn exe(path: &str) -> Box<SimpleCmdExpr> {
    Box::new(SimpleCmdExpr::Exe(String::from(path)))
}

fn exe_args(path: &str, args: &[&str]) -> Box<SimpleCmdExpr> {
    Box::new(SimpleCmdExpr::ExeWithArgs(
        String::from(path),
        args.iter().map(|a| String::from(*a)).collect(),
    ))
}

fn plain(simple: Box<SimpleCmdExpr>) -> Box<CommandExpr> {
    Box::new(CommandExpr::Plain(simple))
}

fn single(command: Box<CommandExpr>) -> Box<JobExpr> {
    Box::new(JobExpr::Single(command))
}

fn pipe(command: Box<CommandExpr>, rest: Box<JobExpr>) -> Box<JobExpr> {
    Box::new(JobExpr::Pipeline(command, JobOp::Pipe, rest))
}

#[test]
fn test_cmdline_expr() {
    let input = "ls > file; cat < file";
    let tokens = input.tokenize().unwrap();
    let mut parser = ParserData::new(tokens.get_stream());
    let expr = parser.parse().unwrap().unwrap();
    match *expr {
        CommandLineExpr::Chain(first, CommandLineOp::Sequence, rest) => {
            match *first {
                JobExpr::Single(command) => match *command {
                    CommandExpr::Redirected(simple, CommandOp::RedirectOut, _) => {
                        assert!(matches!(*simple, SimpleCmdExpr::Exe(_)))
                    }
                    _ => panic!("the first command is not redirected to a file"),
                },
                _ => panic!("the first job is not a single command"),
            }
            match *rest {
                CommandLineExpr::Single(job) => match *job {
                    JobExpr::Single(command) => match *command {
                        CommandExpr::Redirected(simple, CommandOp::RedirectIn, _) => {
                            assert!(matches!(*simple, SimpleCmdExpr::Exe(_)))
                        }
                        _ => panic!("the second command is not redirected from a file"),
                    },
                    _ => panic!("the second job is not a single command"),
                },
                _ => panic!("the rest of the line is not a single job"),
            }
        }
        _ => panic!("the line is not a chain"),
    }
}

#[test]
fn redirections_in_sequence() {
    let expected = CommandLineExpr::Chain(
        single(Box::new(CommandExpr::Redirected(
            exe("ls"),
            CommandOp::RedirectOut,
            String::from("file"),
        ))),
        CommandLineOp::Sequence,
        Box::new(CommandLineExpr::Single(single(Box::new(
            CommandExpr::Redirected(exe("cat"), CommandOp::RedirectIn, String::from("file")),
        )))),
    );
    assert_eq!(
        parse_line("ls > file; cat < file"),
        Ok(Some(Box::new(expected)))
    );
}

#[test]
fn continuation_is_preferred() {
    let expected = CommandLineExpr::Chain(
        single(plain(exe_args("echo", &["hi"]))),
        CommandLineOp::Background,
        Box::new(CommandLineExpr::Single(single(plain(exe_args(
            "echo",
            &["bye"],
        ))))),
    );
    assert_eq!(parse_line("echo hi & echo bye"), Ok(Some(Box::new(expected))));
}

#[test]
fn trailing_operator() {
    assert_eq!(
        parse_line("sleep 1 &"),
        Ok(Some(Box::new(CommandLineExpr::WithTrailingOp(
            single(plain(exe_args("sleep", &["1"]))),
            CommandLineOp::Background
        ))))
    );
    assert_eq!(
        parse_line("ls;"),
        Ok(Some(Box::new(CommandLineExpr::WithTrailingOp(
            single(plain(exe("ls"))),
            CommandLineOp::Sequence
        ))))
    );
}

#[test]
fn single_job() {
    assert_eq!(
        parse_line("ls"),
        Ok(Some(Box::new(CommandLineExpr::Single(single(plain(exe(
            "ls"
        )))))))
    );
    assert_eq!(
        parse_line("ls -l -a /tmp"),
        Ok(Some(Box::new(CommandLineExpr::Single(single(plain(
            exe_args("ls", &["-l", "-a", "/tmp"])
        ))))))
    );
}

#[test]
fn pipeline_leans_right() {
    assert_eq!(
        parse_line("a | b | c"),
        Ok(Some(Box::new(CommandLineExpr::Single(pipe(
            plain(exe("a")),
            pipe(plain(exe("b")), single(plain(exe("c"))))
        )))))
    );
}

#[test]
fn blank_line_is_no_error() {
    assert_eq!(parse_line(""), Ok(None));
    assert_eq!(parse_line("   \t"), Ok(None));
    assert_eq!(parse_line("\n"), Ok(None));
}

#[test]
fn unknown_trailing_token() {
    assert_eq!(
        parse_line("echo hi ||"),
        Err(ParseError::UnexpectedToken(Token::Symbol("||")))
    );
    assert_eq!(
        parse_line("a && b"),
        Err(ParseError::UnexpectedToken(Token::Symbol("&&")))
    );
    assert_eq!(
        parse_line("a >> f"),
        Err(ParseError::UnexpectedToken(Token::Symbol(">>")))
    );
    assert_eq!(
        parse_line("a << f"),
        Err(ParseError::UnexpectedToken(Token::Symbol("<<")))
    );
}

#[test]
fn no_command_at_the_start() {
    assert_eq!(parse_line("; ls"), Err(ParseError::NoMatch));
    assert_eq!(parse_line("| ls"), Err(ParseError::NoMatch));
    assert_eq!(parse_line("&"), Err(ParseError::NoMatch));
}

#[test]
fn pipe_without_a_job_is_left_unread() {
    assert_eq!(
        parse_line("a |"),
        Err(ParseError::UnexpectedToken(Token::Symbol("|")))
    );
    assert_eq!(
        parse_line("a | ; b"),
        Err(ParseError::UnexpectedToken(Token::Symbol("|")))
    );
}

#[test]
fn redirection_without_a_file_is_left_unread() {
    assert_eq!(
        parse_line("a >"),
        Err(ParseError::UnexpectedToken(Token::Symbol(">")))
    );
    assert_eq!(
        parse_line("a < ; b"),
        Err(ParseError::UnexpectedToken(Token::Symbol("<")))
    );
    assert_eq!(
        parse_line("a > f g"),
        Err(ParseError::UnexpectedToken(Token::VarString(String::from(
            "g"
        ))))
    );
}

#[test]
fn operators_twice() {
    assert_eq!(
        parse_line("a ; ; b"),
        Err(ParseError::UnexpectedToken(Token::Symbol(";")))
    );
}

#[test]
fn parser_steps() {
    let tokens = vec![
        Token::VarString(String::from("cat")),
        Token::VarString(String::from("x")),
        Token::Symbol("<"),
        Token::VarString(String::from("in")),
        Token::Symbol("|"),
        Token::VarString(String::from("wc")),
        Token::Symbol(";"),
    ];
    let mut data = ParserData::new(TokenStream::new(&tokens));
    assert_eq!(data.create_simplecmd_expr(), Some(exe_args("cat", &["x"])));
    assert_eq!(data.create_simplecmd_expr(), None);

    let mut data = ParserData::new(TokenStream::new(&tokens));
    assert_eq!(
        data.create_command_expr(),
        Some(Box::new(CommandExpr::Redirected(
            exe_args("cat", &["x"]),
            CommandOp::RedirectIn,
            String::from("in")
        )))
    );
    assert_eq!(data.create_command_expr(), None);

    let mut data = ParserData::new(TokenStream::new(&tokens));
    let job = pipe(
        Box::new(CommandExpr::Redirected(
            exe_args("cat", &["x"]),
            CommandOp::RedirectIn,
            String::from("in"),
        )),
        single(plain(exe("wc"))),
    );
    assert_eq!(data.create_job_expr(), Some(job));
    assert_eq!(
        data.create_commandline_expr(),
        None
    );

    let mut stream = TokenStream::new(&tokens);
    assert_eq!(stream.peek(), Some(&tokens[0]));
    assert_eq!(stream.next(), Some(&tokens[0]));
    let copy = stream;
    assert_eq!(stream.next(), Some(&tokens[1]));
    stream = copy;
    assert_eq!(stream.next(), Some(&tokens[1]));
}
