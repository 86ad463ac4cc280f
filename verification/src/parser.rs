//! The parser: recursive descent with ordered alternatives over a cursor
//! that can be copied and so rewound.

use crate::ast::{
    texts, CommandExpr, CommandLineExpr, CommandLineOp, CommandLineView, CommandOp, CommandView,
    JobExpr, JobOp, JobView, SimpleCmdExpr, SimpleCmdView,
};
use crate::lexer::token_views;
use crate::token::{Token, TokenView};
use vstd::prelude::*;

verus! {

/// Why a sequence of tokens is no command line.
#[derive(Debug, PartialEq)]
pub enum ParseError {
    /// A command line was read and this token stands behind it.
    UnexpectedToken(Token),
    /// The tokens do not start with a command.
    NoMatch,
}

/// The value of a parse error.
pub enum ParseErrorView {
    UnexpectedToken(TokenView),
    NoMatch,
}

impl View for ParseError {
    type V = ParseErrorView;

    open spec fn view(&self) -> ParseErrorView {
        match self {
            ParseError::UnexpectedToken(t) => ParseErrorView::UnexpectedToken(t@),
            ParseError::NoMatch => ParseErrorView::NoMatch,
        }
    }
}

/// The number of literals that stand in a row in `toks` from `from` on.
pub open spec fn var_run(toks: Seq<TokenView>, from: int) -> nat
    decreases toks.len() - from,
{
    if from < 0 || from >= toks.len() || !(toks[from] is VarString) {
        0
    } else {
        1 + var_run(toks, from + 1)
    }
}

/// The texts of the `n` literals that stand in `toks` from `from` on.
pub open spec fn var_texts(toks: Seq<TokenView>, from: int, n: nat) -> Seq<Seq<char>> {
    Seq::new(n, |k: int| toks[from + k]->VarString_0)
}

/// Whether a token stands at `pos` and is the one-character symbol `c`.
pub open spec fn symbol_at(toks: Seq<TokenView>, pos: int, c: char) -> bool {
    0 <= pos < toks.len() && toks[pos] == TokenView::Symbol(seq![c])
}

/// `simple-command := token token*`: the literal at `pos` is the path, the
/// literals that follow it in a row are the arguments.
pub open spec fn spec_simple_command(toks: Seq<TokenView>, pos: int) -> Option<(SimpleCmdView, int)> {
    if 0 <= pos < toks.len() && toks[pos] is VarString {
        let path = toks[pos]->VarString_0;
        let n = var_run(toks, pos + 1);
        if n == 0 {
            Some((SimpleCmdView::Exe(path), pos + 1))
        } else {
            Some((SimpleCmdView::ExeWithArgs(path, var_texts(toks, pos + 1, n)), pos + 1 + n))
        }
    } else {
        None
    }
}

/// `command := simple-command '<' filename | simple-command '>' filename |
/// simple-command`: a redirection is read where the symbol and one literal
/// follow the simple command, and left unread otherwise.
pub open spec fn spec_command(toks: Seq<TokenView>, pos: int) -> Option<(CommandView, int)> {
    match spec_simple_command(toks, pos) {
        None => None,
        Some((simple, end)) => {
            let named = end + 1 < toks.len() && toks[end + 1] is VarString;
            if named && symbol_at(toks, end, '<') {
                Some(
                    (
                        CommandView::Redirected(
                            simple,
                            CommandOp::RedirectIn,
                            toks[end + 1]->VarString_0,
                        ),
                        end + 2,
                    ),
                )
            } else if named && symbol_at(toks, end, '>') {
                Some(
                    (
                        CommandView::Redirected(
                            simple,
                            CommandOp::RedirectOut,
                            toks[end + 1]->VarString_0,
                        ),
                        end + 2,
                    ),
                )
            } else {
                Some((CommandView::Plain(simple), end))
            }
        },
    }
}

/// `job := command '|' job | command`: the longer alternative where a job
/// follows the `|`, the shorter one otherwise, with the `|` left unread.
pub open spec fn spec_job(toks: Seq<TokenView>, pos: int) -> Option<(JobView, int)>
    decreases toks.len() - pos,
{
    match spec_command(toks, pos) {
        None => None,
        Some((command, end)) => {
            if symbol_at(toks, end, '|') {
                match spec_job(toks, end + 1) {
                    Some((rest, rest_end)) => Some(
                        (JobView::Pipeline(command, Box::new(rest)), rest_end),
                    ),
                    None => Some((JobView::Single(command), end)),
                }
            } else {
                Some((JobView::Single(command), end))
            }
        },
    }
}

/// The operator that stands at `pos`, if one does.
pub open spec fn spec_line_op(toks: Seq<TokenView>, pos: int) -> Option<CommandLineOp> {
    if symbol_at(toks, pos, ';') {
        Some(CommandLineOp::Sequence)
    } else if symbol_at(toks, pos, '&') {
        Some(CommandLineOp::Background)
    } else {
        None
    }
}

/// `command-line := job ';' command-line | job ';' | job '&' command-line |
/// job '&' | job`: behind the operator the longer alternative where a
/// command line follows, the shorter one otherwise.
pub open spec fn spec_command_line(toks: Seq<TokenView>, pos: int) -> Option<(CommandLineView, int)>
    decreases toks.len() - pos,
    via command_line_decreases
{
    match spec_job(toks, pos) {
        None => None,
        Some((job, end)) => match spec_line_op(toks, end) {
            None => Some((CommandLineView::Single(job), end)),
            Some(op) => match spec_command_line(toks, end + 1) {
                Some((rest, rest_end)) => Some(
                    (CommandLineView::Chain(job, op, Box::new(rest)), rest_end),
                ),
                None => Some((CommandLineView::WithTrailingOp(job, op), end + 1)),
            },
        },
    }
}

#[via_fn]
proof fn command_line_decreases(toks: Seq<TokenView>, pos: int) {
    lemma_job_advances(toks, pos);
}

/// A job that is read holds at least one token and ends within the tokens.
pub proof fn lemma_job_advances(toks: Seq<TokenView>, pos: int)
    ensures
        spec_job(toks, pos) is Some ==> 0 <= pos < spec_job(toks, pos).unwrap().1 <= toks.len(),
    decreases toks.len() - pos,
{
    lemma_command_advances(toks, pos);
    if spec_command(toks, pos) is Some {
        let end = spec_command(toks, pos).unwrap().1;
        if symbol_at(toks, end, '|') {
            lemma_job_advances(toks, end + 1);
        }
    }
}

/// A command that is read holds at least one token and ends within the
/// tokens.
pub proof fn lemma_command_advances(toks: Seq<TokenView>, pos: int)
    ensures
        spec_command(toks, pos) is Some ==> 0 <= pos < spec_command(toks, pos).unwrap().1 <= toks.len(),
{
    if 0 <= pos < toks.len() {
        lemma_var_run_bound(toks, pos + 1);
    }
}

pub proof fn lemma_var_run_bound(toks: Seq<TokenView>, from: int)
    requires
        0 <= from <= toks.len(),
    ensures
        from + var_run(toks, from) <= toks.len(),
        forall|k: int| from <= k < from + var_run(toks, from) ==> #[trigger] toks[k] is VarString,
        from + var_run(toks, from) < toks.len() ==> !(toks[from + var_run(toks, from)] is VarString),
    decreases toks.len() - from,
{
    if from < toks.len() && toks[from] is VarString {
        lemma_var_run_bound(toks, from + 1);
    }
}

/// What parsing the tokens from `pos` on gives: nothing where no token is
/// left, the command line where it takes all of them, and otherwise the
/// reason why there is none.
pub open spec fn spec_parse_from(toks: Seq<TokenView>, pos: int) -> Result<
    Option<CommandLineView>,
    ParseErrorView,
> {
    if pos < 0 || pos >= toks.len() {
        Ok(None)
    } else {
        match spec_command_line(toks, pos) {
            None => Err(ParseErrorView::NoMatch),
            Some((line, end)) => if end < toks.len() {
                Err(ParseErrorView::UnexpectedToken(toks[end]))
            } else {
                Ok(Some(line))
            },
        }
    }
}

/// What parsing `toks` gives.
pub open spec fn spec_parse(toks: Seq<TokenView>) -> Result<Option<CommandLineView>, ParseErrorView> {
    spec_parse_from(toks, 0)
}

/// The value of what a parse returns.
pub open spec fn parse_outcome(r: Result<Option<Box<CommandLineExpr>>, ParseError>) -> Result<
    Option<CommandLineView>,
    ParseErrorView,
> {
    match r {
        Ok(Some(line)) => Ok(Some((*line)@)),
        Ok(None) => Ok(None),
        Err(e) => Err(e@),
    }
}

/// A read cursor over the tokens of a line. A copy of it keeps its place,
/// so a parser goes back by going on with the copy.
#[derive(Clone, Copy)]
pub struct TokenStream<'a> {
    tokens: &'a Vec<Token>,
    pos: usize,
}

impl<'a> TokenStream<'a> {
    /// The tokens that the cursor runs over, read or not.
    pub closed spec fn spec_tokens(&self) -> Seq<TokenView> {
        token_views(self.tokens@)
    }

    /// The number of tokens read.
    pub closed spec fn spec_pos(&self) -> int {
        self.pos as int
    }

    /// A cursor before the first of `tokens`.
    pub fn new(tokens: &'a Vec<Token>) -> (stream: TokenStream<'a>)
        ensures
            stream.spec_tokens() == token_views(tokens@),
            stream.spec_pos() == 0,
    {
        TokenStream { tokens, pos: 0 }
    }

    /// The next token, which stays unread.
    pub fn peek(&self) -> (tok: Option<&'a Token>)
        ensures
            match tok {
                Some(t) => 0 <= self.spec_pos() < self.spec_tokens().len() && t@
                    == self.spec_tokens()[self.spec_pos()],
                None => self.spec_pos() >= self.spec_tokens().len(),
            },
    {
        if self.pos < self.tokens.len() {
            Some(&self.tokens[self.pos])
        } else {
            None
        }
    }

    /// Reads the next token.
    pub fn next(&mut self) -> (tok: Option<&'a Token>)
        ensures
            final(self).spec_tokens() == old(self).spec_tokens(),
            match tok {
                Some(t) => 0 <= old(self).spec_pos() < old(self).spec_tokens().len() && t@
                    == old(self).spec_tokens()[old(self).spec_pos()] && final(self).spec_pos()
                    == old(self).spec_pos() + 1,
                None => old(self).spec_pos() >= old(self).spec_tokens().len() && final(self).spec_pos()
                    == old(self).spec_pos(),
            },
    {
        if self.pos < self.tokens.len() {
            let tok = &self.tokens[self.pos];
            self.pos = self.pos + 1;
            Some(tok)
        } else {
            None
        }
    }
}

/// Whether `tok` is the one-character symbol `c`.
pub(crate) fn is_symbol_char(tok: &Token, c: char) -> (b: bool)
    ensures
        b == (tok@ == TokenView::Symbol(seq![c])),
{
    match tok {
        Token::Symbol(text) => {
            let b = text.unicode_len() == 1 && text.get_char(0) == c;
            assert(b ==> text@ =~= seq![c]);
            b
        },
        _ => false,
    }
}

/// The state of a parse: the cursor, which stands behind what was read.
pub struct ParserData<'a> {
    token_iterator: TokenStream<'a>,
}

impl<'a> ParserData<'a> {
    /// The tokens that are parsed.
    pub closed spec fn spec_tokens(&self) -> Seq<TokenView> {
        self.token_iterator.spec_tokens()
    }

    /// The number of tokens read.
    pub closed spec fn spec_pos(&self) -> int {
        self.token_iterator.spec_pos()
    }

    pub fn new(token_iterator: TokenStream<'a>) -> (data: ParserData<'a>)
        ensures
            data.spec_tokens() == token_iterator.spec_tokens(),
            data.spec_pos() == token_iterator.spec_pos(),
    {
        ParserData { token_iterator }
    }

    /// Whether the next token is the one-character symbol `c`. Nothing is
    /// read.
    fn at_symbol(&self, c: char) -> (b: bool)
        ensures
            b == symbol_at(self.spec_tokens(), self.spec_pos(), c),
    {
        match self.token_iterator.peek() {
            Some(tok) => is_symbol_char(tok, c),
            None => false,
        }
    }

    /// The text of the next token where it is a literal. Nothing is read.
    fn literal_ahead(&self) -> (text: Option<String>)
        ensures
            match text {
                Some(t) => 0 <= self.spec_pos() < self.spec_tokens().len()
                    && self.spec_tokens()[self.spec_pos()] == TokenView::VarString(t@),
                None => !(0 <= self.spec_pos() < self.spec_tokens().len()
                    && self.spec_tokens()[self.spec_pos()] is VarString),
            },
    {
        match self.token_iterator.peek() {
            Some(tok) => tok.varstring(),
            None => None,
        }
    }

    /// Reads a simple command: a path and the arguments behind it. The
    /// cursor stays where no literal stands next.
    pub fn create_simplecmd_expr(&mut self) -> (r: Option<Box<SimpleCmdExpr>>)
        ensures
            final(self).spec_tokens() == old(self).spec_tokens(),
            match spec_simple_command(old(self).spec_tokens(), old(self).spec_pos()) {
                Some((simple, end)) => r is Some && (*r.unwrap())@ == simple && final(self).spec_pos()
                    == end,
                None => r is None && final(self).spec_pos() == old(self).spec_pos(),
            },
    {
        let ghost toks = self.spec_tokens();
        let ghost start = self.spec_pos();
        let path = match self.literal_ahead() {
            Some(path) => path,
            None => {
                return None;
            },
        };
        self.token_iterator.next();
        let mut args: Vec<String> = Vec::new();
        assert(texts(args@) =~= var_texts(toks, start + 1, 0));
        loop
            invariant
                self.spec_tokens() == toks,
                self.spec_pos() == start + 1 + args.len(),
                0 <= start < toks.len(),
                texts(args@) == var_texts(toks, start + 1, args.len() as nat),
                var_run(toks, start + 1) == args.len() + var_run(toks, self.spec_pos()),
            ensures
                var_run(toks, start + 1) == args.len(),
            decreases toks.len() - self.spec_pos(),
        {
            match self.literal_ahead() {
                Some(arg) => {
                    let ghost before = texts(args@);
                    let ghost at = self.spec_pos();
                    assert(toks[at]->VarString_0 == arg@);
                    args.push(arg);
                    self.token_iterator.next();
                    assert(texts(args@) =~= before.push(toks[at]->VarString_0));
                    assert(texts(args@) =~= var_texts(toks, start + 1, args.len() as nat));
                },
                None => {
                    break ;
                },
            }
        }
        if args.len() == 0 {
            Some(Box::new(SimpleCmdExpr::Exe(path)))
        } else {
            Some(Box::new(SimpleCmdExpr::ExeWithArgs(path, args)))
        }
    }

    /// Reads a command: a simple command and, where the symbol and a file
    /// name follow it, its redirection.
    pub fn create_command_expr(&mut self) -> (r: Option<Box<CommandExpr>>)
        ensures
            final(self).spec_tokens() == old(self).spec_tokens(),
            match spec_command(old(self).spec_tokens(), old(self).spec_pos()) {
                Some((command, end)) => r is Some && (*r.unwrap())@ == command
                    && final(self).spec_pos() == end,
                None => r is None && final(self).spec_pos() == old(self).spec_pos(),
            },
    {
        let simple = match self.create_simplecmd_expr() {
            Some(simple) => simple,
            None => {
                return None;
            },
        };
        let op = if self.at_symbol('<') {
            CommandOp::RedirectIn
        } else if self.at_symbol('>') {
            CommandOp::RedirectOut
        } else {
            return Some(Box::new(CommandExpr::Plain(simple)));
        };
        let mut ahead = ParserData { token_iterator: self.token_iterator };
        ahead.token_iterator.next();
        match ahead.literal_ahead() {
            Some(file) => {
                ahead.token_iterator.next();
                self.token_iterator = ahead.token_iterator;
                Some(Box::new(CommandExpr::Redirected(simple, op, file)))
            },
            None => Some(Box::new(CommandExpr::Plain(simple))),
        }
    }

    /// Reads a job: a command and, where a `|` and a job follow it, the rest
    /// of the pipeline.
    pub fn create_job_expr(&mut self) -> (r: Option<Box<JobExpr>>)
        ensures
            final(self).spec_tokens() == old(self).spec_tokens(),
            match spec_job(old(self).spec_tokens(), old(self).spec_pos()) {
                Some((job, end)) => r is Some && (*r.unwrap())@ == job && final(self).spec_pos()
                    == end,
                None => r is None && final(self).spec_pos() == old(self).spec_pos(),
            },
        decreases old(self).spec_tokens().len() - old(self).spec_pos(),
    {
        proof {
            lemma_command_advances(self.spec_tokens(), self.spec_pos());
        }
        let command = match self.create_command_expr() {
            Some(command) => command,
            None => {
                return None;
            },
        };
        if !self.at_symbol('|') {
            return Some(Box::new(JobExpr::Single(command)));
        }
        let behind_command = self.token_iterator;
        self.token_iterator.next();
        match self.create_job_expr() {
            Some(rest) => Some(Box::new(JobExpr::Pipeline(command, JobOp::Pipe, rest))),
            None => {
                self.token_iterator = behind_command;
                Some(Box::new(JobExpr::Single(command)))
            },
        }
    }

    /// Reads a command line: a job and, where an operator follows it, the
    /// operator and the rest of the line, if there is one.
    pub fn create_commandline_expr(&mut self) -> (r: Option<Box<CommandLineExpr>>)
        ensures
            final(self).spec_tokens() == old(self).spec_tokens(),
            match spec_command_line(old(self).spec_tokens(), old(self).spec_pos()) {
                Some((line, end)) => r is Some && (*r.unwrap())@ == line && final(self).spec_pos()
                    == end,
                None => r is None && final(self).spec_pos() == old(self).spec_pos(),
            },
        decreases old(self).spec_tokens().len() - old(self).spec_pos(),
    {
        proof {
            lemma_job_advances(self.spec_tokens(), self.spec_pos());
        }
        let job = match self.create_job_expr() {
            Some(job) => job,
            None => {
                return None;
            },
        };
        let op = if self.at_symbol(';') {
            CommandLineOp::Sequence
        } else if self.at_symbol('&') {
            CommandLineOp::Background
        } else {
            return Some(Box::new(CommandLineExpr::Single(job)));
        };
        self.token_iterator.next();
        match self.create_commandline_expr() {
            Some(rest) => Some(Box::new(CommandLineExpr::Chain(job, op, rest))),
            None => Some(Box::new(CommandLineExpr::WithTrailingOp(job, op))),
        }
    }

    /// Parses the tokens that are left: nothing where none is left, the
    /// command line where it takes all of them, and otherwise the error.
    pub fn parse(&mut self) -> (r: Result<Option<Box<CommandLineExpr>>, ParseError>)
        ensures
            final(self).spec_tokens() == old(self).spec_tokens(),
            parse_outcome(r) == spec_parse_from(old(self).spec_tokens(), old(self).spec_pos()),
    {
        if self.token_iterator.peek().is_none() {
            return Ok(None);
        }
        match self.create_commandline_expr() {
            None => Err(ParseError::NoMatch),
            Some(line) => match self.token_iterator.peek() {
                Some(tok) => Err(ParseError::UnexpectedToken(tok.clone())),
                None => Ok(Some(line)),
            },
        }
    }
}

/// What can be parsed into a command line.
pub trait Parse: Sized {
    /// The tokens that are parsed.
    spec fn spec_input(&self) -> Seq<TokenView>;

    /// The place in them at which parsing starts.
    spec fn spec_start(&self) -> int;

    /// The command line that the tokens spell, `None` where there is no
    /// token, or the reason why they spell none.
    fn parse(self) -> (r: Result<Option<Box<CommandLineExpr>>, ParseError>)
        ensures
            parse_outcome(r) == spec_parse_from(self.spec_input(), self.spec_start()),
    ;
}

impl<'a> Parse for TokenStream<'a> {
    open spec fn spec_input(&self) -> Seq<TokenView> {
        self.spec_tokens()
    }

    open spec fn spec_start(&self) -> int {
        self.spec_pos()
    }

    fn parse(self) -> (r: Result<Option<Box<CommandLineExpr>>, ParseError>) {
        let mut data = ParserData::new(self);
        data.parse()
    }
}

/// The tokens that spell a simple command: its path, then its arguments.
pub open spec fn spell_simple(simple: SimpleCmdView) -> Seq<TokenView> {
    match simple {
        SimpleCmdView::Exe(path) => seq![TokenView::VarString(path)],
        SimpleCmdView::ExeWithArgs(path, args) => seq![TokenView::VarString(path)]
            + args.map_values(|a: Seq<char>| TokenView::VarString(a)),
    }
}

/// The symbol that spells a redirection.
pub open spec fn redirection_symbol(op: CommandOp) -> TokenView {
    match op {
        CommandOp::RedirectIn => TokenView::Symbol(seq!['<']),
        CommandOp::RedirectOut => TokenView::Symbol(seq!['>']),
    }
}

/// The symbol that spells an operator of the command line.
pub open spec fn line_op_symbol(op: CommandLineOp) -> TokenView {
    match op {
        CommandLineOp::Sequence => TokenView::Symbol(seq![';']),
        CommandLineOp::Background => TokenView::Symbol(seq!['&']),
    }
}

/// The tokens that spell a command.
pub open spec fn spell_command(command: CommandView) -> Seq<TokenView> {
    match command {
        CommandView::Plain(simple) => spell_simple(simple),
        CommandView::Redirected(simple, op, file) => spell_simple(simple).push(
            redirection_symbol(op),
        ).push(TokenView::VarString(file)),
    }
}

/// The tokens that spell a job.
pub open spec fn spell_job(job: JobView) -> Seq<TokenView>
    decreases job,
{
    match job {
        JobView::Single(command) => spell_command(command),
        JobView::Pipeline(command, rest) => spell_command(command).push(
            TokenView::Symbol(seq!['|']),
        ) + spell_job(*rest),
    }
}

/// The tokens that spell a command line.
pub open spec fn spell_line(line: CommandLineView) -> Seq<TokenView>
    decreases line,
{
    match line {
        CommandLineView::Single(job) => spell_job(job),
        CommandLineView::WithTrailingOp(job, op) => spell_job(job).push(line_op_symbol(op)),
        CommandLineView::Chain(job, op, rest) => spell_job(job).push(line_op_symbol(op))
            + spell_line(*rest),
    }
}

/// A simple command that is read spells the tokens that were read for it.
pub proof fn lemma_simple_command_spells(toks: Seq<TokenView>, pos: int)
    requires
        spec_simple_command(toks, pos) is Some,
    ensures
        ({
            let (simple, end) = spec_simple_command(toks, pos).unwrap();
            0 <= pos < end <= toks.len() && toks.subrange(pos, end) == spell_simple(simple)
        }),
{
    lemma_var_run_bound(toks, pos + 1);
    let (simple, end) = spec_simple_command(toks, pos).unwrap();
    assert(toks.subrange(pos, end) =~= spell_simple(simple));
}

/// A command that is read spells the tokens that were read for it.
pub proof fn lemma_command_spells(toks: Seq<TokenView>, pos: int)
    requires
        spec_command(toks, pos) is Some,
    ensures
        ({
            let (command, end) = spec_command(toks, pos).unwrap();
            0 <= pos < end <= toks.len() && toks.subrange(pos, end) == spell_command(command)
        }),
{
    lemma_simple_command_spells(toks, pos);
    let (simple, mid) = spec_simple_command(toks, pos).unwrap();
    let (command, end) = spec_command(toks, pos).unwrap();
    if end == mid + 2 {
        assert(toks.subrange(pos, end) =~= toks.subrange(pos, mid).push(toks[mid]).push(
            toks[mid + 1],
        ));
    }
}

/// A job that is read spells the tokens that were read for it.
pub proof fn lemma_job_spells(toks: Seq<TokenView>, pos: int)
    requires
        spec_job(toks, pos) is Some,
    ensures
        ({
            let (job, end) = spec_job(toks, pos).unwrap();
            0 <= pos < end <= toks.len() && toks.subrange(pos, end) == spell_job(job)
        }),
    decreases toks.len() - pos,
{
    lemma_command_spells(toks, pos);
    let (command, mid) = spec_command(toks, pos).unwrap();
    if symbol_at(toks, mid, '|') && spec_job(toks, mid + 1) is Some {
        lemma_job_spells(toks, mid + 1);
        let (rest, end) = spec_job(toks, mid + 1).unwrap();
        assert(toks.subrange(pos, end) =~= toks.subrange(pos, mid).push(toks[mid])
            + toks.subrange(mid + 1, end));
    }
}

/// A command line that is read spells the tokens that were read for it.
pub proof fn lemma_command_line_spells(toks: Seq<TokenView>, pos: int)
    requires
        spec_command_line(toks, pos) is Some,
    ensures
        ({
            let (line, end) = spec_command_line(toks, pos).unwrap();
            0 <= pos < end <= toks.len() && toks.subrange(pos, end) == spell_line(line)
        }),
    decreases toks.len() - pos,
{
    lemma_job_spells(toks, pos);
    let (job, mid) = spec_job(toks, pos).unwrap();
    match spec_line_op(toks, mid) {
        None => {},
        Some(op) => {
            assert(toks[mid] == line_op_symbol(op));
            if spec_command_line(toks, mid + 1) is Some {
                lemma_command_line_spells(toks, mid + 1);
                let (rest, end) = spec_command_line(toks, mid + 1).unwrap();
                assert(toks.subrange(pos, end) =~= toks.subrange(pos, mid).push(toks[mid])
                    + toks.subrange(mid + 1, end));
            } else {
                assert(toks.subrange(pos, mid + 1) =~= toks.subrange(pos, mid).push(toks[mid]));
            }
        },
    }
}

/// Nothing is dropped and nothing made up: a command line that parsing
/// gives spells exactly the tokens that were parsed.
pub proof fn lemma_parse_spells_tokens(toks: Seq<TokenView>)
    requires
        spec_parse(toks) is Ok,
        spec_parse(toks)->Ok_0 is Some,
    ensures
        spell_line(spec_parse(toks)->Ok_0.unwrap()) == toks,
{
    lemma_command_line_spells(toks, 0);
    assert(toks.subrange(0, toks.len() as int) =~= toks);
}

/// The longer alternative comes first: where an operator stands behind the
/// job and a command line can be read behind the operator, the line is a
/// chain, and the operator alone is read only where none can.
pub proof fn lemma_continuation_is_preferred(toks: Seq<TokenView>, pos: int)
    requires
        spec_job(toks, pos) is Some,
        spec_line_op(toks, spec_job(toks, pos).unwrap().1) is Some,
    ensures
        spec_command_line(toks, pos) is Some,
        spec_command_line(toks, spec_job(toks, pos).unwrap().1 + 1) is Some
            <==> spec_command_line(toks, pos).unwrap().0 is Chain,
        spec_command_line(toks, spec_job(toks, pos).unwrap().1 + 1) is None
            <==> spec_command_line(toks, pos).unwrap().0 is WithTrailingOp,
{
}

/// Whether a simple command is one that parsing can give: where it has a
/// list of arguments, the list holds one.
pub open spec fn wf_simple(simple: SimpleCmdView) -> bool {
    match simple {
        SimpleCmdView::Exe(_) => true,
        SimpleCmdView::ExeWithArgs(_, args) => args.len() > 0,
    }
}

pub open spec fn wf_command(command: CommandView) -> bool {
    match command {
        CommandView::Plain(simple) => wf_simple(simple),
        CommandView::Redirected(simple, _, _) => wf_simple(simple),
    }
}

pub open spec fn wf_job(job: JobView) -> bool
    decreases job,
{
    match job {
        JobView::Single(command) => wf_command(command),
        JobView::Pipeline(command, rest) => wf_command(command) && wf_job(*rest),
    }
}

pub open spec fn wf_line(line: CommandLineView) -> bool
    decreases line,
{
    match line {
        CommandLineView::Single(job) => wf_job(job),
        CommandLineView::WithTrailingOp(job, _) => wf_job(job),
        CommandLineView::Chain(job, _, rest) => wf_job(job) && wf_line(*rest),
    }
}

/// What parsing reads is well formed: a list of arguments is never empty.
pub proof fn lemma_parsed_line_is_wf(toks: Seq<TokenView>, pos: int)
    requires
        spec_command_line(toks, pos) is Some,
    ensures
        wf_line(spec_command_line(toks, pos).unwrap().0),
    decreases toks.len() - pos,
{
    lemma_job_advances(toks, pos);
    lemma_parsed_job_is_wf(toks, pos);
    let end = spec_job(toks, pos).unwrap().1;
    if spec_line_op(toks, end) is Some && spec_command_line(toks, end + 1) is Some {
        lemma_parsed_line_is_wf(toks, end + 1);
    }
}

proof fn lemma_parsed_job_is_wf(toks: Seq<TokenView>, pos: int)
    requires
        spec_job(toks, pos) is Some,
    ensures
        wf_job(spec_job(toks, pos).unwrap().0),
    decreases toks.len() - pos,
{
    lemma_command_advances(toks, pos);
    let end = spec_command(toks, pos).unwrap().1;
    if symbol_at(toks, end, '|') && spec_job(toks, end + 1) is Some {
        lemma_parsed_job_is_wf(toks, end + 1);
    }
}

/// Whether the tokens `text` stand in `toks` from `pos` on.
pub open spec fn spelled_at(toks: Seq<TokenView>, pos: int, text: Seq<TokenView>) -> bool {
    &&& 0 <= pos
    &&& pos + text.len() <= toks.len()
    &&& forall|k: int| 0 <= k < text.len() ==> toks[pos + k] == #[trigger] text[k]
}

/// Whether a job ends at `end`: the tokens end there, or `;` or `&` stands
/// there.
pub open spec fn at_job_end(toks: Seq<TokenView>, end: int) -> bool {
    end >= toks.len() || symbol_at(toks, end, ';') || symbol_at(toks, end, '&')
}

/// Whether a command ends at `end`: a job ends there, or `|` stands there.
pub open spec fn at_command_end(toks: Seq<TokenView>, end: int) -> bool {
    at_job_end(toks, end) || symbol_at(toks, end, '|')
}

proof fn lemma_var_run_exact(toks: Seq<TokenView>, from: int, n: nat)
    requires
        0 <= from,
        from + n <= toks.len(),
        forall|k: int| from <= k < from + n ==> #[trigger] toks[k] is VarString,
        from + n == toks.len() || !(toks[from + n] is VarString),
    ensures
        var_run(toks, from) == n,
    decreases n,
{
    if n > 0 {
        assert(toks[from] is VarString);
        lemma_var_run_exact(toks, from + 1, (n - 1) as nat);
    }
}

proof fn lemma_symbols_differ(a: char, b: char)
    ensures
        TokenView::Symbol(seq![a]) == TokenView::Symbol(seq![b]) ==> a == b,
{
    if TokenView::Symbol(seq![a]) == TokenView::Symbol(seq![b]) {
        assert(seq![a][0] == seq![b][0]);
    }
}

/// The tokens that spell a simple command are read as that simple command,
/// where no literal stands behind them.
pub proof fn lemma_simple_command_reads_back(toks: Seq<TokenView>, pos: int, simple: SimpleCmdView)
    requires
        wf_simple(simple),
        spelled_at(toks, pos, spell_simple(simple)),
        pos + spell_simple(simple).len() == toks.len() || !(toks[pos + spell_simple(simple).len()]
            is VarString),
    ensures
        spec_simple_command(toks, pos) == Some((simple, pos + spell_simple(simple).len())),
{
    let text = spell_simple(simple);
    assert(toks[pos + 0] == text[0]);
    match simple {
        SimpleCmdView::Exe(path) => {
            lemma_var_run_exact(toks, pos + 1, 0);
        },
        SimpleCmdView::ExeWithArgs(path, args) => {
            let n = args.len();
            assert forall|k: int| pos + 1 <= k < pos + 1 + n implies toks[k] == TokenView::VarString(
                args[k - pos - 1],
            ) by {
                assert(toks[pos + (k - pos)] == text[k - pos]);
            }
            lemma_var_run_exact(toks, pos + 1, n);
            assert(var_texts(toks, pos + 1, n) =~= args);
        },
    }
}

/// The tokens that spell a command are read as that command, where a
/// command ends behind them.
pub proof fn lemma_command_reads_back(toks: Seq<TokenView>, pos: int, command: CommandView)
    requires
        wf_command(command),
        spelled_at(toks, pos, spell_command(command)),
        at_command_end(toks, pos + spell_command(command).len()),
    ensures
        spec_command(toks, pos) == Some((command, pos + spell_command(command).len())),
{
    let text = spell_command(command);
    let end = pos + text.len();
    lemma_symbols_differ('|', '<');
    lemma_symbols_differ('|', '>');
    lemma_symbols_differ(';', '<');
    lemma_symbols_differ(';', '>');
    lemma_symbols_differ('&', '<');
    lemma_symbols_differ('&', '>');
    lemma_symbols_differ('<', '>');
    match command {
        CommandView::Plain(simple) => {
            lemma_simple_command_reads_back(toks, pos, simple);
        },
        CommandView::Redirected(simple, op, file) => {
            let head = spell_simple(simple);
            let mid = pos + head.len();
            assert forall|k: int| 0 <= k < head.len() implies toks[pos + k] == #[trigger] head[k] by {
                assert(toks[pos + k] == text[k]);
            }
            assert(toks[pos + head.len()] == text[head.len() as int]);
            assert(toks[pos + (head.len() + 1)] == text[(head.len() + 1) as int]);
            assert(toks[mid] == redirection_symbol(op));
            assert(toks[mid + 1] == TokenView::VarString(file));
            lemma_simple_command_reads_back(toks, pos, simple);
        },
    }
}

/// The tokens that spell a job are read as that job, where a job ends
/// behind them.
pub proof fn lemma_job_reads_back(toks: Seq<TokenView>, pos: int, job: JobView)
    requires
        wf_job(job),
        spelled_at(toks, pos, spell_job(job)),
        at_job_end(toks, pos + spell_job(job).len()),
    ensures
        spec_job(toks, pos) == Some((job, pos + spell_job(job).len())),
    decreases job,
{
    let text = spell_job(job);
    lemma_symbols_differ(';', '|');
    lemma_symbols_differ('&', '|');
    match job {
        JobView::Single(command) => {
            lemma_command_reads_back(toks, pos, command);
        },
        JobView::Pipeline(command, rest) => {
            let head = spell_command(command);
            let tail = spell_job(*rest);
            let mid = pos + head.len();
            assert forall|k: int| 0 <= k < head.len() implies toks[pos + k] == #[trigger] head[k] by {
                assert(toks[pos + k] == text[k]);
            }
            assert(toks[pos + head.len()] == text[head.len() as int]);
            assert(symbol_at(toks, mid, '|'));
            assert forall|k: int| 0 <= k < tail.len() implies toks[mid + 1 + k] == #[trigger] tail[k] by {
                assert(toks[pos + (head.len() + 1 + k)] == text[head.len() + 1 + k]);
            }
            lemma_command_reads_back(toks, pos, command);
            lemma_job_reads_back(toks, mid + 1, *rest);
        },
    }
}

/// The tokens that spell a command line are read as that command line,
/// where they are the last of the tokens.
pub proof fn lemma_command_line_reads_back(toks: Seq<TokenView>, pos: int, line: CommandLineView)
    requires
        wf_line(line),
        spelled_at(toks, pos, spell_line(line)),
        pos + spell_line(line).len() == toks.len(),
    ensures
        spec_command_line(toks, pos) == Some((line, toks.len() as int)),
    decreases line,
{
    let text = spell_line(line);
    lemma_symbols_differ(';', '&');
    match line {
        CommandLineView::Single(job) => {
            lemma_job_reads_back(toks, pos, job);
        },
        CommandLineView::WithTrailingOp(job, op) => {
            let head = spell_job(job);
            let mid = pos + head.len();
            assert forall|k: int| 0 <= k < head.len() implies toks[pos + k] == #[trigger] head[k] by {
                assert(toks[pos + k] == text[k]);
            }
            assert(toks[pos + head.len()] == text[head.len() as int]);
            assert(toks[mid] == line_op_symbol(op));
            lemma_job_reads_back(toks, pos, job);
            assert(spec_line_op(toks, mid) == Some(op));
            assert(spec_command_line(toks, mid + 1) is None);
        },
        CommandLineView::Chain(job, op, rest) => {
            let head = spell_job(job);
            let tail = spell_line(*rest);
            let mid = pos + head.len();
            assert forall|k: int| 0 <= k < head.len() implies toks[pos + k] == #[trigger] head[k] by {
                assert(toks[pos + k] == text[k]);
            }
            assert(toks[pos + head.len()] == text[head.len() as int]);
            assert(toks[mid] == line_op_symbol(op));
            assert forall|k: int| 0 <= k < tail.len() implies toks[mid + 1 + k] == #[trigger] tail[k] by {
                assert(toks[pos + (head.len() + 1 + k)] == text[head.len() + 1 + k]);
            }
            lemma_job_reads_back(toks, pos, job);
            assert(spec_line_op(toks, mid) == Some(op));
            lemma_command_line_reads_back(toks, mid + 1, *rest);
        },
    }
}

/// Round trip: the tokens that spell a command line parse to that command
/// line.
pub proof fn lemma_spelled_line_parses(line: CommandLineView)
    requires
        wf_line(line),
    ensures
        spec_parse(spell_line(line)) == Ok::<Option<CommandLineView>, ParseErrorView>(Some(line)),
{
    lemma_spelling_is_not_empty(line);
    lemma_command_line_reads_back(spell_line(line), 0, line);
}

/// Every command line is spelled by at least one token.
pub proof fn lemma_spelling_is_not_empty(line: CommandLineView)
    ensures
        spell_line(line).len() > 0,
    decreases line,
{
    match line {
        CommandLineView::Single(job) => {
            lemma_job_spelling_is_not_empty(job);
        },
        CommandLineView::WithTrailingOp(job, op) => {},
        CommandLineView::Chain(job, op, rest) => {},
    }
}

proof fn lemma_job_spelling_is_not_empty(job: JobView)
    ensures
        spell_job(job).len() > 0,
    decreases job,
{
    match job {
        JobView::Single(command) => {
            match command {
                CommandView::Plain(simple) => {},
                CommandView::Redirected(simple, op, file) => {},
            }
        },
        JobView::Pipeline(command, rest) => {},
    }
}

} // verus!
