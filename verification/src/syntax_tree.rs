//! The grammar read alternative by alternative, in the order in which it is
//! written, into a tree of tokens. Each alternative starts again from where
//! the production started, so this reading is the grammar's own; the parser
//! that shares the common prefixes is proved to read the same tokens.
//!
//! ```text
//! command-line   := job ';' command-line | job ';' | job '&' command-line | job '&' | job
//! job            := command '|' job | command
//! command        := simple-command '<' filename | simple-command '>' filename | simple-command
//! simple-command := pathname token-list
//! token-list     := token token-list | (nothing)
//! ```

use crate::parser::{
    lemma_var_run_bound, spec_command, spec_command_line, spec_job, spec_simple_command,
    symbol_at, var_run, ParseError, ParseErrorView, TokenStream,
};
use crate::token::{Token, TokenView};
use vstd::prelude::*;

verus! {

/// A node of the tree: a token, and what stands to its left and right.
#[derive(Debug)]
pub struct SyntaxTree<'a> {
    token: &'a Token,
    left: Option<Box<SyntaxTree<'a>>>,
    right: Option<Box<SyntaxTree<'a>>>,
}

/// The value of a tree.
pub struct TreeView {
    pub token: TokenView,
    pub left: Option<Box<TreeView>>,
    pub right: Option<Box<TreeView>>,
}

/// The tree of one token.
pub open spec fn leaf(token: TokenView) -> TreeView {
    TreeView { token: token, left: None, right: None }
}

/// The tree with `token` at its root.
pub open spec fn node(token: TokenView, left: Option<TreeView>, right: Option<TreeView>) -> TreeView {
    TreeView {
        token: token,
        left: match left {
            Some(t) => Some(Box::new(t)),
            None => None,
        },
        right: match right {
            Some(t) => Some(Box::new(t)),
            None => None,
        },
    }
}

/// The value of a subtree that may be missing.
pub open spec fn subtree_view(tree: Option<Box<SyntaxTree<'_>>>) -> Option<TreeView>
    decreases tree,
{
    match tree {
        Some(t) => Some((*t)@),
        None => None,
    }
}

impl<'a> View for SyntaxTree<'a> {
    type V = TreeView;

    closed spec fn view(&self) -> TreeView
        decreases self,
    {
        node(self.token@, subtree_view(self.left), subtree_view(self.right))
    }
}

impl<'a> SyntaxTree<'a> {
    pub fn new(
        token: &'a Token,
        left_node: Option<Box<SyntaxTree<'a>>>,
        right_node: Option<Box<SyntaxTree<'a>>>,
    ) -> (tree: Box<SyntaxTree<'a>>)
        ensures
            (*tree)@ == node(token@, subtree_view(left_node), subtree_view(right_node)),
    {
        Box::new(SyntaxTree { left: left_node, right: right_node, token: token })
    }

    /// The token at the root.
    pub fn token(&self) -> (token: &'a Token)
        ensures
            token@ == self@.token,
    {
        self.token
    }

    /// What stands to the left of the root.
    pub fn left(&self) -> (tree: Option<&SyntaxTree<'a>>)
        ensures
            match tree {
                Some(t) => self@.left == Some(Box::new(t@)),
                None => self@.left is None,
            },
    {
        match &self.left {
            Some(t) => Some(&**t),
            None => None,
        }
    }

    /// What stands to the right of the root.
    pub fn right(&self) -> (tree: Option<&SyntaxTree<'a>>)
        ensures
            match tree {
                Some(t) => self@.right == Some(Box::new(t@)),
                None => self@.right is None,
            },
    {
        match &self.right {
            Some(t) => Some(&**t),
            None => None,
        }
    }

    /// The tree with the one token `token` in place of what stood to the
    /// left.
    pub fn set_left(self, token: &'a Token) -> (tree: SyntaxTree<'a>)
        ensures
            tree@ == (TreeView { left: Some(Box::new(leaf(token@))), ..self@ }),
    {
        let child = SyntaxTree::new(token, None, None);
        let mut tree = self;
        tree.left = Some(child);
        tree
    }

    /// The tree with the one token `token` in place of what stood to the
    /// right.
    pub fn set_right(self, token: &'a Token) -> (tree: SyntaxTree<'a>)
        ensures
            tree@ == (TreeView { right: Some(Box::new(leaf(token@))), ..self@ }),
    {
        let child = SyntaxTree::new(token, None, None);
        let mut tree = self;
        tree.right = Some(child);
        tree
    }
}

/// Whether a token stands at `pos` and is a literal.
pub open spec fn literal_at(toks: Seq<TokenView>, pos: int) -> bool {
    0 <= pos < toks.len() && toks[pos] is VarString
}

/// The first of two alternatives that reads something.
pub open spec fn first_of(a: Option<(TreeView, int)>, b: Option<(TreeView, int)>) -> Option<
    (TreeView, int),
> {
    match a {
        Some(_) => a,
        None => b,
    }
}

/// `token-list := token token-list`: the literals that stand in a row from
/// `pos` on, each to the right of the one before it.
pub open spec fn tree_tokenlist(toks: Seq<TokenView>, pos: int) -> Option<(TreeView, int)>
    decreases toks.len() - pos,
{
    if 0 <= pos < toks.len() && toks[pos] is VarString {
        match tree_tokenlist(toks, pos + 1) {
            Some((rest, end)) => Some((node(toks[pos], None, Some(rest)), end)),
            None => Some((leaf(toks[pos]), pos + 1)),
        }
    } else {
        None
    }
}

/// `simple-command := pathname token-list`.
pub open spec fn tree_simplecmd(toks: Seq<TokenView>, pos: int) -> Option<(TreeView, int)> {
    if 0 <= pos < toks.len() && toks[pos] is VarString {
        match tree_tokenlist(toks, pos + 1) {
            Some((rest, end)) => Some((node(toks[pos], None, Some(rest)), end)),
            None => Some((leaf(toks[pos]), pos + 1)),
        }
    } else {
        None
    }
}

/// `simple-command c filename`, for the redirection symbol `c`.
pub open spec fn tree_cmd_redirected(toks: Seq<TokenView>, pos: int, c: char) -> Option<
    (TreeView, int),
> {
    match tree_simplecmd(toks, pos) {
        Some((simple, end)) => if symbol_at(toks, end, c) && end + 1 < toks.len() && toks[end
            + 1] is VarString {
            Some((node(toks[end], Some(simple), Some(leaf(toks[end + 1]))), end + 2))
        } else {
            None
        },
        None => None,
    }
}

/// `command := simple-command '<' filename | simple-command '>' filename |
/// simple-command`, the alternatives in this order.
pub open spec fn tree_cmd(toks: Seq<TokenView>, pos: int) -> Option<(TreeView, int)> {
    first_of(
        tree_cmd_redirected(toks, pos, '<'),
        first_of(tree_cmd_redirected(toks, pos, '>'), tree_simplecmd(toks, pos)),
    )
}

/// `job := command '|' job | command`, the alternatives in this order.
pub open spec fn tree_job(toks: Seq<TokenView>, pos: int) -> Option<(TreeView, int)>
    decreases toks.len() - pos, 1int,
{
    first_of(tree_job_piped(toks, pos), tree_cmd(toks, pos))
}

/// `command '|' job`.
pub open spec fn tree_job_piped(toks: Seq<TokenView>, pos: int) -> Option<(TreeView, int)>
    decreases toks.len() - pos, 0int,
{
    match tree_cmd(toks, pos) {
        Some((command, end)) => if symbol_at(toks, end, '|') {
            proof {
                lemma_cmd_agrees(toks, pos);
            }
            match tree_job(toks, end + 1) {
                Some((job, job_end)) => Some((node(toks[end], Some(command), Some(job)), job_end)),
                None => None,
            }
        } else {
            None
        },
        None => None,
    }
}

/// `command-line := job ';' command-line | job ';' | job '&' command-line |
/// job '&' | job`, the alternatives in this order.
pub open spec fn tree_cmdline(toks: Seq<TokenView>, pos: int) -> Option<(TreeView, int)>
    decreases toks.len() - pos, 1int,
{
    first_of(
        tree_cmdline_chained(toks, pos, ';'),
        first_of(
            tree_cmdline_ended(toks, pos, ';'),
            first_of(
                tree_cmdline_chained(toks, pos, '&'),
                first_of(tree_cmdline_ended(toks, pos, '&'), tree_job(toks, pos)),
            ),
        ),
    )
}

/// `job c command-line`, for the operator `c`.
pub open spec fn tree_cmdline_chained(toks: Seq<TokenView>, pos: int, c: char) -> Option<
    (TreeView, int),
>
    decreases toks.len() - pos, 0int,
{
    match tree_job(toks, pos) {
        Some((job, end)) => if symbol_at(toks, end, c) {
            proof {
                lemma_job_agrees(toks, pos);
                crate::parser::lemma_job_advances(toks, pos);
            }
            match tree_cmdline(toks, end + 1) {
                Some((rest, rest_end)) => Some((node(toks[end], Some(job), Some(rest)), rest_end)),
                None => None,
            }
        } else {
            None
        },
        None => None,
    }
}

/// `job c`, for the operator `c`.
pub open spec fn tree_cmdline_ended(toks: Seq<TokenView>, pos: int, c: char) -> Option<
    (TreeView, int),
> {
    match tree_job(toks, pos) {
        Some((job, end)) => if symbol_at(toks, end, c) {
            Some((node(toks[end], Some(job), None), end + 1))
        } else {
            None
        },
        None => None,
    }
}

/// Whether two readings read the same tokens: both read nothing, or both
/// end at the same place.
pub open spec fn same_extent<T>(tree: Option<(TreeView, int)>, other: Option<(T, int)>) -> bool {
    match (tree, other) {
        (Some((_, end)), Some((_, other_end))) => end == other_end,
        (None, None) => true,
        _ => false,
    }
}

/// A token list is the run of literals at its place.
pub proof fn lemma_tokenlist_is_var_run(toks: Seq<TokenView>, pos: int)
    requires
        0 <= pos,
    ensures
        match tree_tokenlist(toks, pos) {
            Some((_, end)) => var_run(toks, pos) > 0 && end == pos + var_run(toks, pos),
            None => var_run(toks, pos) == 0,
        },
    decreases toks.len() - pos,
{
    if pos < toks.len() && toks[pos] is VarString {
        lemma_tokenlist_is_var_run(toks, pos + 1);
    }
}

/// Read alternative by alternative, a command takes the tokens that the
/// parser takes for it.
pub proof fn lemma_cmd_agrees(toks: Seq<TokenView>, pos: int)
    ensures
        same_extent(tree_simplecmd(toks, pos), spec_simple_command(toks, pos)),
        same_extent(tree_cmd(toks, pos), spec_command(toks, pos)),
        tree_cmd(toks, pos) is Some ==> 0 <= pos < tree_cmd(toks, pos).unwrap().1 <= toks.len(),
{
    if 0 <= pos < toks.len() {
        lemma_tokenlist_is_var_run(toks, pos + 1);
        lemma_var_run_bound(toks, pos + 1);
    }
}

/// Read alternative by alternative, a job takes the tokens that the parser
/// takes for it.
pub proof fn lemma_job_agrees(toks: Seq<TokenView>, pos: int)
    ensures
        same_extent(tree_job(toks, pos), spec_job(toks, pos)),
    decreases toks.len() - pos,
{
    lemma_cmd_agrees(toks, pos);
    if tree_cmd(toks, pos) is Some {
        let end = tree_cmd(toks, pos).unwrap().1;
        if symbol_at(toks, end, '|') {
            lemma_job_agrees(toks, end + 1);
        }
    }
}

/// Read alternative by alternative, in the order of the grammar, a command
/// line takes the tokens that the parser takes for it: to share the common
/// start of the alternatives changes nothing.
pub proof fn lemma_cmdline_agrees(toks: Seq<TokenView>, pos: int)
    ensures
        same_extent(tree_cmdline(toks, pos), spec_command_line(toks, pos)),
    decreases toks.len() - pos,
{
    lemma_job_agrees(toks, pos);
    crate::parser::lemma_job_advances(toks, pos);
    if tree_job(toks, pos) is Some {
        let end = tree_job(toks, pos).unwrap().1;
        if symbol_at(toks, end, ';') || symbol_at(toks, end, '&') {
            lemma_cmdline_agrees(toks, end + 1);
        }
        if symbol_at(toks, end, ';') && symbol_at(toks, end, '&') {
            assert(seq![';'][0] == seq!['&'][0]);
        }
    }
}

/// Whether `r` and the cursor's place are what reading `expected` leaves: the
/// tree and the place behind it, or no tree and the cursor where it was.
pub open spec fn reads(
    r: Option<Box<SyntaxTree<'_>>>,
    before: int,
    after: int,
    expected: Option<(TreeView, int)>,
) -> bool {
    match expected {
        Some((tree, end)) => r is Some && (*r.unwrap())@ == tree && after == end,
        None => r is None && after == before,
    }
}

/// What parsing the tokens from `pos` on leaves: the tree that was read, if
/// one was, and whether all tokens were read.
pub open spec fn tree_parse(toks: Seq<TokenView>, pos: int) -> (
    Option<TreeView>,
    Result<(), ParseErrorView>,
) {
    if pos < 0 || pos >= toks.len() {
        (None, Ok(()))
    } else {
        match tree_cmdline(toks, pos) {
            None => (None, Err(ParseErrorView::NoMatch)),
            Some((tree, end)) => if 0 <= end < toks.len() {
                (Some(tree), Err(ParseErrorView::UnexpectedToken(toks[end])))
            } else {
                (Some(tree), Ok(()))
            },
        }
    }
}

/// The parser that tries the alternatives of each production in turn, each
/// from where the production started.
pub struct Parser<'a> {
    ast: Option<Box<SyntaxTree<'a>>>,
    tok_iter: TokenStream<'a>,
}

impl<'a> Parser<'a> {
    /// The tokens that are parsed.
    pub closed spec fn spec_tokens(&self) -> Seq<TokenView> {
        self.tok_iter.spec_tokens()
    }

    /// The number of tokens read.
    pub closed spec fn spec_pos(&self) -> int {
        self.tok_iter.spec_pos()
    }

    /// The tree that the last parse has read.
    pub closed spec fn spec_ast(&self) -> Option<TreeView> {
        subtree_view(self.ast)
    }

    pub fn new(toker_iter: TokenStream<'a>) -> (parser: Parser<'a>)
        ensures
            parser.spec_tokens() == toker_iter.spec_tokens(),
            parser.spec_pos() == toker_iter.spec_pos(),
            parser.spec_ast() is None,
    {
        Parser { ast: None, tok_iter: toker_iter }
    }

    /// The tree that the last parse has read.
    pub fn ast(&self) -> (tree: Option<&SyntaxTree<'a>>)
        ensures
            match tree {
                Some(t) => self.spec_ast() == Some(t@),
                None => self.spec_ast() is None,
            },
    {
        match &self.ast {
            Some(t) => Some(&**t),
            None => None,
        }
    }

    /// Reads a command line and keeps its tree. A token that is left
    /// unread is an error, as is a first token that starts no command.
    pub fn parse(&mut self) -> (r: Result<(), ParseError>)
        ensures
            final(self).spec_tokens() == old(self).spec_tokens(),
            final(self).spec_ast() == tree_parse(old(self).spec_tokens(), old(self).spec_pos()).0,
            match (r, tree_parse(old(self).spec_tokens(), old(self).spec_pos()).1) {
                (Ok(_), Ok(_)) => true,
                (Err(e), Err(expected)) => e@ == expected,
                _ => false,
            },
    {
        if self.tok_iter.peek().is_none() {
            self.ast = None;
            return Ok(());
        }
        proof {
            lemma_cmdline_agrees(self.spec_tokens(), self.spec_pos());
            if spec_command_line(self.spec_tokens(), self.spec_pos()) is Some {
                crate::parser::lemma_command_line_spells(self.spec_tokens(), self.spec_pos());
            }
        }
        self.ast = self.test_cmdline();
        if self.ast.is_none() {
            return Err(ParseError::NoMatch);
        }
        match self.tok_iter.peek() {
            Some(tok) => Err(ParseError::UnexpectedToken(tok.clone())),
            None => Ok(()),
        }
    }

    /// Reads a symbol `c`. The cursor stays where another token or none
    /// stands next.
    fn test_symbol(&mut self, c: char) -> (r: Option<&'a Token>)
        ensures
            final(self).spec_tokens() == old(self).spec_tokens(),
            final(self).spec_ast() == old(self).spec_ast(),
            match r {
                Some(tok) => symbol_at(old(self).spec_tokens(), old(self).spec_pos(), c)
                    && tok@ == old(self).spec_tokens()[old(self).spec_pos()]
                    && final(self).spec_pos() == old(self).spec_pos() + 1,
                None => !symbol_at(old(self).spec_tokens(), old(self).spec_pos(), c)
                    && final(self).spec_pos() == old(self).spec_pos(),
            },
    {
        match self.tok_iter.peek() {
            Some(tok) => if crate::parser::is_symbol_char(tok, c) {
                self.tok_iter.next();
                Some(tok)
            } else {
                None
            },
            None => None,
        }
    }

    /// Reads a literal. The cursor stays where another token or none stands
    /// next.
    fn test_literal(&mut self) -> (r: Option<&'a Token>)
        ensures
            final(self).spec_tokens() == old(self).spec_tokens(),
            final(self).spec_ast() == old(self).spec_ast(),
            match r {
                Some(tok) => literal_at(old(self).spec_tokens(), old(self).spec_pos())
                    && tok@ == old(self).spec_tokens()[old(self).spec_pos()]
                    && final(self).spec_pos() == old(self).spec_pos() + 1,
                None => !literal_at(old(self).spec_tokens(), old(self).spec_pos())
                    && final(self).spec_pos() == old(self).spec_pos(),
            },
    {
        match self.tok_iter.peek() {
            Some(tok) => if tok.is_varstring() {
                self.tok_iter.next();
                Some(tok)
            } else {
                None
            },
            None => None,
        }
    }

    /// Tries the alternatives of the command line in order.
    pub fn test_cmdline(&mut self) -> (r: Option<Box<SyntaxTree<'a>>>)
        ensures
            final(self).spec_tokens() == old(self).spec_tokens(),
            final(self).spec_ast() == old(self).spec_ast(),
            reads(
                r,
                old(self).spec_pos(),
                final(self).spec_pos(),
                tree_cmdline(old(self).spec_tokens(), old(self).spec_pos()),
            ),
        decreases old(self).spec_tokens().len() - old(self).spec_pos(), 2int,
    {
        if let Some(tree) = self.test_cmdline_1() {
            return Some(tree);
        }
        if let Some(tree) = self.test_cmdline_2() {
            return Some(tree);
        }
        if let Some(tree) = self.test_cmdline_3() {
            return Some(tree);
        }
        if let Some(tree) = self.test_cmdline_4() {
            return Some(tree);
        }
        self.test_cmdline_5()
    }

    /// `job c command-line`.
    fn test_cmdline_chained(&mut self, c: char) -> (r: Option<Box<SyntaxTree<'a>>>)
        ensures
            final(self).spec_tokens() == old(self).spec_tokens(),
            final(self).spec_ast() == old(self).spec_ast(),
            reads(
                r,
                old(self).spec_pos(),
                final(self).spec_pos(),
                tree_cmdline_chained(old(self).spec_tokens(), old(self).spec_pos(), c),
            ),
        decreases old(self).spec_tokens().len() - old(self).spec_pos(), 0int,
    {
        let start = self.tok_iter;
        proof {
            lemma_job_agrees(self.spec_tokens(), self.spec_pos());
            crate::parser::lemma_job_advances(self.spec_tokens(), self.spec_pos());
        }
        let job_node = match self.test_job() {
            Some(job_node) => job_node,
            None => {
                return None;
            },
        };
        let term = match self.test_symbol(c) {
            Some(term) => term,
            None => {
                self.tok_iter = start;
                return None;
            },
        };
        match self.test_cmdline() {
            Some(cmd_line_node) => Some(SyntaxTree::new(term, Some(job_node), Some(cmd_line_node))),
            None => {
                self.tok_iter = start;
                None
            },
        }
    }

    /// `job c`.
    fn test_cmdline_ended(&mut self, c: char) -> (r: Option<Box<SyntaxTree<'a>>>)
        ensures
            final(self).spec_tokens() == old(self).spec_tokens(),
            final(self).spec_ast() == old(self).spec_ast(),
            reads(
                r,
                old(self).spec_pos(),
                final(self).spec_pos(),
                tree_cmdline_ended(old(self).spec_tokens(), old(self).spec_pos(), c),
            ),
    {
        let start = self.tok_iter;
        let job_node = match self.test_job() {
            Some(job_node) => job_node,
            None => {
                return None;
            },
        };
        match self.test_symbol(c) {
            Some(term) => Some(SyntaxTree::new(term, Some(job_node), None)),
            None => {
                self.tok_iter = start;
                None
            },
        }
    }

    /// `job ';' command-line`.
    pub fn test_cmdline_1(&mut self) -> (r: Option<Box<SyntaxTree<'a>>>)
        ensures
            final(self).spec_tokens() == old(self).spec_tokens(),
            final(self).spec_ast() == old(self).spec_ast(),
            reads(
                r,
                old(self).spec_pos(),
                final(self).spec_pos(),
                tree_cmdline_chained(old(self).spec_tokens(), old(self).spec_pos(), ';'),
            ),
        decreases old(self).spec_tokens().len() - old(self).spec_pos(), 1int,
    {
        self.test_cmdline_chained(';')
    }

    /// `job ';'`.
    pub fn test_cmdline_2(&mut self) -> (r: Option<Box<SyntaxTree<'a>>>)
        ensures
            final(self).spec_tokens() == old(self).spec_tokens(),
            final(self).spec_ast() == old(self).spec_ast(),
            reads(
                r,
                old(self).spec_pos(),
                final(self).spec_pos(),
                tree_cmdline_ended(old(self).spec_tokens(), old(self).spec_pos(), ';'),
            ),
    {
        self.test_cmdline_ended(';')
    }

    /// `job '&' command-line`.
    pub fn test_cmdline_3(&mut self) -> (r: Option<Box<SyntaxTree<'a>>>)
        ensures
            final(self).spec_tokens() == old(self).spec_tokens(),
            final(self).spec_ast() == old(self).spec_ast(),
            reads(
                r,
                old(self).spec_pos(),
                final(self).spec_pos(),
                tree_cmdline_chained(old(self).spec_tokens(), old(self).spec_pos(), '&'),
            ),
        decreases old(self).spec_tokens().len() - old(self).spec_pos(), 1int,
    {
        self.test_cmdline_chained('&')
    }

    /// `job '&'`.
    pub fn test_cmdline_4(&mut self) -> (r: Option<Box<SyntaxTree<'a>>>)
        ensures
            final(self).spec_tokens() == old(self).spec_tokens(),
            final(self).spec_ast() == old(self).spec_ast(),
            reads(
                r,
                old(self).spec_pos(),
                final(self).spec_pos(),
                tree_cmdline_ended(old(self).spec_tokens(), old(self).spec_pos(), '&'),
            ),
    {
        self.test_cmdline_ended('&')
    }

    /// `job`.
    pub fn test_cmdline_5(&mut self) -> (r: Option<Box<SyntaxTree<'a>>>)
        ensures
            final(self).spec_tokens() == old(self).spec_tokens(),
            final(self).spec_ast() == old(self).spec_ast(),
            reads(
                r,
                old(self).spec_pos(),
                final(self).spec_pos(),
                tree_job(old(self).spec_tokens(), old(self).spec_pos()),
            ),
    {
        self.test_job()
    }

    /// Tries the alternatives of the job in order.
    pub fn test_job(&mut self) -> (r: Option<Box<SyntaxTree<'a>>>)
        ensures
            final(self).spec_tokens() == old(self).spec_tokens(),
            final(self).spec_ast() == old(self).spec_ast(),
            reads(
                r,
                old(self).spec_pos(),
                final(self).spec_pos(),
                tree_job(old(self).spec_tokens(), old(self).spec_pos()),
            ),
        decreases old(self).spec_tokens().len() - old(self).spec_pos(), 1int,
    {
        if let Some(tree) = self.test_job_1() {
            return Some(tree);
        }
        self.test_job_2()
    }

    /// `command '|' job`.
    pub fn test_job_1(&mut self) -> (r: Option<Box<SyntaxTree<'a>>>)
        ensures
            final(self).spec_tokens() == old(self).spec_tokens(),
            final(self).spec_ast() == old(self).spec_ast(),
            reads(
                r,
                old(self).spec_pos(),
                final(self).spec_pos(),
                tree_job_piped(old(self).spec_tokens(), old(self).spec_pos()),
            ),
        decreases old(self).spec_tokens().len() - old(self).spec_pos(), 0int,
    {
        let start = self.tok_iter;
        proof {
            lemma_cmd_agrees(self.spec_tokens(), self.spec_pos());
        }
        let cmd_node = match self.test_cmd() {
            Some(cmd_node) => cmd_node,
            None => {
                return None;
            },
        };
        let term = match self.test_symbol('|') {
            Some(term) => term,
            None => {
                self.tok_iter = start;
                return None;
            },
        };
        match self.test_job() {
            Some(job_node) => Some(SyntaxTree::new(term, Some(cmd_node), Some(job_node))),
            None => {
                self.tok_iter = start;
                None
            },
        }
    }

    /// `command`.
    pub fn test_job_2(&mut self) -> (r: Option<Box<SyntaxTree<'a>>>)
        ensures
            final(self).spec_tokens() == old(self).spec_tokens(),
            final(self).spec_ast() == old(self).spec_ast(),
            reads(
                r,
                old(self).spec_pos(),
                final(self).spec_pos(),
                tree_cmd(old(self).spec_tokens(), old(self).spec_pos()),
            ),
    {
        self.test_cmd()
    }

    /// Tries the alternatives of the command in order.
    pub fn test_cmd(&mut self) -> (r: Option<Box<SyntaxTree<'a>>>)
        ensures
            final(self).spec_tokens() == old(self).spec_tokens(),
            final(self).spec_ast() == old(self).spec_ast(),
            reads(
                r,
                old(self).spec_pos(),
                final(self).spec_pos(),
                tree_cmd(old(self).spec_tokens(), old(self).spec_pos()),
            ),
    {
        if let Some(tree) = self.test_cmd_1() {
            return Some(tree);
        }
        if let Some(tree) = self.test_cmd_2() {
            return Some(tree);
        }
        self.test_cmd_3()
    }

    /// `simple-command c filename`.
    fn test_cmd_redirected(&mut self, c: char) -> (r: Option<Box<SyntaxTree<'a>>>)
        ensures
            final(self).spec_tokens() == old(self).spec_tokens(),
            final(self).spec_ast() == old(self).spec_ast(),
            reads(
                r,
                old(self).spec_pos(),
                final(self).spec_pos(),
                tree_cmd_redirected(old(self).spec_tokens(), old(self).spec_pos(), c),
            ),
    {
        let start = self.tok_iter;
        let simplecmd_node = match self.test_simplecmd() {
            Some(simplecmd_node) => simplecmd_node,
            None => {
                return None;
            },
        };
        let term = match self.test_symbol(c) {
            Some(term) => term,
            None => {
                self.tok_iter = start;
                return None;
            },
        };
        match self.test_literal() {
            Some(term_filename) => Some(
                SyntaxTree::new(
                    term,
                    Some(simplecmd_node),
                    Some(SyntaxTree::new(term_filename, None, None)),
                ),
            ),
            None => {
                self.tok_iter = start;
                None
            },
        }
    }

    /// `simple-command '<' filename`.
    pub fn test_cmd_1(&mut self) -> (r: Option<Box<SyntaxTree<'a>>>)
        ensures
            final(self).spec_tokens() == old(self).spec_tokens(),
            final(self).spec_ast() == old(self).spec_ast(),
            reads(
                r,
                old(self).spec_pos(),
                final(self).spec_pos(),
                tree_cmd_redirected(old(self).spec_tokens(), old(self).spec_pos(), '<'),
            ),
    {
        self.test_cmd_redirected('<')
    }

    /// `simple-command '>' filename`.
    pub fn test_cmd_2(&mut self) -> (r: Option<Box<SyntaxTree<'a>>>)
        ensures
            final(self).spec_tokens() == old(self).spec_tokens(),
            final(self).spec_ast() == old(self).spec_ast(),
            reads(
                r,
                old(self).spec_pos(),
                final(self).spec_pos(),
                tree_cmd_redirected(old(self).spec_tokens(), old(self).spec_pos(), '>'),
            ),
    {
        self.test_cmd_redirected('>')
    }

    /// `simple-command`.
    pub fn test_cmd_3(&mut self) -> (r: Option<Box<SyntaxTree<'a>>>)
        ensures
            final(self).spec_tokens() == old(self).spec_tokens(),
            final(self).spec_ast() == old(self).spec_ast(),
            reads(
                r,
                old(self).spec_pos(),
                final(self).spec_pos(),
                tree_simplecmd(old(self).spec_tokens(), old(self).spec_pos()),
            ),
    {
        self.test_simplecmd()
    }

    /// `pathname token-list`.
    pub fn test_simplecmd(&mut self) -> (r: Option<Box<SyntaxTree<'a>>>)
        ensures
            final(self).spec_tokens() == old(self).spec_tokens(),
            final(self).spec_ast() == old(self).spec_ast(),
            reads(
                r,
                old(self).spec_pos(),
                final(self).spec_pos(),
                tree_simplecmd(old(self).spec_tokens(), old(self).spec_pos()),
            ),
    {
        match self.test_literal() {
            Some(term_pathname) => {
                let tokenlist_node = self.test_tokenlist();
                Some(SyntaxTree::new(term_pathname, None, tokenlist_node))
            },
            None => None,
        }
    }

    /// `token token-list`.
    pub fn test_tokenlist(&mut self) -> (r: Option<Box<SyntaxTree<'a>>>)
        ensures
            final(self).spec_tokens() == old(self).spec_tokens(),
            final(self).spec_ast() == old(self).spec_ast(),
            reads(
                r,
                old(self).spec_pos(),
                final(self).spec_pos(),
                tree_tokenlist(old(self).spec_tokens(), old(self).spec_pos()),
            ),
        decreases old(self).spec_tokens().len() - old(self).spec_pos(),
    {
        match self.test_literal() {
            Some(token) => {
                let tokenlist_node = self.test_tokenlist();
                Some(SyntaxTree::new(token, None, tokenlist_node))
            },
            None => None,
        }
    }
}

} // verus!
