//! The lexer: from a line of text to the sequence of tokens that the parser
//! reads.

use crate::parser::TokenStream;
use crate::token::{Token, TokenView};
use vstd::prelude::*;
use vstd::std_specs::iter::IteratorSpec;

verus! {

/// Why a line could not be broken into tokens.
#[derive(Debug, Clone, Copy, PartialEq, Eq, Structural)]
pub enum LexError {
    /// A quote was opened and the line ended before the same quote came again.
    UnterminatedQuote,
}

/// The fixed symbols, every two-character symbol before every one-character
/// symbol.
pub open spec fn spec_symbols() -> Seq<Seq<char>> {
    seq![
        seq!['&', '&'],
        seq!['|', '|'],
        seq!['>', '>'],
        seq!['<', '<'],
        seq![';'],
        seq!['&'],
        seq!['|'],
        seq!['<'],
        seq!['>'],
        seq!['\n'],
    ]
}

/// Whether `text` is one of the fixed symbols.
pub open spec fn is_symbol_text(text: Seq<char>) -> bool {
    exists|k: int| 0 <= k < spec_symbols().len() && #[trigger] spec_symbols()[k] == text
}

/// Whether `text` stands at the start of `line`.
pub open spec fn is_prefix(text: Seq<char>, line: Seq<char>) -> bool {
    text.len() <= line.len() && line.take(text.len() as int) == text
}

/// The symbol that `line` starts with: the longest one that is a prefix of it.
pub open spec fn spec_starts_with_symbol(line: Seq<char>) -> Option<Seq<char>> {
    if line.len() >= 2 && is_symbol_text(line.take(2)) {
        Some(line.take(2))
    } else if line.len() >= 1 && is_symbol_text(line.take(1)) {
        Some(line.take(1))
    } else {
        None
    }
}

/// The characters of `line`, one element each.
pub fn chars_of(line: &str) -> (chars: Vec<char>)
    ensures
        chars@ == line@,
{
    broadcast use vstd::string::axiom_spec_iter, vstd::string::next_postcondition;

    let mut it = line.chars();
    let mut chars: Vec<char> = Vec::new();
    loop
        invariant
            chars@ + it.remaining() == line@,
            it.decrease() is Some,
        ensures
            chars@ == line@,
        decreases it.decrease()->0,
    {
        match it.next() {
            Some(c) => {
                chars.push(c);
                assert(chars@ + it.remaining() =~= line@);
            },
            None => {
                assert(chars@ =~= line@);
                break ;
            },
        }
    }
    chars
}

/// The text of an optional symbol.
pub open spec fn text_of(sym: Option<&'static str>) -> Option<Seq<char>> {
    match sym {
        Some(t) => Some(t@),
        None => None,
    }
}

/// The lengths of the symbols in the table: four of two characters, then six
/// of one.
pub proof fn lemma_symbol_lengths()
    ensures
        spec_symbols().len() == 10,
        forall|k: int| 0 <= k < 4 ==> (#[trigger] spec_symbols()[k]).len() == 2,
        forall|k: int| 4 <= k < 10 ==> (#[trigger] spec_symbols()[k]).len() == 1,
{
}

/// Longest match: whenever some symbol is a prefix of `line`, the symbol that
/// `line` starts with is a symbol, is a prefix of `line`, and is at least as
/// long as that one.
pub proof fn lemma_longest_match(line: Seq<char>, k: int)
    requires
        0 <= k < spec_symbols().len(),
        is_prefix(spec_symbols()[k], line),
    ensures
        spec_starts_with_symbol(line) is Some,
        is_symbol_text(spec_starts_with_symbol(line)->0),
        is_prefix(spec_starts_with_symbol(line)->0, line),
        spec_starts_with_symbol(line)->0.len() >= spec_symbols()[k].len(),
{
    lemma_symbol_lengths();
    if k < 4 {
        assert(line.take(2) == spec_symbols()[k]);
        assert(line.take(2).take(2) =~= line.take(2));
    } else {
        assert(line.take(1) == spec_symbols()[k]);
        if line.len() >= 2 && is_symbol_text(line.take(2)) {
            assert(line.take(2).take(2) =~= line.take(2));
        } else {
            assert(line.take(1).take(1) =~= line.take(1));
        }
    }
}

/// The first symbol of the table that is a prefix of `line` is the symbol
/// that `line` starts with.
pub proof fn lemma_first_match(line: Seq<char>, k: int)
    requires
        0 <= k < spec_symbols().len(),
        is_prefix(spec_symbols()[k], line),
        forall|j: int| 0 <= j < k ==> !is_prefix(#[trigger] spec_symbols()[j], line),
    ensures
        spec_starts_with_symbol(line) == Some(spec_symbols()[k]),
{
    lemma_symbol_lengths();
    if k < 4 {
        assert(line.take(2) == spec_symbols()[k]);
    } else {
        assert(line.take(1) == spec_symbols()[k]);
        if line.len() >= 2 && is_symbol_text(line.take(2)) {
            let j = choose|j: int| 0 <= j < spec_symbols().len() && #[trigger] spec_symbols()[j] == line.take(2);
            assert(j < 4);
            assert(is_prefix(spec_symbols()[j], line));
        }
    }
}

/// Where no symbol of the table is a prefix of `line`, `line` starts with no
/// symbol.
pub proof fn lemma_no_match(line: Seq<char>)
    requires
        forall|j: int| 0 <= j < spec_symbols().len() ==> !is_prefix(#[trigger] spec_symbols()[j], line),
    ensures
        spec_starts_with_symbol(line) is None,
{
    lemma_symbol_lengths();
    if line.len() >= 2 && is_symbol_text(line.take(2)) {
        let j = choose|j: int| 0 <= j < spec_symbols().len() && #[trigger] spec_symbols()[j] == line.take(2);
        assert(is_prefix(spec_symbols()[j], line));
    }
    if line.len() >= 1 && is_symbol_text(line.take(1)) {
        let j = choose|j: int| 0 <= j < spec_symbols().len() && #[trigger] spec_symbols()[j] == line.take(1);
        assert(is_prefix(spec_symbols()[j], line));
    }
}

/// The table of symbols, in the order in which a line is probed for them:
/// the longer ones first.
pub fn get_symbols() -> (table: [&'static str; 10])
    ensures
        forall|k: int| 0 <= k < 10 ==> (#[trigger] table@[k])@ == spec_symbols()[k],
{
    let table = ["&&", "||", ">>", "<<", ";", "&", "|", "<", ">", "\n"];
    proof {
        reveal_strlit("&&");
        reveal_strlit("||");
        reveal_strlit(">>");
        reveal_strlit("<<");
        reveal_strlit(";");
        reveal_strlit("&");
        reveal_strlit("|");
        reveal_strlit("<");
        reveal_strlit(">");
        reveal_strlit("\n");
        assert(table@[0]@ =~= spec_symbols()[0]);
        assert(table@[1]@ =~= spec_symbols()[1]);
        assert(table@[2]@ =~= spec_symbols()[2]);
        assert(table@[3]@ =~= spec_symbols()[3]);
        assert(table@[4]@ =~= spec_symbols()[4]);
        assert(table@[5]@ =~= spec_symbols()[5]);
        assert(table@[6]@ =~= spec_symbols()[6]);
        assert(table@[7]@ =~= spec_symbols()[7]);
        assert(table@[8]@ =~= spec_symbols()[8]);
        assert(table@[9]@ =~= spec_symbols()[9]);
    }
    table
}

/// Whether `text` stands in `chars` at position `from`.
fn has_prefix_at(chars: &Vec<char>, from: usize, text: &str) -> (b: bool)
    requires
        from <= chars.len(),
    ensures
        b == is_prefix(text@, chars@.skip(from as int)),
{
    let n = text.unicode_len();
    if n > chars.len() - from {
        return false;
    }
    let ghost rest = chars@.skip(from as int);
    let mut k: usize = 0;
    while k < n
        invariant
            from + n <= chars.len(),
            n == text@.len(),
            k <= n,
            rest == chars@.skip(from as int),
            forall|j: int| 0 <= j < k ==> rest[j] == text@[j],
        decreases n - k,
    {
        if chars[from + k] != text.get_char(k) {
            assert(rest.take(n as int)[k as int] != text@[k as int]);
            return false;
        }
        k = k + 1;
    }
    assert(rest.take(n as int) =~= text@);
    true
}

/// The symbol that stands in `chars` at position `from`, if any: the longest
/// one, since the table is probed in order.
fn symbol_at(chars: &Vec<char>, from: usize) -> (sym: Option<&'static str>)
    requires
        from <= chars.len(),
    ensures
        text_of(sym) == spec_starts_with_symbol(chars@.skip(from as int)),
{
    let table = get_symbols();
    let ghost rest = chars@.skip(from as int);
    proof {
        lemma_symbol_lengths();
    }
    let mut k: usize = 0;
    while k < 10
        invariant
            k <= 10,
            from <= chars.len(),
            rest == chars@.skip(from as int),
            spec_symbols().len() == 10,
            forall|j: int| 0 <= j < 10 ==> (#[trigger] table@[j])@ == spec_symbols()[j],
            forall|j: int| 0 <= j < k ==> !is_prefix(#[trigger] spec_symbols()[j], rest),
        decreases 10 - k,
    {
        let sym = table[k];
        assert(sym@ == spec_symbols()[k as int]);
        if has_prefix_at(chars, from, sym) {
            proof {
                lemma_first_match(rest, k as int);
            }
            return Some(sym);
        }
        k = k + 1;
    }
    proof {
        lemma_no_match(rest);
    }
    None
}

/// The symbol that `line` starts with, if it starts with one.
pub fn starts_with_symbol(line: &str) -> (sym: Option<&'static str>)
    ensures
        text_of(sym) == spec_starts_with_symbol(line@),
{
    let chars = chars_of(line);
    assert(chars@.skip(0) =~= chars@);
    symbol_at(&chars, 0)
}

pub open spec fn is_blank_char(c: char) -> bool {
    c == ' ' || c == '\t'
}

pub open spec fn is_quote_char(c: char) -> bool {
    c == '"' || c == '\''
}

/// The number of characters of `s` from `from` on that stand before the next
/// `q`, or before the end where no `q` follows.
pub open spec fn run_until(s: Seq<char>, q: char, from: int) -> nat
    decreases s.len() - from,
{
    if from >= s.len() || s[from] == q {
        0
    } else {
        1 + run_until(s, q, from + 1)
    }
}

/// Whether the character at `j` ends a bare literal that runs up to it: a
/// blank, a quote, an escape with a character behind it, or the start of a
/// symbol.
pub open spec fn ends_literal(s: Seq<char>, j: int) -> bool {
    ||| is_blank_char(s[j])
    ||| is_quote_char(s[j])
    ||| (s[j] == '\\' && j + 1 < s.len())
    ||| spec_starts_with_symbol(s.skip(j)) is Some
}

/// The number of characters of `s` from `from` on that stand before the next
/// one that ends a bare literal.
pub open spec fn literal_run(s: Seq<char>, from: int) -> nat
    decreases s.len() - from,
{
    if from >= s.len() || ends_literal(s, from) {
        0
    } else {
        1 + literal_run(s, from + 1)
    }
}

/// The lexeme that starts at position `i` of `s`: the token it gives, if it
/// gives one, and the position behind it.
pub open spec fn spec_lexeme(s: Seq<char>, i: int) -> Result<(Option<TokenView>, int), LexError> {
    let c = s[i];
    if c == '\\' {
        if i + 1 < s.len() {
            Ok((Some(TokenView::VarString(s.subrange(i + 1, i + 2))), i + 2))
        } else {
            Ok((None, i + 1))
        }
    } else if is_blank_char(c) {
        Ok((Some(TokenView::WhiteSpace), i + 1))
    } else if is_quote_char(c) {
        let close = i + 1 + run_until(s, c, i + 1);
        if close < s.len() {
            Ok((Some(TokenView::QuotedString(s.subrange(i + 1, close))), close + 1))
        } else {
            Err(LexError::UnterminatedQuote)
        }
    } else {
        match spec_starts_with_symbol(s.skip(i)) {
            Some(text) => Ok((Some(TokenView::Symbol(text)), i + text.len())),
            None => {
                let end = i + 1 + literal_run(s, i + 1);
                Ok((Some(TokenView::VarString(s.subrange(i, end))), end))
            },
        }
    }
}

/// The tokens so far with one more lexeme's token: a whitespace marker is
/// kept only behind a token that is not one itself.
pub open spec fn push_token(acc: Seq<TokenView>, tok: Option<TokenView>) -> Seq<TokenView> {
    match tok {
        None => acc,
        Some(TokenView::WhiteSpace) => if acc.len() > 0 && !(acc.last() is WhiteSpace) {
            acc.push(TokenView::WhiteSpace)
        } else {
            acc
        },
        Some(t) => acc.push(t),
    }
}

/// The tokens of `s` from position `i` on, behind the tokens `acc` of what
/// stands before `i`.
pub open spec fn spec_scan_from(s: Seq<char>, i: int, acc: Seq<TokenView>) -> Result<
    Seq<TokenView>,
    LexError,
>
    decreases s.len() - i,
    via scan_from_decreases
{
    if i < 0 || i >= s.len() {
        Ok(acc)
    } else {
        match spec_lexeme(s, i) {
            Err(e) => Err(e),
            Ok((tok, next)) => spec_scan_from(s, next, push_token(acc, tok)),
        }
    }
}

#[via_fn]
proof fn scan_from_decreases(s: Seq<char>, i: int, acc: Seq<TokenView>) {
    if 0 <= i < s.len() {
        lemma_lexeme_advances(s, i);
    }
}

pub proof fn lemma_run_until_bound(s: Seq<char>, q: char, from: int)
    requires
        0 <= from <= s.len(),
    ensures
        from + run_until(s, q, from) <= s.len(),
    decreases s.len() - from,
{
    if from < s.len() && s[from] != q {
        lemma_run_until_bound(s, q, from + 1);
    }
}

pub proof fn lemma_literal_run_bound(s: Seq<char>, from: int)
    requires
        0 <= from <= s.len(),
    ensures
        from + literal_run(s, from) <= s.len(),
    decreases s.len() - from,
{
    if from < s.len() && !ends_literal(s, from) {
        lemma_literal_run_bound(s, from + 1);
    }
}

/// Every lexeme holds at least one character and ends within the line.
pub proof fn lemma_lexeme_advances(s: Seq<char>, i: int)
    requires
        0 <= i < s.len(),
    ensures
        spec_lexeme(s, i) is Ok ==> i < spec_lexeme(s, i)->Ok_0.1 <= s.len(),
{
    lemma_run_until_bound(s, s[i], i + 1);
    lemma_literal_run_bound(s, i + 1);
}

/// The tokens of the line `s` as the scan gives them, whitespace markers
/// included.
pub open spec fn spec_scan(s: Seq<char>) -> Result<Seq<TokenView>, LexError> {
    spec_scan_from(s, 0, Seq::empty())
}

/// The values of a sequence of tokens.
pub open spec fn token_views(toks: Seq<Token>) -> Seq<TokenView> {
    toks.map_values(|t: Token| t@)
}

/// The position of the next `q` in `chars` at or behind `from`, or the
/// length of `chars` where there is none.
fn find_char(chars: &Vec<char>, q: char, from: usize) -> (j: usize)
    requires
        from <= chars.len(),
    ensures
        j == from + run_until(chars@, q, from as int),
        j <= chars.len(),
{
    let mut j = from;
    while j < chars.len() && chars[j] != q
        invariant
            from <= j <= chars.len(),
            from + run_until(chars@, q, from as int) == j + run_until(chars@, q, j as int),
        decreases chars.len() - j,
    {
        j = j + 1;
    }
    j
}

/// Whether the character at `j` ends a bare literal.
fn is_literal_end(chars: &Vec<char>, j: usize) -> (b: bool)
    requires
        j < chars.len(),
    ensures
        b == ends_literal(chars@, j as int),
{
    let c = chars[j];
    if c == ' ' || c == '\t' || c == '"' || c == '\'' {
        true
    } else if c == '\\' && j + 1 < chars.len() {
        true
    } else {
        symbol_at(chars, j).is_some()
    }
}

/// The position of the next character at or behind `from` that ends a bare
/// literal, or the length of `chars` where there is none.
fn literal_end(chars: &Vec<char>, from: usize) -> (j: usize)
    requires
        from <= chars.len(),
    ensures
        j == from + literal_run(chars@, from as int),
        j <= chars.len(),
{
    let mut j = from;
    while j < chars.len() && !is_literal_end(chars, j)
        invariant
            from <= j <= chars.len(),
            from + literal_run(chars@, from as int) == j + literal_run(chars@, j as int),
        decreases chars.len() - j,
    {
        j = j + 1;
    }
    j
}

/// The characters of `line` from `from` up to `to`, as a string.
fn text_between(line: &str, from: usize, to: usize) -> (text: String)
    requires
        from <= to <= line@.len(),
    ensures
        text@ == line@.subrange(from as int, to as int),
{
    String::from_str(line.substring_char(from, to))
}

/// Breaks `line` into its tokens, whitespace markers included: the first
/// pass of the lexer.
pub fn scan(line: &str) -> (r: Result<Vec<Token>, LexError>)
    ensures
        match spec_scan(line@) {
            Ok(toks) => r is Ok && token_views(r->Ok_0@) == toks,
            Err(e) => r is Err && r->Err_0 == e,
        },
{
    let chars = chars_of(line);
    let n = chars.len();
    let mut out: Vec<Token> = Vec::new();
    let mut i: usize = 0;
    assert(token_views(out@) =~= Seq::<TokenView>::empty());
    while i < n
        invariant
            chars@ == line@,
            n == chars.len(),
            i <= n,
            spec_scan(line@) == spec_scan_from(line@, i as int, token_views(out@)),
        decreases n - i,
    {
        let c = chars[i];
        let ghost acc = token_views(out@);
        let ghost start = i as int;
        if c == '\\' {
            if i + 1 < n {
                out.push(Token::VarString(text_between(line, i + 1, i + 2)));
                i = i + 2;
            } else {
                i = i + 1;
            }
        } else if c == ' ' || c == '\t' {
            let m = out.len();
            if m > 0 && !is_whitespace(&out[m - 1]) {
                out.push(Token::WhiteSpace);
            }
            i = i + 1;
        } else if c == '"' || c == '\'' {
            let close = find_char(&chars, c, i + 1);
            if close >= n {
                return Err(LexError::UnterminatedQuote);
            }
            out.push(Token::QuotedString(text_between(line, i + 1, close)));
            i = close + 1;
        } else {
            match symbol_at(&chars, i) {
                Some(sym) => {
                    let len = sym.unicode_len();
                    out.push(Token::Symbol(sym));
                    i = i + len;
                },
                None => {
                    let end = literal_end(&chars, i + 1);
                    out.push(Token::VarString(text_between(line, i, end)));
                    i = end;
                },
            }
        }
        proof {
            let lexeme = spec_lexeme(line@, start);
            assert(lexeme is Ok);
            assert(i == lexeme->Ok_0.1);
            assert(token_views(out@) =~= push_token(acc, lexeme->Ok_0.0));
        }
    }
    Ok(out)
}

fn is_whitespace(tok: &Token) -> (b: bool)
    ensures
        b == (tok@ is WhiteSpace),
{
    match tok {
        Token::WhiteSpace => true,
        _ => false,
    }
}

/// A quoted literal counts as a bare one once the scan is over.
pub open spec fn unquote(t: TokenView) -> TokenView {
    match t {
        TokenView::QuotedString(text) => TokenView::VarString(text),
        _ => t,
    }
}

/// The joined tokens so far with one more: a literal directly behind a
/// literal is appended to it.
pub open spec fn merge_push(acc: Seq<TokenView>, t: TokenView) -> Seq<TokenView> {
    if acc.len() > 0 && acc.last() is VarString && t is VarString {
        acc.drop_last().push(TokenView::VarString(acc.last()->VarString_0 + t->VarString_0))
    } else {
        acc.push(t)
    }
}

/// `toks` with every quoted literal turned into a bare one and every run of
/// adjacent literals joined into one.
pub open spec fn spec_join(toks: Seq<TokenView>) -> Seq<TokenView>
    decreases toks.len(),
{
    if toks.len() == 0 {
        Seq::empty()
    } else {
        merge_push(spec_join(toks.drop_last()), unquote(toks.last()))
    }
}

/// Whether the parser never sees `t`: a whitespace marker or a newline.
pub open spec fn is_dropped(t: TokenView) -> bool {
    t is WhiteSpace || t == TokenView::Symbol(seq!['\n'])
}

/// `toks` without the tokens that the parser never sees.
pub open spec fn spec_strip(toks: Seq<TokenView>) -> Seq<TokenView>
    decreases toks.len(),
{
    if toks.len() == 0 {
        Seq::empty()
    } else if is_dropped(toks.last()) {
        spec_strip(toks.drop_last())
    } else {
        spec_strip(toks.drop_last()).push(toks.last())
    }
}

/// The second pass of the lexer: literals joined, then whitespace markers
/// and newlines dropped.
pub open spec fn spec_flatten(toks: Seq<TokenView>) -> Seq<TokenView> {
    spec_strip(spec_join(toks))
}

/// The tokens of the line `s` as the parser reads them.
pub open spec fn spec_tokenize(s: Seq<char>) -> Result<Seq<TokenView>, LexError> {
    match spec_scan(s) {
        Ok(toks) => Ok(spec_flatten(toks)),
        Err(e) => Err(e),
    }
}

/// What holds between the tokens read so far (`joined`, after joining), the
/// tokens put out, and the literal that is still open.
spec fn flatten_state(joined: Seq<TokenView>, out: Seq<TokenView>, pending: Option<String>) -> bool {
    match pending {
        Some(p) => joined.len() > 0 && joined.last() == TokenView::VarString(p@) && out
            == spec_strip(joined.drop_last()),
        None => (joined.len() == 0 || !(joined.last() is VarString)) && out == spec_strip(joined),
    }
}

fn is_newline(text: &str) -> (b: bool)
    ensures
        b == (text@ == seq!['\n']),
{
    let b = text.unicode_len() == 1 && text.get_char(0) == '\n';
    assert(b ==> text@ =~= seq!['\n']);
    b
}

/// The tokens of one line.
#[derive(Debug)]
pub struct TokenContainer {
    token_list: Vec<Token>,
}

impl View for TokenContainer {
    type V = Seq<TokenView>;

    closed spec fn view(&self) -> Seq<TokenView> {
        token_views(self.token_list@)
    }
}

impl TokenContainer {
    pub fn new(token_list: Vec<Token>) -> (container: TokenContainer)
        ensures
            container@ == token_views(token_list@),
    {
        TokenContainer { token_list }
    }

    /// A cursor before the first token.
    pub fn get_stream(&self) -> (stream: TokenStream<'_>)
        ensures
            stream.spec_tokens() == self@,
            stream.spec_pos() == 0,
    {
        TokenStream::new(&self.token_list)
    }

    /// Joins adjacent literals, quoted or bare, and drops whitespace markers
    /// and newlines.
    pub fn flatten(self) -> (flat: TokenContainer)
        ensures
            flat@ == spec_flatten(self@),
    {
        let n = self.token_list.len();
        let ghost toks = token_views(self.token_list@);
        let mut out: Vec<Token> = Vec::new();
        let mut pending: Option<String> = None;
        let mut i: usize = 0;
        assert(toks.take(0) =~= Seq::<TokenView>::empty());
        assert(token_views(out@) =~= Seq::<TokenView>::empty());
        while i < n
            invariant
                i <= n,
                n == self.token_list.len(),
                toks == token_views(self.token_list@),
                flatten_state(spec_join(toks.take(i as int)), token_views(out@), pending),
            decreases n - i,
        {
            let ghost joined = spec_join(toks.take(i as int));
            let ghost before = token_views(out@);
            proof {
                assert(toks.take(i + 1).drop_last() =~= toks.take(i as int));
                assert(toks.take(i + 1).last() == self.token_list@[i as int]@);
            }
            match &self.token_list[i] {
                Token::QuotedString(s) | Token::VarString(s) => {
                    let joined_text = match pending {
                        Some(p) => p.concat(s.as_str()),
                        None => s.clone(),
                    };
                    proof {
                        let next = spec_join(toks.take(i + 1));
                        assert(unquote(toks.take(i + 1).last()) == TokenView::VarString(s@));
                        assert(next == merge_push(joined, TokenView::VarString(s@)));
                        if joined.len() > 0 && joined.last() is VarString {
                            assert(pending is Some);
                            assert(next.drop_last() =~= joined.drop_last());
                        } else {
                            assert(pending is None);
                            assert(next.drop_last() =~= joined);
                        }
                        assert(next.last() == TokenView::VarString(joined_text@));
                    }
                    pending = Some(joined_text);
                },
                Token::WhiteSpace => {
                    if let Some(p) = pending {
                        out.push(Token::VarString(p));
                        assert(token_views(out@) =~= before.push(TokenView::VarString(p@)));
                    }
                    pending = None;
                    assert(token_views(out@) == spec_strip(joined));
                    assert(spec_join(toks.take(i + 1)) == joined.push(TokenView::WhiteSpace));
                    assert(spec_join(toks.take(i + 1)).drop_last() =~= joined);
                    assert(token_views(out@) == spec_strip(spec_join(toks.take(i + 1))));
                },
                Token::Symbol(t) => {
                    if let Some(p) = pending {
                        out.push(Token::VarString(p));
                        assert(token_views(out@) =~= before.push(TokenView::VarString(p@)));
                    }
                    pending = None;
                    let ghost flushed = token_views(out@);
                    assert(flushed == spec_strip(joined));
                    assert(spec_join(toks.take(i + 1)) == joined.push(TokenView::Symbol(t@)));
                    assert(spec_join(toks.take(i + 1)).drop_last() =~= joined);
                    if !is_newline(t) {
                        out.push(Token::Symbol(t));
                        assert(token_views(out@) =~= flushed.push(TokenView::Symbol(t@)));
                    }
                    assert(token_views(out@) == spec_strip(spec_join(toks.take(i + 1))));
                },
            }
            i = i + 1;
        }
        assert(toks.take(n as int) =~= toks);
        if let Some(p) = pending {
            let ghost before = token_views(out@);
            let ghost joined = spec_join(toks);
            out.push(Token::VarString(p));
            assert(token_views(out@) =~= before.push(TokenView::VarString(p@)));
            assert(joined.drop_last().push(joined.last()) =~= joined);
        }
        TokenContainer { token_list: out }
    }
}

/// What can be broken into tokens.
pub trait Tokenizer {
    /// The characters that are broken into tokens.
    spec fn spec_line(&self) -> Seq<char>;

    /// The tokens of the line as the parser reads them, or the reason why
    /// there are none.
    fn tokenize(&self) -> (r: Result<TokenContainer, LexError>)
        ensures
            match spec_tokenize(self.spec_line()) {
                Ok(toks) => r is Ok && r->Ok_0@ == toks,
                Err(e) => r is Err && r->Err_0 == e,
            },
    ;
}

impl Tokenizer for str {
    open spec fn spec_line(&self) -> Seq<char> {
        self@
    }

    fn tokenize(&self) -> (r: Result<TokenContainer, LexError>) {
        match scan(self) {
            Ok(token_list) => Ok(TokenContainer::new(token_list).flatten()),
            Err(e) => Err(e),
        }
    }
}

/// Whether no whitespace marker stands first in `toks` or directly behind
/// another one.
pub open spec fn whitespace_collapsed(toks: Seq<TokenView>) -> bool {
    &&& toks.len() > 0 ==> !(toks[0] is WhiteSpace)
    &&& forall|k: int|
        0 <= k < toks.len() - 1 ==> !(#[trigger] toks[k] is WhiteSpace && toks[k + 1] is WhiteSpace)
}

proof fn lemma_scan_from_collapsed(s: Seq<char>, i: int, acc: Seq<TokenView>)
    requires
        whitespace_collapsed(acc),
        spec_scan_from(s, i, acc) is Ok,
    ensures
        whitespace_collapsed(spec_scan_from(s, i, acc)->Ok_0),
    decreases s.len() - i,
{
    if 0 <= i < s.len() {
        lemma_lexeme_advances(s, i);
        let lexeme = spec_lexeme(s, i)->Ok_0;
        lemma_scan_from_collapsed(s, lexeme.1, push_token(acc, lexeme.0));
    }
}

/// A run of spaces and tabs gives at most one whitespace marker in the scan:
/// no marker stands first or directly behind another.
pub proof fn lemma_scan_collapses_whitespace(s: Seq<char>)
    ensures
        spec_scan(s) is Ok ==> whitespace_collapsed(spec_scan(s)->Ok_0),
{
    if spec_scan(s) is Ok {
        lemma_scan_from_collapsed(s, 0, Seq::empty());
    }
}

proof fn lemma_join_has_no_quotes(toks: Seq<TokenView>)
    ensures
        forall|k: int| 0 <= k < spec_join(toks).len() ==> !(#[trigger] spec_join(toks)[k] is QuotedString),
    decreases toks.len(),
{
    if toks.len() > 0 {
        lemma_join_has_no_quotes(toks.drop_last());
    }
}

proof fn lemma_strip_keeps(toks: Seq<TokenView>)
    ensures
        forall|k: int|
            0 <= k < spec_strip(toks).len() ==> !is_dropped(#[trigger] spec_strip(toks)[k])
                && toks.contains(spec_strip(toks)[k]),
    decreases toks.len(),
{
    if toks.len() > 0 {
        lemma_strip_keeps(toks.drop_last());
        assert forall|k: int| 0 <= k < spec_strip(toks).len() implies toks.contains(
            #[trigger] spec_strip(toks)[k],
        ) by {
            if k < spec_strip(toks.drop_last()).len() {
                let t = spec_strip(toks.drop_last())[k];
                let j = choose|j: int| 0 <= j < toks.drop_last().len() && toks.drop_last()[j] == t;
                assert(toks[j] == t);
            } else {
                assert(toks[toks.len() - 1] == spec_strip(toks)[k]);
            }
        }
    }
}

/// What the parser reads holds no whitespace marker, no newline and no
/// quoted literal.
pub proof fn lemma_flatten_is_clean(toks: Seq<TokenView>)
    ensures
        forall|k: int|
            0 <= k < spec_flatten(toks).len() ==> {
                let t = #[trigger] spec_flatten(toks)[k];
                !(t is WhiteSpace) && !(t is QuotedString) && t != TokenView::Symbol(seq!['\n'])
            },
{
    lemma_join_has_no_quotes(toks);
    lemma_strip_keeps(spec_join(toks));
    assert forall|k: int| 0 <= k < spec_flatten(toks).len() implies !(
    #[trigger] spec_flatten(toks)[k] is QuotedString) by {
        let t = spec_flatten(toks)[k];
        assert(spec_join(toks).contains(t));
        let j = choose|j: int| 0 <= j < spec_join(toks).len() && spec_join(toks)[j] == t;
        assert(!(spec_join(toks)[j] is QuotedString));
    }
}

/// Whitespace collapse: a run of spaces and tabs, however long, counts as
/// one whitespace marker, which is kept only behind a token that is not one
/// itself.
pub proof fn lemma_blank_run(s: Seq<char>, from: int, to: int, acc: Seq<TokenView>)
    requires
        0 <= from < to <= s.len(),
        forall|k: int| from <= k < to ==> is_blank_char(#[trigger] s[k]),
    ensures
        spec_scan_from(s, from, acc) == spec_scan_from(
            s,
            to,
            push_token(acc, Some(TokenView::WhiteSpace)),
        ),
        push_token(acc, Some(TokenView::WhiteSpace)).len() <= acc.len() + 1,
    decreases to - from,
{
    let marked = push_token(acc, Some(TokenView::WhiteSpace));
    assert(is_blank_char(s[from]));
    if from + 1 < to {
        lemma_blank_run(s, from + 1, to, marked);
        assert(push_token(marked, Some(TokenView::WhiteSpace)) == marked);
    }
}

proof fn lemma_scan_from_blank(s: Seq<char>, i: int)
    requires
        0 <= i <= s.len(),
        forall|k: int| 0 <= k < s.len() ==> is_blank_char(#[trigger] s[k]),
    ensures
        spec_scan_from(s, i, Seq::empty()) == Ok::<Seq<TokenView>, LexError>(Seq::empty()),
    decreases s.len() - i,
{
    if i < s.len() {
        lemma_scan_from_blank(s, i + 1);
    }
}

/// A line of nothing but spaces and tabs gives no token at all, neither in
/// the scan nor in what the parser reads.
pub proof fn lemma_blank_line(s: Seq<char>)
    requires
        forall|k: int| 0 <= k < s.len() ==> is_blank_char(#[trigger] s[k]),
    ensures
        spec_scan(s) == Ok::<Seq<TokenView>, LexError>(Seq::empty()),
        spec_tokenize(s) == Ok::<Seq<TokenView>, LexError>(Seq::empty()),
{
    lemma_scan_from_blank(s, 0);
    assert(spec_join(Seq::empty()) =~= Seq::<TokenView>::empty());
}

/// Whether the character at `j` is one that a bare literal is made of:
/// no blank, no quote, no escape, and no symbol starts there.
pub open spec fn is_plain_at(s: Seq<char>, j: int) -> bool {
    !is_blank_char(s[j]) && !is_quote_char(s[j]) && s[j] != '\\' && spec_starts_with_symbol(
        s.skip(j),
    ) is None
}

proof fn lemma_plain_run(s: Seq<char>, from: int)
    requires
        0 <= from <= s.len(),
        forall|j: int| from <= j < s.len() ==> is_plain_at(s, j),
    ensures
        from + literal_run(s, from) == s.len(),
    decreases s.len() - from,
{
    if from < s.len() {
        assert(is_plain_at(s, from));
        lemma_plain_run(s, from + 1);
    }
}

proof fn lemma_run_to_quote(s: Seq<char>, q: char, from: int, close: int)
    requires
        0 <= from <= close < s.len(),
        s[close] == q,
        forall|j: int| from <= j < close ==> s[j] != q,
    ensures
        from + run_until(s, q, from) == close,
    decreases close - from,
{
    if from < close {
        lemma_run_to_quote(s, q, from + 1, close);
    }
}

/// A word of plain characters is one literal.
pub proof fn lemma_bare_word(word: Seq<char>)
    requires
        word.len() > 0,
        forall|j: int| 0 <= j < word.len() ==> is_plain_at(word, j),
    ensures
        spec_tokenize(word) == Ok::<Seq<TokenView>, LexError>(seq![TokenView::VarString(word)]),
{
    assert(is_plain_at(word, 0));
    lemma_plain_run(word, 1);
    assert(word.subrange(0, word.len() as int) =~= word);
    let scanned = seq![TokenView::VarString(word)];
    assert(push_token(Seq::empty(), Some(TokenView::VarString(word))) =~= scanned);
    assert(spec_scan_from(word, word.len() as int, scanned) == Ok::<Seq<TokenView>, LexError>(
        scanned,
    ));
    assert(spec_scan(word) == Ok::<Seq<TokenView>, LexError>(scanned));
    lemma_flatten_one_literal(TokenView::VarString(word));
}

/// Quotes are transparent: a text between two quotes of one kind, which
/// holds no quote of that kind, is the one literal that it would be
/// without them.
pub proof fn lemma_quoted_word(q: char, word: Seq<char>)
    requires
        is_quote_char(q),
        forall|j: int| 0 <= j < word.len() ==> word[j] != q,
    ensures
        spec_tokenize(seq![q] + word + seq![q]) == Ok::<Seq<TokenView>, LexError>(
            seq![TokenView::VarString(word)],
        ),
{
    let line = seq![q] + word + seq![q];
    let close = (word.len() + 1) as int;
    assert(line[0] == q);
    assert(line[close] == q);
    assert forall|j: int| 1 <= j < close implies line[j] != q by {
        assert(line[j] == word[j - 1]);
    }
    lemma_run_to_quote(line, q, 1, close);
    assert(line.subrange(1, close) =~= word);
    let scanned = seq![TokenView::QuotedString(word)];
    assert(push_token(Seq::empty(), Some(TokenView::QuotedString(word))) =~= scanned);
    assert(spec_scan_from(line, line.len() as int, scanned) == Ok::<Seq<TokenView>, LexError>(
        scanned,
    ));
    assert(spec_scan(line) == Ok::<Seq<TokenView>, LexError>(scanned));
    lemma_flatten_one_literal(TokenView::QuotedString(word));
}

proof fn lemma_flatten_one_literal(t: TokenView)
    requires
        t is VarString || t is QuotedString,
    ensures
        spec_flatten(seq![t]) == seq![unquote(t)],
{
    let toks = seq![t];
    assert(toks.drop_last() =~= Seq::<TokenView>::empty());
    assert(spec_join(toks.drop_last()) =~= Seq::<TokenView>::empty());
    let joined = spec_join(toks);
    assert(joined =~= seq![unquote(t)]);
    assert(joined.drop_last() =~= Seq::<TokenView>::empty());
    assert(spec_strip(joined.drop_last()) =~= Seq::<TokenView>::empty());
    assert(spec_strip(joined) =~= seq![unquote(t)]);
}

/// Literals that stand side by side, quoted or bare, are one literal to
/// the parser: their texts in a row.
pub proof fn lemma_adjacent_literals_join(a: TokenView, b: TokenView)
    requires
        a is VarString || a is QuotedString,
        b is VarString || b is QuotedString,
    ensures
        spec_flatten(seq![a, b]) == seq![
            TokenView::VarString(unquote(a)->VarString_0 + unquote(b)->VarString_0),
        ],
{
    let toks = seq![a, b];
    assert(toks.drop_last() =~= seq![a]);
    assert(seq![a].drop_last() =~= Seq::<TokenView>::empty());
    assert(spec_join(seq![a].drop_last()) =~= Seq::<TokenView>::empty());
    assert(spec_join(seq![a]) =~= seq![unquote(a)]);
    let joined = spec_join(toks);
    let text = unquote(a)->VarString_0 + unquote(b)->VarString_0;
    assert(joined =~= seq![TokenView::VarString(text)]);
    assert(joined.drop_last() =~= Seq::<TokenView>::empty());
    assert(spec_strip(joined.drop_last()) =~= Seq::<TokenView>::empty());
    assert(spec_strip(joined) =~= seq![TokenView::VarString(text)]);
}

/// Whether every symbol among `toks` is one of the fixed symbols.
pub open spec fn symbols_known(toks: Seq<TokenView>) -> bool {
    forall|k: int|
        0 <= k < toks.len() && (#[trigger] toks[k]) is Symbol ==> is_symbol_text(toks[k]->Symbol_0)
}

proof fn lemma_starting_symbol_is_known(line: Seq<char>)
    ensures
        spec_starts_with_symbol(line) is Some ==> is_symbol_text(spec_starts_with_symbol(line)->0),
{
}

proof fn lemma_scan_from_symbols(s: Seq<char>, i: int, acc: Seq<TokenView>)
    requires
        symbols_known(acc),
        spec_scan_from(s, i, acc) is Ok,
    ensures
        symbols_known(spec_scan_from(s, i, acc)->Ok_0),
    decreases s.len() - i,
{
    if 0 <= i < s.len() {
        lemma_lexeme_advances(s, i);
        lemma_starting_symbol_is_known(s.skip(i));
        let lexeme = spec_lexeme(s, i)->Ok_0;
        lemma_scan_from_symbols(s, lexeme.1, push_token(acc, lexeme.0));
    }
}

proof fn lemma_join_symbols(toks: Seq<TokenView>)
    requires
        symbols_known(toks),
    ensures
        symbols_known(spec_join(toks)),
    decreases toks.len(),
{
    if toks.len() > 0 {
        assert forall|k: int| 0 <= k < toks.drop_last().len() && (#[trigger] toks.drop_last()[k])
            is Symbol implies is_symbol_text(toks.drop_last()[k]->Symbol_0) by {
            assert(toks.drop_last()[k] == toks[k]);
        }
        lemma_join_symbols(toks.drop_last());
    }
}

/// The alphabet is closed: every symbol that the lexer gives is one of the
/// fixed symbols.
pub proof fn lemma_tokenize_symbols(s: Seq<char>)
    ensures
        spec_scan(s) is Ok ==> symbols_known(spec_scan(s)->Ok_0),
        spec_tokenize(s) is Ok ==> symbols_known(spec_tokenize(s)->Ok_0),
{
    if spec_scan(s) is Ok {
        lemma_scan_from_symbols(s, 0, Seq::empty());
        let scanned = spec_scan(s)->Ok_0;
        lemma_join_symbols(scanned);
        lemma_strip_keeps(spec_join(scanned));
        let flat = spec_flatten(scanned);
        assert forall|k: int| 0 <= k < flat.len() && (#[trigger] flat[k]) is Symbol implies is_symbol_text(
            flat[k]->Symbol_0,
        ) by {
            let j = choose|j: int| 0 <= j < spec_join(scanned).len() && spec_join(scanned)[j] == flat[k];
            assert(spec_join(scanned)[j] is Symbol);
        }
    }
}

} // verus!
