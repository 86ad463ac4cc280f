//! The lexical alphabet: whitespace markers, fixed symbols, quoted literals
//! and bare literals, with predicates over them.

use vstd::prelude::*;

verus! {

/// The mathematical value of a token: its kind and its text.
pub enum TokenView {
    WhiteSpace,
    Symbol(Seq<char>),
    QuotedString(Seq<char>),
    VarString(Seq<char>),
}

#[derive(PartialEq, Debug)]
pub enum Token {
    /// A run of spaces and tabs.
    WhiteSpace,
    /// One of the fixed symbols, such as `;` or `&`.
    Symbol(&'static str),
    /// The text between a matching pair of quotes.
    QuotedString(String),
    /// A literal: a command, a parameter of a command, a file name.
    VarString(String),
}

impl View for Token {
    type V = TokenView;

    open spec fn view(&self) -> TokenView {
        match self {
            Token::WhiteSpace => TokenView::WhiteSpace,
            Token::Symbol(s) => TokenView::Symbol(s@),
            Token::QuotedString(s) => TokenView::QuotedString(s@),
            Token::VarString(s) => TokenView::VarString(s@),
        }
    }
}

impl Default for Token {
    fn default() -> (t: Token)
        ensures
            t@ == TokenView::WhiteSpace,
    {
        Token::WhiteSpace
    }
}

impl Clone for Token {
    fn clone(&self) -> (t: Token)
        ensures
            t@ == self@,
    {
        match self {
            Token::WhiteSpace => Token::WhiteSpace,
            Token::Symbol(s) => Token::Symbol(s),
            Token::QuotedString(s) => Token::QuotedString(s.clone()),
            Token::VarString(s) => Token::VarString(s.clone()),
        }
    }
}

impl Token {
    /// The text of a literal, and `None` for any other token.
    pub fn varstring(&self) -> (text: Option<String>)
        ensures
            match self@ {
                TokenView::VarString(s) => text.is_some() && text.unwrap()@ == s,
                _ => text.is_none(),
            },
    {
        match self {
            Token::VarString(s) => Some(s.clone()),
            _ => None,
        }
    }

    /// The text of a symbol, and `None` for any other token.
    pub fn symbol(&self) -> (text: Option<&'static str>)
        ensures
            match self@ {
                TokenView::Symbol(s) => text.is_some() && text.unwrap()@ == s,
                _ => text.is_none(),
            },
    {
        match self {
            Token::Symbol(s) => Some(s),
            _ => None,
        }
    }

    pub fn is_varstring(&self) -> (b: bool)
        ensures
            b == (self@ is VarString),
    {
        match self {
            Token::VarString(_) => true,
            _ => false,
        }
    }

    pub fn is_symbol(&self) -> (b: bool)
        ensures
            b == (self@ is Symbol),
    {
        match self {
            Token::Symbol(_) => true,
            _ => false,
        }
    }
}

} // verus!
