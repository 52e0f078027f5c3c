use vstd::prelude::*;
use vstd::string::StringExecFns;

verus! {

/// One token of an attribute's argument list.
///
/// Parentheses are flattened into `Open` and `Close` markers.
#[derive(Debug)]
pub enum Token {
    Ident(String),
    Punct(char),
    Bool(bool),
    Str(String),
    Open,
    Close,
}

/// The mathematical value of a [`Token`].
pub enum TokenView {
    Ident(Seq<char>),
    Punct(char),
    Bool(bool),
    Str(Seq<char>),
    Open,
    Close,
}

impl View for Token {
    type V = TokenView;

    open spec fn view(&self) -> TokenView {
        match self {
            Token::Ident(s) => TokenView::Ident(s@),
            Token::Punct(c) => TokenView::Punct(*c),
            Token::Bool(b) => TokenView::Bool(*b),
            Token::Str(s) => TokenView::Str(s@),
            Token::Open => TokenView::Open,
            Token::Close => TokenView::Close,
        }
    }
}

/// The views of a token list.
pub open spec fn tokens_view(t: Seq<Token>) -> Seq<TokenView> {
    t.map_values(|x: Token| x@)
}

impl Token {
    /// A copy of this token.
    pub fn duplicate(&self) -> (r: Token)
        ensures
            r@ == self@,
    {
        match self {
            Token::Ident(s) => Token::Ident(s.clone()),
            Token::Punct(c) => Token::Punct(*c),
            Token::Bool(b) => Token::Bool(*b),
            Token::Str(s) => Token::Str(s.clone()),
            Token::Open => Token::Open,
            Token::Close => Token::Close,
        }
    }

    /// Whether this token is the punctuation `c`.
    pub fn is_punct(&self, c: char) -> (r: bool)
        ensures
            r == (self@ == TokenView::Punct(c)),
    {
        match self {
            Token::Punct(d) => *d == c,
            _ => false,
        }
    }

    /// Whether this token is the identifier `name`.
    pub fn is_ident(&self, name: &str) -> (r: bool)
        ensures
            r == (self@ == TokenView::Ident(name@)),
    {
        match self {
            Token::Ident(s) => *s == String::from_str(name),
            _ => false,
        }
    }
}

/// A copy of the tokens from position `from` to the end.
pub fn copy_from(t: &Vec<Token>, from: usize) -> (r: Vec<Token>)
    requires
        from <= t@.len(),
    ensures
        tokens_view(r@) == tokens_view(t@).subrange(from as int, t@.len() as int),
{
    let mut r: Vec<Token> = Vec::new();
    let mut i: usize = from;
    while i < t.len()
        invariant
            from <= i <= t@.len(),
            r@.len() == i - from,
            forall|j: int| 0 <= j < i - from ==> (#[trigger] r@[j])@ == t@[j + from]@,
        decreases t@.len() - i,
    {
        r.push(t[i].duplicate());
        i += 1;
    }
    assert(tokens_view(r@) =~= tokens_view(t@).subrange(from as int, t@.len() as int));
    r
}

} // verus!
