//! Field attributes: `#[reflect(ignore)]`, `#[reflect(skip_serializing)]`,
//! `#[reflect(default)]` and `#[reflect(default = "path")]`.
use vstd::prelude::*;

use crate::error::{ErrorKind, ReflectError};
use crate::tokens::{tokens_view, Token, TokenView};

verus! {

/// Whether a field takes part in reflection and in serialization.
#[derive(Clone, Copy, Debug, PartialEq, Eq, Structural)]
pub enum IgnoreBehavior {
    /// Reflected and serialized.
    Active,
    /// Reflected but not serialized.
    IgnoreSerialization,
    /// Neither reflected nor serialized.
    IgnoreAlways,
}

/// What reconstruction uses when a field is missing.
#[derive(Debug)]
pub enum DefaultBehavior {
    /// A missing field fails the reconstruction.
    Required,
    /// The field type's `Default` value.
    Default,
    /// The value of the function at this path.
    Func(String),
}

pub enum DefaultBehaviorView {
    Required,
    Default,
    Func(Seq<char>),
}

impl View for DefaultBehavior {
    type V = DefaultBehaviorView;

    open spec fn view(&self) -> DefaultBehaviorView {
        match self {
            DefaultBehavior::Required => DefaultBehaviorView::Required,
            DefaultBehavior::Default => DefaultBehaviorView::Default,
            DefaultBehavior::Func(p) => DefaultBehaviorView::Func(p@),
        }
    }
}

impl DefaultBehavior {
    pub fn duplicate(&self) -> (r: DefaultBehavior)
        ensures
            r@ == self@,
    {
        match self {
            DefaultBehavior::Required => DefaultBehavior::Required,
            DefaultBehavior::Default => DefaultBehavior::Default,
            DefaultBehavior::Func(p) => DefaultBehavior::Func(p.clone()),
        }
    }
}

/// The reflection attributes of one field.
#[derive(Debug)]
pub struct FieldAttrs {
    pub ignore: IgnoreBehavior,
    pub default: DefaultBehavior,
}

pub struct FieldAttrsView {
    pub ignore: IgnoreBehavior,
    pub default: DefaultBehaviorView,
}

impl View for FieldAttrs {
    type V = FieldAttrsView;

    open spec fn view(&self) -> FieldAttrsView {
        FieldAttrsView { ignore: self.ignore, default: self.default@ }
    }
}

/// One field attribute at `t[i]`: the updated attributes and the position
/// after it. Each of the ignore and default settings may be given once.
pub open spec fn parse_field_attr(st: FieldAttrsView, t: Seq<TokenView>, i: int) -> Result<(FieldAttrsView, int), ReflectError> {
    match t[i] {
        TokenView::Ident(n) => if n == "ignore"@ || n == "skip_serializing"@ {
            if st.ignore != IgnoreBehavior::Active {
                Err(ReflectError { kind: ErrorKind::ConflictingRegistration, span: i as usize, attribute: None })
            } else {
                let b = if n == "ignore"@ { IgnoreBehavior::IgnoreAlways } else { IgnoreBehavior::IgnoreSerialization };
                Ok((FieldAttrsView { ignore: b, ..st }, i + 1))
            }
        } else if n == "default"@ {
            if !(st.default is Required) {
                Err(ReflectError { kind: ErrorKind::ConflictingRegistration, span: i as usize, attribute: None })
            } else if i + 1 < t.len() && t[i + 1] == TokenView::Punct('=') {
                if i + 2 < t.len() && t[i + 2] is Str {
                    let p = match t[i + 2] {
                        TokenView::Str(p) => p,
                        _ => Seq::empty(),
                    };
                    Ok((FieldAttrsView { default: DefaultBehaviorView::Func(p), ..st }, i + 3))
                } else {
                    Err(ReflectError { kind: ErrorKind::ExpectedPath, span: (i + 2) as usize, attribute: None })
                }
            } else {
                Ok((FieldAttrsView { default: DefaultBehaviorView::Default, ..st }, i + 1))
            }
        } else {
            Err(ReflectError { kind: ErrorKind::UnexpectedToken, span: i as usize, attribute: None })
        },
        _ => Err(ReflectError { kind: ErrorKind::UnexpectedToken, span: i as usize, attribute: None }),
    }
}

/// The comma-separated field attributes from `t[i]` on.
pub open spec fn parse_field_list(st: FieldAttrsView, t: Seq<TokenView>, i: int) -> Result<FieldAttrsView, ReflectError>
    decreases t.len() - i,
{
    if i < 0 || i >= t.len() {
        Ok(st)
    } else {
        match parse_field_attr(st, t, i) {
            Err(e) => Err(e),
            Ok((st2, j)) => if j <= i {
                Err(ReflectError { kind: ErrorKind::UnexpectedToken, span: i as usize, attribute: None })
            } else if j >= t.len() {
                Ok(st2)
            } else if t[j] == TokenView::Punct(',') {
                parse_field_list(st2, t, j + 1)
            } else {
                Err(ReflectError { kind: ErrorKind::UnexpectedToken, span: j as usize, attribute: None })
            },
        }
    }
}

pub proof fn lemma_parse_field_attr_advances(st: FieldAttrsView, t: Seq<TokenView>, i: int)
    requires
        0 <= i < t.len(),
    ensures
        parse_field_attr(st, t, i) is Ok ==> i < parse_field_attr(st, t, i).unwrap().1 <= t.len(),
{
}

impl FieldAttrs {
    /// Reflected, serialized, required.
    pub fn new() -> (r: FieldAttrs)
        ensures
            r@.ignore == IgnoreBehavior::Active,
            r@.default == DefaultBehaviorView::Required,
    {
        FieldAttrs { ignore: IgnoreBehavior::Active, default: DefaultBehavior::Required }
    }

    /// Reads the field attribute at `t[i]` (see [`parse_field_attr`]).
    pub fn parse_field_attr(&mut self, t: &Vec<Token>, i: usize) -> (r: Result<usize, ReflectError>)
        requires
            i < t@.len(),
        ensures
            match parse_field_attr(old(self)@, tokens_view(t@), i as int) {
                Ok((s, j)) => r == Ok::<usize, ReflectError>(j as usize) && final(self)@ == s,
                Err(e) => r == Err::<usize, ReflectError>(e),
            },
    {
        let n = t.len();
        proof {
            lemma_parse_field_attr_advances(self@, tokens_view(t@), i as int);
        }
        if t[i].is_ident("ignore") || t[i].is_ident("skip_serializing") {
            if self.ignore != IgnoreBehavior::Active {
                return Err(ReflectError::new(ErrorKind::ConflictingRegistration, i));
            }
            self.ignore = if t[i].is_ident("ignore") {
                IgnoreBehavior::IgnoreAlways
            } else {
                IgnoreBehavior::IgnoreSerialization
            };
            Ok(i + 1)
        } else if t[i].is_ident("default") {
            if !matches!(self.default, DefaultBehavior::Required) {
                return Err(ReflectError::new(ErrorKind::ConflictingRegistration, i));
            }
            if i + 1 < n && t[i + 1].is_punct('=') {
                if i + 2 < n {
                    if let Token::Str(p) = &t[i + 2] {
                        self.default = DefaultBehavior::Func(p.clone());
                        return Ok(i + 3);
                    }
                }
                Err(ReflectError::new(ErrorKind::ExpectedPath, i + 2))
            } else {
                self.default = DefaultBehavior::Default;
                Ok(i + 1)
            }
        } else {
            Err(ReflectError::new(ErrorKind::UnexpectedToken, i))
        }
    }

    /// Reads a comma-separated list of field attributes into `self`.
    pub fn parse_list(&mut self, t: &Vec<Token>) -> (r: Result<(), ReflectError>)
        ensures
            match parse_field_list(old(self)@, tokens_view(t@), 0) {
                Ok(s) => r is Ok && final(self)@ == s,
                Err(e) => r == Err::<(), ReflectError>(e),
            },
    {
        let ghost v = tokens_view(t@);
        let ghost start = self@;
        let mut i: usize = 0;
        while i < t.len()
            invariant
                i <= t@.len(),
                v == tokens_view(t@),
                parse_field_list(self@, v, i as int) == parse_field_list(start, v, 0),
                start == old(self)@,
            decreases t@.len() - i,
        {
            let j = self.parse_field_attr(t, i)?;
            if j >= t.len() {
                return Ok(());
            }
            if !t[j].is_punct(',') {
                return Err(ReflectError::new(ErrorKind::UnexpectedToken, j));
            }
            i = j + 1;
        }
        Ok(())
    }
}

} // verus!
