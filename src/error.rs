use vstd::prelude::*;
use vstd::string::StringExecFns;

verus! {

/// What went wrong while reading a declaration's reflection attributes.
#[derive(Clone, Copy, Debug, PartialEq, Eq, Structural)]
pub enum ErrorKind {
    /// A special trait or a marker trait was registered twice.
    ConflictingRegistration,
    /// `from_reflect` was set to the first value, then to the second.
    FromReflectAlreadySet(bool, bool),
    /// `type_path` was set to the first value, then to the second.
    TypePathAlreadySet(bool, bool),
    /// `container_default` was given twice.
    ContainerDefaultAlreadySet,
    /// `container_default` on a type defined in the deriving crate.
    ContainerDefaultOnLocalType,
    /// `container_default` on an enum or a value type.
    ContainerDefaultOnNonStruct,
    /// A custom function on a trait other than `Debug`, `PartialEq`, `Hash`.
    CustomFunctionNotAllowed,
    /// A toggle whose value is not `true` or `false`.
    ExpectedBool,
    /// A function path was expected.
    ExpectedPath,
    /// A token that no attribute form accepts here.
    UnexpectedToken,
    /// `#[reflect(...)]` and `#[reflect_value(...)]` on one declaration.
    BothReflectModes,
    /// `#[type_path = "..."]` given twice.
    MultipleTypePaths,
    /// `#[type_path = ...]` whose value is not a string literal.
    TypePathNotString,
    /// `#[type_path = "..."]` whose string is not a path.
    InvalidTypePath,
    /// A union, which has no reflected representation.
    UnionNotSupported,
}

/// An error pinned to the position of the offending token: its position
/// in the argument list of the declaration attribute `attribute`, or, with
/// no attribute, the position of the attribute itself or of the token in
/// the one list that was read.
#[derive(Clone, Copy, Debug, PartialEq, Eq, Structural)]
pub struct ReflectError {
    pub kind: ErrorKind,
    pub span: usize,
    pub attribute: Option<usize>,
}

/// The error placed in the argument list of attribute `a`.
pub open spec fn in_attribute(e: ReflectError, a: usize) -> ReflectError {
    ReflectError { attribute: Some(a), ..e }
}

pub open spec fn bool_text(b: bool) -> Seq<char> {
    if b { "true"@ } else { "false"@ }
}

fn toggle_message(prefix: &str, a: bool, b: bool) -> (r: String)
    ensures
        r@ == prefix@ + bool_text(a) + ", cannot set it to "@ + bool_text(b),
{
    let mut r = String::from_str(prefix);
    r.append(if a { "true" } else { "false" });
    r.append(", cannot set it to ");
    r.append(if b { "true" } else { "false" });
    r
}

/// The text of each error.
pub open spec fn message_text(kind: ErrorKind) -> Seq<char> {
    match kind {
        ErrorKind::ConflictingRegistration => "conflicting type data registration"@,
        ErrorKind::FromReflectAlreadySet(a, b) => "`from_reflect` already set to "@ + bool_text(a) + ", cannot set it to "@ + bool_text(b),
        ErrorKind::TypePathAlreadySet(a, b) => "`type_path` already set to "@ + bool_text(a) + ", cannot set it to "@ + bool_text(b),
        ErrorKind::ContainerDefaultAlreadySet => "`container_default` already set"@,
        ErrorKind::ContainerDefaultOnLocalType => "`#[reflect(container_default = ...)]` is only applicable when using `impl_reflect`."@,
        ErrorKind::ContainerDefaultOnNonStruct => "`#[reflect(container_default = ...)]` is only applicable on structs."@,
        ErrorKind::CustomFunctionNotAllowed => "only [\"Debug\", \"PartialEq\", \"Hash\"] may specify custom functions"@,
        ErrorKind::ExpectedBool => "Expected a boolean value"@,
        ErrorKind::ExpectedPath => "expected a function path"@,
        ErrorKind::UnexpectedToken => "unexpected token in attribute"@,
        ErrorKind::BothReflectModes => "cannot use both `#[reflect]` and `#[reflect_value]`"@,
        ErrorKind::MultipleTypePaths => "cannot use multiple `#[type_path = \"...\"]`"@,
        ErrorKind::TypePathNotString => "`#[type_path = \"...\"]` must be a string literal"@,
        ErrorKind::InvalidTypePath => "`#[type_path = \"...\"]` must be a path"@,
        ErrorKind::UnionNotSupported => "reflection not supported for unions"@,
    }
}

impl ErrorKind {
    /// The text of the error (see [`message_text`]).
    pub fn message(&self) -> (r: String)
        ensures
            r@ == message_text(*self),
    {
        match self {
            ErrorKind::ConflictingRegistration => String::from_str("conflicting type data registration"),
            ErrorKind::FromReflectAlreadySet(a, b) => toggle_message("`from_reflect` already set to ", *a, *b),
            ErrorKind::TypePathAlreadySet(a, b) => toggle_message("`type_path` already set to ", *a, *b),
            ErrorKind::ContainerDefaultAlreadySet => String::from_str("`container_default` already set"),
            ErrorKind::ContainerDefaultOnLocalType => String::from_str(
                "`#[reflect(container_default = ...)]` is only applicable when using `impl_reflect`.",
            ),
            ErrorKind::ContainerDefaultOnNonStruct => String::from_str(
                "`#[reflect(container_default = ...)]` is only applicable on structs.",
            ),
            ErrorKind::CustomFunctionNotAllowed => String::from_str(
                "only [\"Debug\", \"PartialEq\", \"Hash\"] may specify custom functions",
            ),
            ErrorKind::ExpectedBool => String::from_str("Expected a boolean value"),
            ErrorKind::ExpectedPath => String::from_str("expected a function path"),
            ErrorKind::UnexpectedToken => String::from_str("unexpected token in attribute"),
            ErrorKind::BothReflectModes => String::from_str("cannot use both `#[reflect]` and `#[reflect_value]`"),
            ErrorKind::MultipleTypePaths => String::from_str("cannot use multiple `#[type_path = \"...\"]`"),
            ErrorKind::TypePathNotString => String::from_str("`#[type_path = \"...\"]` must be a string literal"),
            ErrorKind::InvalidTypePath => String::from_str("`#[type_path = \"...\"]` must be a path"),
            ErrorKind::UnionNotSupported => String::from_str("reflection not supported for unions"),
        }
    }
}

impl ReflectError {
    /// The text of the error.
    pub fn message(&self) -> (r: String)
        ensures
            r@ == message_text(self.kind),
    {
        self.kind.message()
    }

    pub fn new(kind: ErrorKind, span: usize) -> (r: ReflectError)
        ensures
            r.kind == kind,
            r.span == span,
            r.attribute is None,
    {
        ReflectError { kind, span, attribute: None }
    }

    /// The same error, placed in the argument list of attribute `a`.
    pub fn in_attribute(self, a: usize) -> (r: ReflectError)
        ensures
            r == in_attribute(self, a),
    {
        ReflectError { attribute: Some(a), ..self }
    }
}

} // verus!
