//! A derive input as plain values: attributes, fields and types as the
//! accessor rules read them, with the source text they are emitted from.

use vstd::prelude::*;

verus! {

/// What follows the path of an attribute or of one of its nested items.
#[derive(Clone, Debug)]
pub enum MetaValue {
    /// A bare path: `get`.
    Path,
    /// A parenthesized list: `getset(get, set)`.
    List,
    /// A name with a string literal, holding the literal's value: `get = "pub"`.
    Str(String),
    /// A name with any other value: `get = 3`.
    Other,
}

/// One attribute item: its path, written as text, and its value.
#[derive(Clone, Debug)]
pub struct Meta {
    pub path: String,
    pub value: MetaValue,
}

/// The arguments of an attribute read as a comma-separated list of items.
#[derive(Clone, Debug)]
pub enum AttrArgs {
    Metas(Vec<Meta>),
    /// The arguments do not form such a list; the text says why.
    Invalid(String),
}

/// An attribute: its item, its arguments as a list, and its source text,
/// which is emitted unchanged when the attribute is copied (doc comments).
#[derive(Clone, Debug)]
pub struct Attribute {
    pub meta: Meta,
    pub args: AttrArgs,
    pub text: String,
}

/// A generic argument of a path segment; a type argument keeps its source text.
#[derive(Clone, Debug)]
pub enum GenericArg {
    Type(String),
    Other,
}

/// The arguments of a path segment.
#[derive(Clone, Debug)]
pub enum PathArgs {
    Empty,
    AngleBracketed(Vec<GenericArg>),
    Parenthesized,
}

#[derive(Clone, Debug)]
pub struct PathSegment {
    pub ident: String,
    pub args: PathArgs,
}

/// A type written as a path; `qself` tells whether it has a qualified self
/// type (`<T as Trait>::Assoc`).
#[derive(Clone, Debug)]
pub struct TypePath {
    pub qself: bool,
    pub segments: Vec<PathSegment>,
}

/// A field's declared type: its source text and, when it is a path, the path.
#[derive(Clone, Debug)]
pub struct FieldType {
    pub text: String,
    pub path: Option<TypePath>,
}

#[derive(Clone, Debug)]
pub struct Field {
    pub attrs: Vec<Attribute>,
    pub ident: Option<String>,
    pub ty: FieldType,
}

#[derive(Clone, Debug)]
pub enum Fields {
    Named(Vec<Field>),
    Unnamed(Vec<Field>),
    Unit,
}

#[derive(Clone, Debug)]
pub enum Data {
    Struct(Fields),
    Enum,
    Union,
}

/// The item a derive is applied to. The three generics texts are the parts
/// of its generics as an impl block writes them: after `impl`, after the
/// type's name, and the where clause.
#[derive(Clone, Debug)]
pub struct DeriveInput {
    pub attrs: Vec<Attribute>,
    pub ident: String,
    pub impl_generics: String,
    pub ty_generics: String,
    pub where_clause: String,
    pub data: Data,
}

/// Why accessors cannot be generated for an input.
#[derive(PartialEq, Eq, Structural, Clone, Copy, Debug)]
pub enum GenError {
    /// A field of a structure with named fields has no name.
    UnnamedField,
    /// The arguments of a `getset` attribute are not a list of items.
    InvalidGetset,
    /// A `getset` attribute names something other than a getter, a setter or `skip`.
    UnknownAttribute,
    /// `skip` stands beside a getter or a setter in one `getset` attribute.
    SkipCombined,
    /// The visibility word does not parse as a visibility.
    InvalidVisibility,
    /// `as_ref` on a field whose type is neither `Option` nor `Result`.
    AsRefUnsupported,
    /// `as_mut` on a field whose type is neither `Option` nor `Result`.
    AsMutUnsupported,
    /// A tuple structure with other than one field.
    NotUnary,
    /// The input is an enum or a union.
    NotStruct,
    /// An attribute that is not a getter, a setter or `skip` mode.
    InvalidMode,
    /// Two attributes of one field select the same accessor.
    MutuallyExclusive,
    /// An optional accessor on a field whose type is not `Option<T>`.
    NotOption,
    /// The arguments of an `Option` are not in angle brackets.
    OptionArgs,
    /// The first argument of an `Option` is not a type.
    OptionInner,
    /// An accessor attribute that is neither a bare name nor a name with a string.
    UnexpectedParams,
}

impl Meta {
    /// A copy of this item.
    pub fn copied(&self) -> (r: Meta)
        ensures
            r == *self,
    {
        let value = match &self.value {
            MetaValue::Path => MetaValue::Path,
            MetaValue::List => MetaValue::List,
            MetaValue::Str(s) => MetaValue::Str(s.clone()),
            MetaValue::Other => MetaValue::Other,
        };
        Meta { path: self.path.clone(), value }
    }
}

/// The diagnostic for each error.
pub open spec fn error_message(e: GenError) -> Seq<char> {
    match e {
        GenError::UnnamedField => "Expected the field to have a name"@,
        GenError::InvalidGetset => "Failed to parse getset attribute"@,
        GenError::UnknownAttribute => "unknown setter or getter"@,
        GenError::SkipCombined => "use of setters and getters with skip is invalid"@,
        GenError::InvalidVisibility => "Invalid visibility found"@,
        GenError::AsRefUnsupported => "as_ref attribute is only supported on `Option` or `Result`"@,
        GenError::AsMutUnsupported => "as_mut attribute is only supported on `Option` or `Result`"@,
        GenError::NotUnary => "Only support unary struct!"@,
        GenError::NotStruct => "#[derive(Getters)] is only defined for structs, not for enums!"@,
        GenError::InvalidMode => "Not a valid getter/setter mode"@,
        GenError::MutuallyExclusive => "use of mutually exclusive GetSet attributes"@,
        GenError::NotOption => "expected Option<T> because of get_option attribute"@,
        GenError::OptionArgs => "Only one angle-bracketed param is supported"@,
        GenError::OptionInner => "Inner type T of Option<T> could not be extracted"@,
        GenError::UnexpectedParams => "Unexpected attribute parameters."@,
    }
}

impl GenError {
    /// The diagnostic for this error.
    pub fn message(&self) -> (r: &'static str)
        ensures
            r@ == error_message(*self),
    {
        match self {
            GenError::UnnamedField => "Expected the field to have a name",
            GenError::InvalidGetset => "Failed to parse getset attribute",
            GenError::UnknownAttribute => "unknown setter or getter",
            GenError::SkipCombined => "use of setters and getters with skip is invalid",
            GenError::InvalidVisibility => "Invalid visibility found",
            GenError::AsRefUnsupported => "as_ref attribute is only supported on `Option` or `Result`",
            GenError::AsMutUnsupported => "as_mut attribute is only supported on `Option` or `Result`",
            GenError::NotUnary => "Only support unary struct!",
            GenError::NotStruct => "#[derive(Getters)] is only defined for structs, not for enums!",
            GenError::InvalidMode => "Not a valid getter/setter mode",
            GenError::MutuallyExclusive => "use of mutually exclusive GetSet attributes",
            GenError::NotOption => "expected Option<T> because of get_option attribute",
            GenError::OptionArgs => "Only one angle-bracketed param is supported",
            GenError::OptionInner => "Inner type T of Option<T> could not be extracted",
            GenError::UnexpectedParams => "Unexpected attribute parameters.",
        }
    }
}

} // verus!
