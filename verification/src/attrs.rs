use vstd::prelude::*;

verus! {

/// How a struct field takes part in the emission. A name that is `None` is left to
/// inference from the field's identifier.
#[derive(Debug, Clone)]
pub enum FieldVariant {
    /// The flag token, then the field's own emission.
    Named(Option<String>),
    /// The field's own emission and nothing else.
    Unnamed,
    /// The flag token alone, and only where the field says that it is set.
    Flag(Option<String>),
}

impl Default for FieldVariant {
    fn default() -> (mode: Self)
        ensures
            mode is Unnamed,
    {
        FieldVariant::Unnamed
    }
}

/// A field with its resolved configuration.
#[derive(Debug, Clone)]
pub struct UnclapField {
    /// The identifier as it is written in the declaration, or `None` for a field
    /// that is known by its position only.
    pub ident: Option<String>,
    pub variant: FieldVariant,
}

/// Whether an enum variant announces itself with a flag token. A name that is
/// `None` is left to inference from the variant's identifier.
#[derive(Debug, Clone)]
pub enum EnumVariant {
    /// The flag token, then the payload's emission.
    Named(Option<String>),
    /// The payload's emission and nothing else.
    Unnamed,
}

impl Default for EnumVariant {
    fn default() -> (mode: Self)
        ensures
            mode is Unnamed,
    {
        EnumVariant::Unnamed
    }
}

/// Stands in the place of a field or a variant whose configuration could not be
/// read. The diagnostics stay with whoever read it.
#[derive(Debug, Clone, Copy, PartialEq, Eq, Structural)]
pub struct Malformed;

/// The three ways in which the fields of a variant can be written.
#[derive(Debug, Clone, Copy, PartialEq, Eq, Structural)]
pub enum Style {
    /// `Name(A, B)`
    Tuple,
    /// `Name { a: A, b: B }`
    Struct,
    /// `Name`
    Unit,
}

/// The fields of an enum variant, in declaration order.
#[derive(Debug, Clone)]
pub struct Fields {
    pub style: Style,
    pub fields: Vec<Result<UnclapField, Malformed>>,
}

/// An enum variant with its resolved configuration.
#[derive(Debug, Clone)]
pub struct UnclapVariant_ {
    /// The identifier as it is written in the declaration.
    pub ident: String,
    pub fields: Fields,
    pub variant: EnumVariant,
}

/// The record shapes that a derivation may be asked for.
#[derive(Debug, Clone)]
pub enum Shape {
    /// A struct whose fields have names.
    NamedStruct(Vec<Result<UnclapField, Malformed>>),
    /// A struct whose fields are known by position.
    TupleStruct(Vec<Result<UnclapField, Malformed>>),
    /// A struct without fields.
    UnitStruct,
    /// An enum, with its variants in declaration order.
    Enum(Vec<Result<UnclapVariant_, Malformed>>),
    /// A union.
    Union,
}

} // verus!
