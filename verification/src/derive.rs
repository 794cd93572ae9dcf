use crate::attrs::{EnumVariant, FieldVariant, Malformed, Shape, Style, UnclapField, UnclapVariant_};
use convert_case::{Case, Casing};
use vstd::prelude::*;
use vstd::string::*;

verus! {

/// The kebab-case form that the case conversion gives to a name.
pub uninterp spec fn kebab_case(name: Seq<char>) -> Seq<char>;

/// An identifier without the `r#` that marks a raw identifier.
pub open spec fn unraw_spec(ident: Seq<char>) -> Seq<char> {
    if ident.len() >= 2 && ident[0] == 'r' && ident[1] == '#' {
        ident.skip(2)
    } else {
        ident
    }
}

/// A name with two dashes before it.
pub open spec fn dashed_spec(name: Seq<char>) -> Seq<char> {
    seq!['-', '-'] + name
}

/// The flag name that an identifier stands for where none is given.
pub open spec fn inferred_flag_name(ident: Seq<char>) -> Seq<char> {
    dashed_spec(kebab_case(unraw_spec(ident)))
}

/// The name under which generated code reaches a field.
#[derive(Debug, Clone, PartialEq, Eq)]
pub enum Member<S = String> {
    Named(S),
    Unnamed(usize),
}

impl View for Member<String> {
    type V = Member<Seq<char>>;

    open spec fn view(&self) -> Member<Seq<char>> {
        match *self {
            Member::Named(name) => Member::Named(name@),
            Member::Unnamed(index) => Member::Unnamed(index),
        }
    }
}

/// Why a struct field cannot take part in the emission. The diagnostic belongs to
/// the place where the field's mode is written.
#[derive(Debug, Clone, Copy, PartialEq, Eq, Structural)]
pub enum FieldError {
    /// The field is to be named, has no identifier, and no name was given.
    NamedWithoutName,
    /// The field is to be a flag, has no identifier, and no name was given.
    FlagWithoutName,
}

/// Why an enum variant cannot take part in the emission. The diagnostic belongs to
/// the variant as a whole.
#[derive(Debug, Clone, Copy, PartialEq, Eq, Structural)]
pub enum VariantError {
    /// A tuple variant with no field, or with more than one.
    TupleArity,
    /// A variant whose fields have names.
    NamedFields,
    /// The single field of a tuple variant asks to be named or to be a flag.
    PayloadMode,
}

impl FieldError {
    /// The diagnostic in words.
    pub fn message(&self) -> (text: &'static str)
        ensures
            text@ == match *self {
                FieldError::NamedWithoutName =>
                    "Can not use #[argument(variant(named))] on an unnamed field without providing a name"@,
                FieldError::FlagWithoutName =>
                    "Can not use #[argument(variant(flag))] on an unnamed field without providing a name"@,
            },
    {
        match self {
            FieldError::NamedWithoutName =>
                "Can not use #[argument(variant(named))] on an unnamed field without providing a name",
            FieldError::FlagWithoutName =>
                "Can not use #[argument(variant(flag))] on an unnamed field without providing a name",
        }
    }
}

impl VariantError {
    /// The diagnostic in words.
    pub fn message(&self) -> (text: &'static str)
        ensures
            text@ == match *self {
                VariantError::TupleArity =>
                    "Enum variants with tuple structs must have exactly one field"@,
                VariantError::NamedFields => "Enum variants with named structs are not supported"@,
                VariantError::PayloadMode =>
                    "The field of an enum variant is appended as it is: it can be neither named nor a flag"@,
            },
    {
        match self {
            VariantError::TupleArity => "Enum variants with tuple structs must have exactly one field",
            VariantError::NamedFields => "Enum variants with named structs are not supported",
            VariantError::PayloadMode =>
                "The field of an enum variant is appended as it is: it can be neither named nor a flag",
        }
    }
}

/// What a type has to offer for its values to stand in some place of a record.
#[derive(Debug, Clone, Copy, PartialEq, Eq, Structural)]
pub enum Capability {
    /// It can append itself to a receiver.
    Argument,
    /// It can say whether it is set.
    IsArgumentFlag,
}

/// What the emission logic of a struct does for one field.
#[derive(Debug, Clone, PartialEq, Eq)]
pub enum FieldCode<S = String> {
    /// Appends the field.
    Positional { member: Member<S> },
    /// Appends the flag name, then the field.
    Named { flag_name: S, member: Member<S> },
    /// Appends the flag name where the field is set.
    Flag { flag_name: S, member: Member<S> },
    /// Stops the compilation with the diagnostic of this error.
    Rejected { error: FieldError },
    /// Stops the compilation with the diagnostics of whoever read the field's
    /// configuration.
    Malformed,
}

impl View for FieldCode<String> {
    type V = FieldCode<Seq<char>>;

    open spec fn view(&self) -> FieldCode<Seq<char>> {
        match *self {
            FieldCode::Positional { member } => FieldCode::Positional { member: member@ },
            FieldCode::Named { flag_name, member } => FieldCode::Named {
                flag_name: flag_name@,
                member: member@,
            },
            FieldCode::Flag { flag_name, member } => FieldCode::Flag {
                flag_name: flag_name@,
                member: member@,
            },
            FieldCode::Rejected { error } => FieldCode::Rejected { error },
            FieldCode::Malformed => FieldCode::Malformed,
        }
    }
}

impl<S> FieldCode<S> {
    /// What the field's type has to offer for this code to compile, or `None` for
    /// the codes that stop the compilation anyway. The assertion that says so in
    /// the generated code belongs to the place where the field's type is written.
    pub open spec fn requirement(self) -> Option<Capability> {
        match self {
            FieldCode::Positional { .. } | FieldCode::Named { .. } => Some(Capability::Argument),
            FieldCode::Flag { .. } => Some(Capability::IsArgumentFlag),
            FieldCode::Rejected { .. } | FieldCode::Malformed => None,
        }
    }
}

impl FieldCode<String> {
    /// What the field's type has to offer for this code to compile.
    pub fn capability(&self) -> (capability: Option<Capability>)
        ensures
            capability == self@.requirement(),
    {
        match self {
            FieldCode::Positional { .. } => Some(Capability::Argument),
            FieldCode::Named { .. } => Some(Capability::Argument),
            FieldCode::Flag { .. } => Some(Capability::IsArgumentFlag),
            FieldCode::Rejected { .. } => None,
            FieldCode::Malformed => None,
        }
    }
}

/// What the emission logic of an enum does for one variant. A `prelude` is the
/// flag name that is appended before anything else.
#[derive(Debug, Clone, PartialEq, Eq)]
pub enum VariantArm<S = String> {
    /// Matches the variant without fields and appends the prelude.
    Unit { name: S, prelude: Option<S> },
    /// Matches the variant with its one field, appends the prelude, then the field.
    Single { name: S, prelude: Option<S> },
    /// Matches the variant and stops the compilation with the diagnostic of this
    /// error.
    Rejected { name: S, error: VariantError },
    /// Matches the variant and stops the compilation with the diagnostics of
    /// whoever read the configuration of its field.
    MalformedPayload { name: S },
    /// Stops the compilation with the diagnostics of whoever read the variant's
    /// configuration.
    Malformed,
}

impl View for VariantArm<String> {
    type V = VariantArm<Seq<char>>;

    open spec fn view(&self) -> VariantArm<Seq<char>> {
        match *self {
            VariantArm::Unit { name, prelude } => VariantArm::Unit {
                name: name@,
                prelude: name_view(prelude),
            },
            VariantArm::Single { name, prelude } => VariantArm::Single {
                name: name@,
                prelude: name_view(prelude),
            },
            VariantArm::Rejected { name, error } => VariantArm::Rejected { name: name@, error },
            VariantArm::MalformedPayload { name } => VariantArm::MalformedPayload { name: name@ },
            VariantArm::Malformed => VariantArm::Malformed,
        }
    }
}

impl<S> VariantArm<S> {
    /// What the type of the variant's field has to offer for this arm to compile,
    /// or `None` for the arms that bind no field. The assertion that says so in
    /// the generated code belongs to the variant as a whole.
    pub open spec fn requirement(self) -> Option<Capability> {
        match self {
            VariantArm::Single { .. } => Some(Capability::Argument),
            _ => None,
        }
    }
}

impl VariantArm<String> {
    /// What the type of the variant's field has to offer for this arm to compile.
    pub fn capability(&self) -> (capability: Option<Capability>)
        ensures
            capability == self@.requirement(),
    {
        match self {
            VariantArm::Single { .. } => Some(Capability::Argument),
            _ => None,
        }
    }
}

/// The view of a name that may be missing.
pub open spec fn name_view(name: Option<String>) -> Option<Seq<char>> {
    match name {
        Some(name) => Some(name@),
        None => None,
    }
}

/// The conversion of a name to kebab-case by `convert_case`: `Casing::to_case`
/// with `Case::Kebab`. Taken on trust: the result is a function of the name alone,
/// which contracts call `kebab_case`, and the conversion gives one for every
/// string.
#[verifier::external_body]
fn to_kebab_case(name: &str) -> (kebab: String)
    ensures
        kebab@ == kebab_case(name@),
{
    name.to_case(Case::Kebab)
}

/// Strips the `r#` of a raw identifier.
pub fn unraw(ident: &str) -> (plain: &str)
    ensures
        plain@ == unraw_spec(ident@),
{
    let len = ident.unicode_len();
    if len >= 2 && ident.get_char(0) == 'r' && ident.get_char(1) == '#' {
        let plain = ident.substring_char(2, len);
        assert(plain@ =~= ident@.skip(2));
        plain
    } else {
        ident
    }
}

/// Puts two dashes before a name.
pub fn dashed(name: &str) -> (flag_name: String)
    ensures
        flag_name@ == dashed_spec(name@),
{
    let mut flag_name = String::from_str("--");
    proof {
        reveal_strlit("--");
    }
    flag_name.append(name);
    assert(flag_name@ =~= dashed_spec(name@));
    flag_name
}

/// The flag name that an identifier stands for: two dashes and the identifier in
/// kebab-case.
pub fn flag_name_from_ident(ident: &str) -> (flag_name: String)
    ensures
        flag_name@ == inferred_flag_name(ident@),
{
    let kebab = to_kebab_case(unraw(ident));
    dashed(kebab.as_str())
}

/// The flag name of a field: the one that was given, else the one that the
/// field's identifier stands for, else none.
pub open spec fn field_flag_name(field: UnclapField, user: Option<String>) -> Option<Seq<char>> {
    match user {
        Some(name) => Some(name@),
        None => match field.ident {
            Some(ident) => Some(inferred_flag_name(ident@)),
            None => None,
        },
    }
}

/// Resolves the flag name of a field. There is none where no name was given and
/// the field has no identifier to infer one from.
pub fn flag_name_for_field(field: &UnclapField, user: &Option<String>) -> (flag_name: Option<
    String,
>)
    ensures
        name_view(flag_name) == field_flag_name(*field, *user),
{
    match user {
        Some(name) => Some(name.clone()),
        None => match &field.ident {
            Some(ident) => Some(flag_name_from_ident(ident.as_str())),
            None => None,
        },
    }
}

/// The flag name of a variant: the one that was given, else the one that the
/// variant's identifier stands for.
pub open spec fn variant_flag_name(variant: UnclapVariant_, user: Option<String>) -> Seq<char> {
    match user {
        Some(name) => name@,
        None => inferred_flag_name(variant.ident@),
    }
}

/// Resolves the flag name of a variant.
pub fn flag_name_for_variant(variant: &UnclapVariant_, user: &Option<String>) -> (flag_name: String)
    ensures
        flag_name@ == variant_flag_name(*variant, *user),
{
    match user {
        Some(name) => name.clone(),
        None => flag_name_from_ident(variant.ident.as_str()),
    }
}

/// The name under which generated code reaches the field at `index`: its
/// identifier, or its position where it has none.
pub open spec fn member_of(field: UnclapField, index: usize) -> Member<Seq<char>> {
    match field.ident {
        Some(ident) => Member::Named(ident@),
        None => Member::Unnamed(index),
    }
}

/// The member name of the field at `index`.
pub fn member_name(field: &UnclapField, index: usize) -> (member: Member)
    ensures
        member@ == member_of(*field, index),
{
    match &field.ident {
        Some(ident) => Member::Named(ident.clone()),
        None => Member::Unnamed(index),
    }
}

/// The code for a struct field, by its mode. A field that is to be named or to be
/// a flag needs a flag name, and is rejected where it has none.
pub open spec fn field_code(field: UnclapField, member: Member<Seq<char>>) -> FieldCode<Seq<char>> {
    match field.variant {
        FieldVariant::Unnamed => FieldCode::Positional { member },
        FieldVariant::Named(user) => match field_flag_name(field, user) {
            Some(flag_name) => FieldCode::Named { flag_name, member },
            None => FieldCode::Rejected { error: FieldError::NamedWithoutName },
        },
        FieldVariant::Flag(user) => match field_flag_name(field, user) {
            Some(flag_name) => FieldCode::Flag { flag_name, member },
            None => FieldCode::Rejected { error: FieldError::FlagWithoutName },
        },
    }
}

/// Compiles one struct field.
pub fn wrapped_field(field: &UnclapField, field_name: Member) -> (code: FieldCode)
    ensures
        code@ == field_code(*field, field_name@),
{
    match &field.variant {
        FieldVariant::Unnamed => FieldCode::Positional { member: field_name },
        FieldVariant::Named(name) => match flag_name_for_field(field, name) {
            Some(flag_name) => FieldCode::Named { flag_name, member: field_name },
            None => FieldCode::Rejected { error: FieldError::NamedWithoutName },
        },
        FieldVariant::Flag(name) => match flag_name_for_field(field, name) {
            Some(flag_name) => FieldCode::Flag { flag_name, member: field_name },
            None => FieldCode::Rejected { error: FieldError::FlagWithoutName },
        },
    }
}

/// The code for the field at `index` of a struct.
pub open spec fn parsed_field_code(
    field: Result<UnclapField, Malformed>,
    index: usize,
) -> FieldCode<Seq<char>> {
    match field {
        Ok(field) => field_code(field, member_of(field, index)),
        Err(_) => FieldCode::Malformed,
    }
}

/// The codes for the fields of a struct: one for each field, in declaration order.
pub open spec fn field_codes(fields: Seq<Result<UnclapField, Malformed>>) -> Seq<
    FieldCode<Seq<char>>,
> {
    Seq::new(fields.len(), |i: int| parsed_field_code(fields[i], i as usize))
}

/// The views of a list of field codes, one for one.
pub open spec fn field_codes_view(codes: Seq<FieldCode>) -> Seq<FieldCode<Seq<char>>> {
    Seq::new(codes.len(), |i: int| codes[i]@)
}

/// Compiles the fields of a struct in declaration order. A field that cannot be
/// compiled does not stop the others.
pub fn append_fields(fields: &Vec<Result<UnclapField, Malformed>>) -> (codes: Vec<FieldCode>)
    ensures
        field_codes_view(codes@) == field_codes(fields@),
{
    let mut codes: Vec<FieldCode> = Vec::new();
    let mut idx: usize = 0;
    while idx < fields.len()
        invariant
            idx <= fields.len(),
            codes.len() == idx,
            forall|i: int| 0 <= i < idx ==> (#[trigger] codes[i])@ == parsed_field_code(fields[i], i as usize),
        decreases fields.len() - idx,
    {
        let code = match &fields[idx] {
            Ok(parsed_field) => {
                let member_name = member_name(parsed_field, idx);
                wrapped_field(parsed_field, member_name)
            },
            Err(_) => FieldCode::Malformed,
        };
        codes.push(code);
        idx = idx + 1;
    }
    assert(field_codes_view(codes@) =~= field_codes(fields@));
    codes
}

/// The flag name that a variant appends before its payload, if any.
pub open spec fn prelude_of(variant: UnclapVariant_) -> Option<Seq<char>> {
    match variant.variant {
        EnumVariant::Unnamed => None,
        EnumVariant::Named(user) => Some(variant_flag_name(variant, user)),
    }
}

/// Resolves what a variant appends before its payload.
pub fn variant_prelude(variant: &UnclapVariant_) -> (prelude: Option<String>)
    ensures
        name_view(prelude) == prelude_of(*variant),
{
    match &variant.variant {
        EnumVariant::Unnamed => None,
        EnumVariant::Named(name) => Some(flag_name_for_variant(variant, name)),
    }
}

/// The arm for an enum variant, by the style and number of its fields. A variant
/// without fields appends its prelude. A tuple variant with one field appends its
/// prelude and then the field; the field itself has no mode to choose. Every other
/// variant is rejected.
pub open spec fn variant_arm(variant: UnclapVariant_) -> VariantArm<Seq<char>> {
    let name = variant.ident@;
    match variant.fields.style {
        Style::Unit => VariantArm::Unit { name, prelude: prelude_of(variant) },
        Style::Tuple => if variant.fields.fields@.len() != 1 {
            VariantArm::Rejected { name, error: VariantError::TupleArity }
        } else {
            match variant.fields.fields@[0] {
                Ok(field) => if field.variant is Unnamed {
                    VariantArm::Single { name, prelude: prelude_of(variant) }
                } else {
                    VariantArm::Rejected { name, error: VariantError::PayloadMode }
                },
                Err(_) => VariantArm::MalformedPayload { name },
            }
        },
        Style::Struct => VariantArm::Rejected { name, error: VariantError::NamedFields },
    }
}

/// Compiles one enum variant.
pub fn unclap_for_variant(variant: &UnclapVariant_) -> (arm: VariantArm)
    ensures
        arm@ == variant_arm(*variant),
{
    let name = variant.ident.clone();
    match variant.fields.style {
        Style::Unit => {
            let prelude = variant_prelude(variant);
            VariantArm::Unit { name, prelude }
        },
        Style::Tuple => {
            if variant.fields.fields.len() != 1 {
                VariantArm::Rejected { name, error: VariantError::TupleArity }
            } else {
                match &variant.fields.fields[0] {
                    Ok(parsed_field) => match parsed_field.variant {
                        FieldVariant::Unnamed => {
                            let prelude = variant_prelude(variant);
                            VariantArm::Single { name, prelude }
                        },
                        _ => VariantArm::Rejected { name, error: VariantError::PayloadMode },
                    },
                    Err(_) => VariantArm::MalformedPayload { name },
                }
            }
        },
        Style::Struct => VariantArm::Rejected { name, error: VariantError::NamedFields },
    }
}

/// The arm for a variant as it was read.
pub open spec fn parsed_variant_arm(variant: Result<UnclapVariant_, Malformed>) -> VariantArm<
    Seq<char>,
> {
    match variant {
        Ok(variant) => variant_arm(variant),
        Err(_) => VariantArm::Malformed,
    }
}

/// The arms for the variants of an enum: one for each variant, in declaration
/// order.
pub open spec fn variant_arms(variants: Seq<Result<UnclapVariant_, Malformed>>) -> Seq<
    VariantArm<Seq<char>>,
> {
    Seq::new(variants.len(), |i: int| parsed_variant_arm(variants[i]))
}

/// The views of a list of arms, one for one.
pub open spec fn variant_arms_view(arms: Seq<VariantArm>) -> Seq<VariantArm<Seq<char>>> {
    Seq::new(arms.len(), |i: int| arms[i]@)
}

/// Compiles the variants of an enum in declaration order. A variant that cannot be
/// compiled does not stop the others.
pub fn append_variant_arms(variants: &Vec<Result<UnclapVariant_, Malformed>>) -> (arms: Vec<
    VariantArm,
>)
    ensures
        variant_arms_view(arms@) == variant_arms(variants@),
{
    let mut arms: Vec<VariantArm> = Vec::new();
    let mut idx: usize = 0;
    while idx < variants.len()
        invariant
            idx <= variants.len(),
            arms.len() == idx,
            forall|i: int| 0 <= i < idx ==> (#[trigger] arms[i])@ == parsed_variant_arm(variants[i]),
        decreases variants.len() - idx,
    {
        let arm = match &variants[idx] {
            Ok(parsed_var) => unclap_for_variant(parsed_var),
            Err(_) => VariantArm::Malformed,
        };
        arms.push(arm);
        idx = idx + 1;
    }
    assert(variant_arms_view(arms@) =~= variant_arms(variants@));
    arms
}

/// The emission logic that was derived for a record.
#[derive(Debug, Clone, PartialEq, Eq)]
pub enum Derived {
    /// The logic of a struct: what to do for each field, in declaration order.
    Struct { fields: Vec<FieldCode> },
    /// The logic of an enum: one arm for each variant, in declaration order.
    Enum { arms: Vec<VariantArm> },
}

/// The derivation was asked for a shape that has no emission logic: a unit struct
/// or a union.
#[derive(Debug, Clone, Copy, PartialEq, Eq, Structural)]
pub struct Unsupported;

impl Unsupported {
    /// The diagnostic in words. It belongs to the place where the derivation was
    /// asked for.
    pub fn message(&self) -> (text: &'static str)
        ensures
            text@ == "`#[derive(Argument)]` only supports non-unit structs and enums"@,
    {
        "`#[derive(Argument)]` only supports non-unit structs and enums"
    }
}

/// Derives the emission logic of a struct.
pub fn unclap_for_struct(fields: &Vec<Result<UnclapField, Malformed>>) -> (derived: Derived)
    ensures
        derived matches Derived::Struct { fields: codes } && field_codes_view(codes@)
            == field_codes(fields@),
{
    Derived::Struct { fields: append_fields(fields) }
}

/// Derives the emission logic of an enum.
pub fn unclap_for_enum(variants: &Vec<Result<UnclapVariant_, Malformed>>) -> (derived: Derived)
    ensures
        derived matches Derived::Enum { arms } && variant_arms_view(arms@) == variant_arms(
            variants@,
        ),
{
    Derived::Enum { arms: append_variant_arms(variants) }
}

/// Whether the logic is the one that belongs to the shape.
pub open spec fn derives(input: Shape, derived: Derived) -> bool {
    match input {
        Shape::NamedStruct(fields) | Shape::TupleStruct(fields) => derived matches Derived::Struct {
            fields: codes,
        } && field_codes_view(codes@) == field_codes(fields@),
        Shape::Enum(variants) => derived matches Derived::Enum { arms } && variant_arms_view(arms@)
            == variant_arms(variants@),
        Shape::UnitStruct | Shape::Union => false,
    }
}

/// Derives the emission logic of a record. Structs with fields and enums have
/// one; for every other shape the derivation is refused.
pub fn do_derive_argument(input: &Shape) -> (derived: Result<Derived, Unsupported>)
    ensures
        match derived {
            Ok(derived) => derives(*input, derived),
            Err(_) => *input is UnitStruct || *input is Union,
        },
{
    match input {
        Shape::NamedStruct(fields) => Ok(unclap_for_struct(fields)),
        Shape::TupleStruct(fields) => Ok(unclap_for_struct(fields)),
        Shape::Enum(variants) => Ok(unclap_for_enum(variants)),
        _ => Err(Unsupported),
    }
}

} // verus!
