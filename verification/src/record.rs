use crate::derive::{Capability, Derived, FieldCode, VariantArm};
use crate::std_impls::{lemma_flatten_step, lemma_flattened_strings};
use crate::support::{Flag, FlagArg, Named};
use crate::traits::{has_room, views_of, Argument, ArgumentReceiver};
use vstd::prelude::*;

verus! {

/// The value of one field of a record, as far as the emission logic reads it.
#[derive(Debug, Clone, PartialEq, Eq)]
pub enum FieldValue {
    /// A value that can append itself, given by the arguments that it emits.
    Args(Vec<String>),
    /// A value that can say whether it is set.
    Switch(Flag),
}

impl FieldValue {
    /// Whether the value offers the capability.
    pub open spec fn provides(self, capability: Capability) -> bool {
        match self {
            FieldValue::Args(_) => capability == Capability::Argument,
            FieldValue::Switch(_) => capability == Capability::IsArgumentFlag,
        }
    }

    /// What the value emits by itself.
    pub open spec fn emission(self) -> Seq<Seq<char>> {
        match self {
            FieldValue::Args(args) => views_of(args@),
            FieldValue::Switch(_) => Seq::empty(),
        }
    }

    /// Whether the value says that it is set.
    pub open spec fn active(self) -> bool {
        self == FieldValue::Switch(Flag::IsSet)
    }
}

/// A value of a record: what the derived logic is run on.
#[derive(Debug, Clone, PartialEq, Eq)]
pub enum Value {
    /// A struct, by its fields in declaration order.
    Struct(Vec<FieldValue>),
    /// An enum, by the position of the variant in the declaration and by what the
    /// variant's field emits, where it has one.
    Variant { index: usize, payload: Option<Vec<String>> },
}

/// What the code of a field hands to the receiver for a value of the field.
pub open spec fn field_emission(code: FieldCode<Seq<char>>, value: FieldValue) -> Seq<Seq<char>> {
    match code {
        FieldCode::Positional { .. } => value.emission(),
        FieldCode::Named { flag_name, .. } => seq![flag_name] + value.emission(),
        FieldCode::Flag { flag_name, .. } => if value.active() {
            seq![flag_name]
        } else {
            Seq::empty()
        },
        FieldCode::Rejected { .. } | FieldCode::Malformed => Seq::empty(),
    }
}

/// What each field hands to the receiver, one entry for each field in declaration
/// order.
pub open spec fn field_emissions(codes: Seq<FieldCode>, values: Seq<FieldValue>) -> Seq<
    Seq<Seq<char>>,
> {
    Seq::new(codes.len(), |i: int| field_emission(codes[i]@, values[i]))
}

/// What the logic of a struct hands to the receiver: what each field hands over,
/// one after the other in declaration order.
pub open spec fn struct_emission(codes: Seq<FieldCode>, values: Seq<FieldValue>) -> Seq<Seq<char>> {
    field_emissions(codes, values).flatten()
}

/// Whether the value of a field offers what the code of the field asks for.
pub open spec fn field_conforms(code: FieldCode<Seq<char>>, value: FieldValue) -> bool {
    code.requirement() matches Some(capability) && value.provides(capability)
}

/// Whether a struct value has a field for each code and each field offers what its
/// code asks for.
pub open spec fn struct_conforms(codes: Seq<FieldCode>, values: Seq<FieldValue>) -> bool {
    &&& codes.len() == values.len()
    &&& forall|i: int| 0 <= i < codes.len() ==> field_conforms(#[trigger] codes[i]@, values[i])
}

/// What a prelude hands to the receiver.
pub open spec fn prelude_emission(prelude: Option<Seq<char>>) -> Seq<Seq<char>> {
    match prelude {
        Some(flag_name) => seq![flag_name],
        None => Seq::empty(),
    }
}

/// What an arm hands to the receiver for a variant with this payload.
pub open spec fn arm_emission(arm: VariantArm<Seq<char>>, payload: Option<Vec<String>>) -> Seq<
    Seq<char>,
> {
    match arm {
        VariantArm::Unit { prelude, .. } => prelude_emission(prelude),
        VariantArm::Single { prelude, .. } => prelude_emission(prelude) + match payload {
            Some(args) => views_of(args@),
            None => Seq::empty(),
        },
        _ => Seq::empty(),
    }
}

/// Whether the arm compiles and the payload is there exactly where the arm binds
/// a field.
pub open spec fn arm_conforms(arm: VariantArm<Seq<char>>, payload: Option<Vec<String>>) -> bool {
    match arm {
        VariantArm::Unit { .. } => payload is None,
        VariantArm::Single { .. } => payload is Some,
        _ => false,
    }
}

/// Whether the logic can run on the value: the logic compiles, and the value has
/// the shape and the capabilities that the logic was derived for.
pub open spec fn conforms(derived: Derived, value: Value) -> bool {
    match (derived, value) {
        (Derived::Struct { fields }, Value::Struct(values)) => struct_conforms(fields@, values@),
        (Derived::Enum { arms }, Value::Variant { index, payload }) => index < arms.len()
            && arm_conforms(arms[index as int]@, payload),
        _ => false,
    }
}

/// What the logic hands to the receiver for the value.
pub open spec fn emission(derived: Derived, value: Value) -> Seq<Seq<char>> {
    match (derived, value) {
        (Derived::Struct { fields }, Value::Struct(values)) => struct_emission(fields@, values@),
        (Derived::Enum { arms }, Value::Variant { index, payload }) => arm_emission(
            arms[index as int]@,
            payload,
        ),
        _ => Seq::empty(),
    }
}

/// Runs the code of one field: appends what the field hands over.
pub fn append_field<R: ArgumentReceiver<String>>(code: &FieldCode, value: &FieldValue, recv: &mut R)
    requires
        field_conforms(code@, *value),
        has_room(old(recv), field_emission(code@, *value).len()),
    ensures
        final(recv).accepted() == old(recv).accepted() + field_emission(code@, *value),
        final(recv).limit() == old(recv).limit(),
{
    match value {
        FieldValue::Args(args) => {
            proof {
                lemma_flattened_strings(args@);
            }
            match code {
                FieldCode::Named { flag_name, .. } => {
                    Named::new(flag_name.as_str(), args).append_to(recv);
                },
                _ => {
                    args.append_to(recv);
                },
            }
        },
        FieldValue::Switch(flag) => {
            match code {
                FieldCode::Flag { flag_name, .. } => {
                    FlagArg::new(flag_name.as_str(), flag).append_to(recv);
                },
                _ => {},
            }
        },
    }
}

/// Runs the logic of a struct: appends what each field hands over, in declaration
/// order.
pub fn append_struct<R: ArgumentReceiver<String>>(
    codes: &Vec<FieldCode>,
    values: &Vec<FieldValue>,
    recv: &mut R,
)
    requires
        struct_conforms(codes@, values@),
        has_room(old(recv), struct_emission(codes@, values@).len()),
    ensures
        final(recv).accepted() == old(recv).accepted() + struct_emission(codes@, values@),
        final(recv).limit() == old(recv).limit(),
{
    let ghost parts = field_emissions(codes@, values@);
    let mut idx: usize = 0;
    assert(parts.take(0) =~= Seq::empty());
    while idx < codes.len()
        invariant
            idx <= codes.len(),
            parts == field_emissions(codes@, values@),
            struct_conforms(codes@, values@),
            recv.accepted() == old(recv).accepted() + parts.take(idx as int).flatten(),
            recv.limit() == old(recv).limit(),
            has_room(old(recv), parts.flatten().len()),
        decreases codes.len() - idx,
    {
        proof {
            lemma_flatten_step(parts, idx as int);
        }
        append_field(&codes[idx], &values[idx], recv);
        idx = idx + 1;
    }
    assert(parts.take(parts.len() as int) =~= parts);
}

/// Runs one arm of the logic of an enum: appends the prelude, then the payload.
pub fn append_variant<R: ArgumentReceiver<String>>(
    arm: &VariantArm,
    payload: &Option<Vec<String>>,
    recv: &mut R,
)
    requires
        arm_conforms(arm@, *payload),
        has_room(old(recv), arm_emission(arm@, *payload).len()),
    ensures
        final(recv).accepted() == old(recv).accepted() + arm_emission(arm@, *payload),
        final(recv).limit() == old(recv).limit(),
{
    match arm {
        VariantArm::Unit { prelude, .. } => {
            match prelude {
                Some(flag_name) => {
                    flag_name.as_str().append_to(recv);
                },
                None => {},
            }
        },
        VariantArm::Single { prelude, .. } => {
            match prelude {
                Some(flag_name) => {
                    flag_name.as_str().append_to(recv);
                },
                None => {},
            }
            match payload {
                Some(args) => {
                    proof {
                        lemma_flattened_strings(args@);
                    }
                    args.append_to(recv);
                },
                None => {},
            }
        },
        _ => {},
    }
}

/// Whether a struct value has a field for each code and each field offers what its
/// code asks for.
pub fn fields_conform(codes: &Vec<FieldCode>, values: &Vec<FieldValue>) -> (ok: bool)
    ensures
        ok == struct_conforms(codes@, values@),
{
    if codes.len() != values.len() {
        return false;
    }
    let mut idx: usize = 0;
    while idx < codes.len()
        invariant
            idx <= codes.len(),
            codes.len() == values.len(),
            forall|i: int| 0 <= i < idx ==> field_conforms(#[trigger] codes[i]@, values[i]),
        decreases codes.len() - idx,
    {
        let fitting = match (codes[idx].capability(), &values[idx]) {
            (Some(Capability::Argument), FieldValue::Args(_)) => true,
            (Some(Capability::IsArgumentFlag), FieldValue::Switch(_)) => true,
            _ => false,
        };
        if !fitting {
            assert(!field_conforms(codes@[idx as int]@, values@[idx as int]));
            return false;
        }
        idx = idx + 1;
    }
    true
}

impl Derived {
    /// Whether the logic can run on the value.
    pub fn accepts(&self, value: &Value) -> (ok: bool)
        ensures
            ok == conforms(*self, *value),
    {
        match (self, value) {
            (Derived::Struct { fields }, Value::Struct(values)) => fields_conform(fields, values),
            (Derived::Enum { arms }, Value::Variant { index, payload }) => {
                if *index >= arms.len() {
                    return false;
                }
                match &arms[*index] {
                    VariantArm::Unit { .. } => payload.is_none(),
                    VariantArm::Single { .. } => payload.is_some(),
                    _ => false,
                }
            },
            _ => false,
        }
    }

    /// Runs the logic on a value: appends the arguments of the record to the
    /// receiver.
    pub fn append_value<R: ArgumentReceiver<String>>(&self, value: &Value, recv: &mut R)
        requires
            conforms(*self, *value),
            has_room(old(recv), emission(*self, *value).len()),
        ensures
            final(recv).accepted() == old(recv).accepted() + emission(*self, *value),
            final(recv).limit() == old(recv).limit(),
    {
        match (self, value) {
            (Derived::Struct { fields }, Value::Struct(values)) => {
                append_struct(fields, values, recv);
            },
            (Derived::Enum { arms }, Value::Variant { index, payload }) => {
                append_variant(&arms[*index], payload, recv);
            },
            _ => {},
        }
    }

    /// The arguments of a record value, or `None` where the logic cannot run on
    /// the value.
    pub fn to_args(&self, value: &Value) -> (args: Option<Vec<String>>)
        ensures
            match args {
                Some(args) => conforms(*self, *value) && views_of(args@) == emission(*self, *value),
                None => !conforms(*self, *value),
            },
    {
        if self.accepts(value) {
            let mut args: Vec<String> = Vec::new();
            self.append_value(value, &mut args);
            assert(views_of(args@) =~= emission(*self, *value));
            Some(args)
        } else {
            None
        }
    }
}

} // verus!
