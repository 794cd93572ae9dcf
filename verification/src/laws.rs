use crate::attrs::{FieldVariant, Malformed, UnclapField, UnclapVariant_};
use crate::derive::{
    field_code, field_codes, field_codes_view, field_flag_name, parsed_field_code, variant_arm,
    FieldCode, FieldError, Member, VariantArm, VariantError,
};
use crate::record::{field_conforms, field_emission, field_emissions, struct_emission, FieldValue};
use crate::std_impls::{emissions_of, flattened, lemma_flattened_concat, lemma_flattened_one};
use crate::support::{FlagArg, Named};
use crate::traits::Argument;
use vstd::prelude::*;
use vstd::seq_lib::lemma_flatten_concat;

verus! {

/// Order preservation. A struct emits what its fields hand over, one field after
/// the other in declaration order, and what a field hands over is settled by the
/// field's own configuration and value. So the fields before any position `k`
/// give the start of the emission, and that start stays as it is when the values
/// of the fields from `k` on change.
pub proof fn law_order_preservation(
    fields: Seq<Result<UnclapField, Malformed>>,
    codes: Seq<FieldCode>,
    values: Seq<FieldValue>,
    changed: Seq<FieldValue>,
    k: int,
)
    requires
        field_codes_view(codes) == field_codes(fields),
        values.len() == fields.len(),
        changed.len() == fields.len(),
        0 <= k <= fields.len(),
        forall|i: int| 0 <= i < k ==> values[i] == changed[i],
    ensures
        forall|i: int|
            0 <= i < fields.len() ==> #[trigger] field_emissions(codes, values)[i]
                == field_emission(parsed_field_code(fields[i], i as usize), values[i]),
        struct_emission(codes, values) == field_emissions(codes, values).take(k).flatten()
            + field_emissions(codes, values).skip(k).flatten(),
        struct_emission(codes, changed) == field_emissions(codes, values).take(k).flatten()
            + field_emissions(codes, changed).skip(k).flatten(),
{
    let parts = field_emissions(codes, values);
    let other = field_emissions(codes, changed);
    assert(codes.len() == fields.len()) by {
        assert(field_codes_view(codes).len() == codes.len());
        assert(field_codes(fields).len() == fields.len());
    }
    assert forall|i: int| 0 <= i < fields.len() implies #[trigger] parts[i] == field_emission(
        parsed_field_code(fields[i], i as usize),
        values[i],
    ) by {
        assert(field_codes_view(codes)[i] == codes[i]@);
        assert(field_codes(fields)[i] == parsed_field_code(fields[i], i as usize));
        assert(parts[i] == field_emission(codes[i]@, values[i]));
    }
    assert(parts =~= parts.take(k) + parts.skip(k));
    lemma_flatten_concat(parts.take(k), parts.skip(k));
    assert(other.take(k) =~= parts.take(k));
    assert(other =~= other.take(k) + other.skip(k));
    lemma_flatten_concat(other.take(k), other.skip(k));
}

/// Flattening. A collection emits what its items emit, one item after the other
/// in the order of the collection: two collections in a row emit what the first
/// emits and then what the second emits, and a collection of one item emits what
/// the item emits. Vectors, slices and arrays are such collections, and a tuple
/// emits what its components emit in their order.
pub proof fn law_flattening<T: View, A: Argument<T>, B: Argument<T>, const N: usize>(
    first: Seq<A>,
    second: Seq<A>,
    item: A,
    vector: Vec<A>,
    slice: &[A],
    array: [A; N],
    pair: (A, B),
    triple: (A, B, A),
    four: (A, B, A, B),
)
    ensures
        flattened::<T, A>(first + second) == flattened::<T, A>(first) + flattened::<T, A>(second),
        flattened::<T, A>(seq![item]) == item.emission(),
        flattened::<T, A>(first.push(item)) == flattened::<T, A>(first) + item.emission(),
        flattened::<T, A>(Seq::empty()) == Seq::<T::V>::empty(),
        vector.emission() == flattened::<T, A>(vector@),
        slice.emission() == flattened::<T, A>(slice@),
        array.emission() == flattened::<T, A>(array@),
        pair.emission() == pair.0.emission() + pair.1.emission(),
        triple.emission() == triple.0.emission() + triple.1.emission() + triple.2.emission(),
        four.emission() == four.0.emission() + four.1.emission() + four.2.emission()
            + four.3.emission(),
{
    lemma_flattened_concat::<T, A>(first, second);
    lemma_flattened_one::<T, A>(item);
    assert(first.push(item) =~= first + seq![item]);
    lemma_flattened_concat::<T, A>(first, seq![item]);
    assert(emissions_of::<T, A>(Seq::empty()) =~= Seq::empty());
}

/// Flag gating. A field in flag mode whose flag name can be resolved hands over
/// the flag name and nothing else where its value is set, and nothing where it is
/// not, whatever the other fields hold.
pub proof fn law_flag_gating(
    fields: Seq<Result<UnclapField, Malformed>>,
    codes: Seq<FieldCode>,
    values: Seq<FieldValue>,
    i: int,
)
    requires
        field_codes_view(codes) == field_codes(fields),
        values.len() == fields.len(),
        0 <= i < fields.len(),
        fields[i] matches Ok(field) && field.variant matches FieldVariant::Flag(user)
            && field_flag_name(field, user) is Some,
    ensures
        fields[i] matches Ok(field) && field.variant matches FieldVariant::Flag(user)
            && field_flag_name(field, user) matches Some(flag_name) && field_emissions(
            codes,
            values,
        )[i] == (if values[i].active() {
            seq![flag_name]
        } else {
            Seq::empty()
        }),
        field_emissions(codes, values)[i].len() == (if values[i].active() {
            1nat
        } else {
            0nat
        }),
{
    assert(field_codes_view(codes).len() == codes.len());
    assert(field_codes(fields).len() == fields.len());
    assert(field_codes_view(codes)[i] == codes[i]@);
    assert(field_codes(fields)[i] == parsed_field_code(fields[i], i as usize));
}

/// Flag gating, of the combinator that generated code uses.
pub proof fn law_flag_arg_gating(flag: FlagArg)
    ensures
        flag.set() ==> flag.emission() == seq![flag.flag_name()],
        !flag.set() ==> flag.emission() == Seq::<Seq<char>>::empty(),
{
}

/// Named wrapping. A field in named mode whose flag name can be resolved hands
/// over the flag name and then what its value emits. Where the value emits
/// nothing, the flag name stands alone.
pub proof fn law_named_wrapping(
    fields: Seq<Result<UnclapField, Malformed>>,
    codes: Seq<FieldCode>,
    values: Seq<FieldValue>,
    i: int,
)
    requires
        field_codes_view(codes) == field_codes(fields),
        values.len() == fields.len(),
        0 <= i < fields.len(),
        fields[i] matches Ok(field) && field.variant matches FieldVariant::Named(user)
            && field_flag_name(field, user) is Some,
    ensures
        fields[i] matches Ok(field) && field.variant matches FieldVariant::Named(user)
            && field_flag_name(field, user) matches Some(flag_name) && field_emissions(
            codes,
            values,
        )[i] == seq![flag_name] + values[i].emission() && (values[i].emission().len() == 0
            ==> field_emissions(codes, values)[i] == seq![flag_name]),
{
    assert(field_codes_view(codes).len() == codes.len());
    assert(field_codes(fields).len() == fields.len());
    assert(field_codes_view(codes)[i] == codes[i]@);
    assert(field_codes(fields)[i] == parsed_field_code(fields[i], i as usize));
    if values[i].emission().len() == 0 {
        assert(seq![codes[i]@->Named_flag_name] + values[i].emission() =~= seq![
            codes[i]@->Named_flag_name,
        ]);
    }
}

/// Named wrapping, of the combinator that generated code uses.
pub proof fn law_named_arg_wrapping<A: Argument<String>>(named: Named<A>)
    ensures
        named.emission() == seq![named.flag_name()] + named.inner().emission(),
        named.inner().emission().len() == 0 ==> named.emission() == seq![named.flag_name()],
{
    if named.inner().emission().len() == 0 {
        assert(named.emission() =~= seq![named.flag_name()]);
    }
}

/// Shape rejection. A tuple variant is rejected unless it has exactly one field, a
/// variant whose fields have names is rejected however many it has, and a field
/// without an identifier that is to be named or to be a flag is rejected unless
/// a name was given. What was rejected never runs.
pub proof fn law_shape_rejection(variant: UnclapVariant_, field: UnclapField, member: Member<Seq<char>>)
    ensures
        variant.fields.style is Tuple && variant.fields.fields@.len() != 1 ==> variant_arm(variant)
            == (VariantArm::Rejected { name: variant.ident@, error: VariantError::TupleArity }),
        variant.fields.style is Struct ==> variant_arm(variant) == (VariantArm::Rejected {
            name: variant.ident@,
            error: VariantError::NamedFields,
        }),
        field.ident is None && field.variant == FieldVariant::Named(None::<String>) ==> field_code(
            field,
            member,
        ) == (FieldCode::<Seq<char>>::Rejected { error: FieldError::NamedWithoutName }),
        field.ident is None && field.variant == FieldVariant::Flag(None::<String>) ==> field_code(
            field,
            member,
        ) == (FieldCode::<Seq<char>>::Rejected { error: FieldError::FlagWithoutName }),
        forall|value: FieldValue|
            field_code(field, member) is Rejected ==> !field_conforms(
                #[trigger] field_code(field, member),
                value,
            ),
{
}

} // verus!
