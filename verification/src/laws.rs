//! The guarantees the conversion gives its downstream consumer, stated and
//! proved once and for all over the conversion's spec functions: shape and
//! order fidelity, determinism, override fidelity, and the short-circuit
//! behaviour of sequence conversion.

use vstd::prelude::*;

use crate::ast::{
    Container, ContainerView, Data, DataView, Field, FieldView, RawAttrView, SerdeContainerView,
    SerdeDataView, SerdeFieldView, SerdeVariantView, Variant, VariantView,
};
use crate::attr::{resolve_from, resolve_spec, spec_valid_target};
use crate::ctxt::{DiagKind, Diagnostic};
use crate::from_serde::{seq_convert_spec, FromSerde};

verus! {

/// A sequence conversion that succeeds converts every element, in order:
/// element `i` of the output is exactly what converting element `i` of the
/// input yields.
pub proof fn lemma_seq_convert_pointwise<T: FromSerde>(
    ss: Seq<<T::SerdeType as View>::V>,
    out: Seq<T::V>,
)
    requires
        seq_convert_spec::<T>(ss) == Ok::<Seq<T::V>, Diagnostic>(out),
    ensures
        out.len() == ss.len(),
        forall|i: int|
            0 <= i < ss.len() ==> T::convert_spec(ss[i]) == Ok::<T::V, Diagnostic>(out[i]),
    decreases ss.len(),
{
    if ss.len() > 0 {
        let v = T::convert_spec(ss[0])->Ok_0;
        let rest = seq_convert_spec::<T>(ss.drop_first())->Ok_0;
        assert(out == seq![v] + rest);
        lemma_seq_convert_pointwise::<T>(ss.drop_first(), rest);
        assert forall|i: int|
            0 <= i < ss.len() implies T::convert_spec(ss[i]) == Ok::<T::V, Diagnostic>(
            out[i],
        ) by {
            if i > 0 {
                assert(ss.drop_first()[i - 1] == ss[i]);
                assert(out[i] == rest[i - 1]);
            }
        }
    }
}

/// A sequence conversion stops at the first element whose conversion
/// aborts: the outcome is that element's diagnostic, whatever follows it.
pub proof fn lemma_seq_convert_first_failure<T: FromSerde>(
    ss: Seq<<T::SerdeType as View>::V>,
    k: int,
)
    requires
        0 <= k < ss.len(),
        forall|j: int| 0 <= j < k ==> T::convert_spec(ss[j]) is Ok,
        T::convert_spec(ss[k]) is Err,
    ensures
        seq_convert_spec::<T>(ss) == Err::<Seq<T::V>, Diagnostic>(T::convert_spec(ss[k])->Err_0),
    decreases k,
{
    if k > 0 {
        assert forall|j: int| 0 <= j < k - 1 implies T::convert_spec(ss.drop_first()[j]) is Ok by {
            assert(ss.drop_first()[j] == ss[j + 1]);
        }
        assert(ss.drop_first()[k - 1] == ss[k]);
        lemma_seq_convert_first_failure::<T>(ss.drop_first(), k - 1);
    }
}

/// For a valid struct declaration, conversion yields a Struct body with the
/// layout tag preserved and exactly one adapted field per original field, in
/// the original order, each with member, attribute set, declared type and
/// original reference copied verbatim.
pub proof fn lemma_struct_shape_preserved<'a>(s: SerdeDataView, out: DataView)
    requires
        s is Struct,
        <Data<'a> as FromSerde>::convert_spec(s) == Ok::<DataView, Diagnostic>(out),
    ensures
        out is Struct,
        out->Struct_0 == s->Struct_0,
        out->Struct_1.len() == s->Struct_1.len(),
        forall|i: int|
            0 <= i < s->Struct_1.len() ==> <Field<'a> as FromSerde>::convert_spec(
                s->Struct_1[i],
            ) == Ok::<FieldView, Diagnostic>(out->Struct_1[i]),
        forall|i: int|
            0 <= i < s->Struct_1.len() ==> (#[trigger] out->Struct_1[i]).member
                == s->Struct_1[i].member && out->Struct_1[i].ty == s->Struct_1[i].ty
                && out->Struct_1[i].serde_attrs == s->Struct_1[i].attrs
                && out->Struct_1[i].original == s->Struct_1[i].original,
{
    lemma_seq_convert_pointwise::<Field<'a>>(s->Struct_1, out->Struct_1);
}

/// For a valid enum declaration, conversion yields an Enum body with exactly
/// one adapted variant per original variant, in the original order, each with
/// identifier, attribute set, layout style and original reference copied
/// verbatim.
pub proof fn lemma_enum_shape_preserved<'a>(s: SerdeDataView, out: DataView)
    requires
        s is Enum,
        <Data<'a> as FromSerde>::convert_spec(s) == Ok::<DataView, Diagnostic>(out),
    ensures
        out is Enum,
        out->Enum_0.len() == s->Enum_0.len(),
        forall|i: int|
            0 <= i < s->Enum_0.len() ==> <Variant<'a> as FromSerde>::convert_spec(s->Enum_0[i])
                == Ok::<VariantView, Diagnostic>(out->Enum_0[i]),
        forall|i: int|
            0 <= i < s->Enum_0.len() ==> (#[trigger] out->Enum_0[i]).ident == s->Enum_0[i].ident
                && out->Enum_0[i].style == s->Enum_0[i].style && out->Enum_0[i].serde_attrs
                == s->Enum_0[i].attrs && out->Enum_0[i].original == s->Enum_0[i].original,
{
    lemma_seq_convert_pointwise::<Variant<'a>>(s->Enum_0, out->Enum_0);
}

/// Container conversion copies identifier, attribute set, generics and
/// original reference verbatim, and fails exactly when the conversion of its
/// body fails, with the body's diagnostic.
pub proof fn lemma_container_fidelity<'a>(s: SerdeContainerView)
    ensures
        <Container<'a> as FromSerde>::convert_spec(s) is Ok <==> <Data<'a> as FromSerde>::convert_spec(
            s.data,
        ) is Ok,
        <Container<'a> as FromSerde>::convert_spec(s) is Ok ==> ({
            let c = <Container<'a> as FromSerde>::convert_spec(s)->Ok_0;
            c.ident == s.ident && c.serde_attrs == s.attrs && c.generics == s.generics
                && c.original == s.original && <Data<'a> as FromSerde>::convert_spec(s.data)
                == Ok::<DataView, Diagnostic>(c.data)
        }),
        <Container<'a> as FromSerde>::convert_spec(s) is Err ==> <Container<
            'a,
        > as FromSerde>::convert_spec(s)->Err_0 == <Data<'a> as FromSerde>::convert_spec(
            s.data,
        )->Err_0,
{
}

/// Converting the same external tree twice yields structurally identical
/// adapted trees: the conversion's outcome is a function of the input alone,
/// with no hidden state.
pub proof fn lemma_conversion_deterministic<'a>(
    s: SerdeContainerView,
    c1: ContainerView,
    c2: ContainerView,
)
    requires
        <Container<'a> as FromSerde>::convert_spec(s) == Ok::<ContainerView, Diagnostic>(c1),
        <Container<'a> as FromSerde>::convert_spec(s) == Ok::<ContainerView, Diagnostic>(c2),
    ensures
        c1 == c2,
{
}

/// Scanning attributes that hold no override directive leaves any directive
/// already found in place.
proof fn lemma_resolve_from_no_override(attrs: Seq<RawAttrView>, acc: Option<Seq<char>>, i: int)
    requires
        0 <= i <= attrs.len(),
        forall|j: int| i <= j < attrs.len() ==> !(attrs[j] is Override),
    ensures
        resolve_from(attrs, acc, i) == Ok::<Option<Seq<char>>, DiagKind>(acc),
    decreases attrs.len() - i,
{
    if i < attrs.len() {
        lemma_resolve_from_no_override(attrs, acc, i + 1);
    }
}

/// Attributes the resolver does not recognize do not change the scan's
/// outcome.
proof fn lemma_resolve_from_skip_others(
    attrs: Seq<RawAttrView>,
    acc: Option<Seq<char>>,
    i: int,
    k: int,
)
    requires
        0 <= i <= k <= attrs.len(),
        forall|j: int| i <= j < k ==> !(attrs[j] is Override),
    ensures
        resolve_from(attrs, acc, i) == resolve_from(attrs, acc, k),
    decreases k - i,
{
    if i < k {
        lemma_resolve_from_skip_others(attrs, acc, i + 1, k);
    }
}

/// If no override directive stands in a raw attribute list, resolution
/// succeeds with no directive.
pub proof fn lemma_resolve_no_override(attrs: Seq<RawAttrView>)
    requires
        forall|i: int| 0 <= i < attrs.len() ==> !(attrs[i] is Override),
    ensures
        resolve_spec(attrs) == Ok::<Option<Seq<char>>, DiagKind>(Option::<Seq<char>>::None),
{
    lemma_resolve_from_no_override(attrs, Option::<Seq<char>>::None, 0);
}

/// If exactly one override directive stands in a raw attribute list and its
/// target is well-formed, resolution yields that target exactly as written.
pub proof fn lemma_resolve_single_override(attrs: Seq<RawAttrView>, k: int)
    requires
        0 <= k < attrs.len(),
        attrs[k] is Override,
        spec_valid_target(attrs[k]->Override_0),
        forall|j: int| 0 <= j < attrs.len() && j != k ==> !(attrs[j] is Override),
    ensures
        resolve_spec(attrs) == Ok::<Option<Seq<char>>, DiagKind>(
            Option::Some(attrs[k]->Override_0),
        ),
{
    let t = attrs[k]->Override_0;
    lemma_resolve_from_skip_others(attrs, Option::<Seq<char>>::None, 0, k);
    lemma_resolve_from_no_override(attrs, Option::Some(t), k + 1);
}

/// If the override directive is absent on a field's original node, the
/// adapted field's override is empty.
pub proof fn lemma_field_override_absent<'a>(s: SerdeFieldView, f: FieldView)
    requires
        <Field<'a> as FromSerde>::convert_spec(s) == Ok::<FieldView, Diagnostic>(f),
        forall|i: int| 0 <= i < s.original.attrs.len() ==> !(s.original.attrs[i] is Override),
    ensures
        f.with is None,
{
    lemma_resolve_no_override(s.original.attrs);
}

/// If exactly one well-formed override directive stands on a field's
/// original node, the adapted field's override holds its target exactly as
/// written.
pub proof fn lemma_field_override_present<'a>(s: SerdeFieldView, f: FieldView, k: int)
    requires
        <Field<'a> as FromSerde>::convert_spec(s) == Ok::<FieldView, Diagnostic>(f),
        0 <= k < s.original.attrs.len(),
        s.original.attrs[k] is Override,
        spec_valid_target(s.original.attrs[k]->Override_0),
        forall|j: int|
            0 <= j < s.original.attrs.len() && j != k ==> !(s.original.attrs[j] is Override),
    ensures
        f.with == Option::Some(s.original.attrs[k]->Override_0),
{
    lemma_resolve_single_override(s.original.attrs, k);
}

/// If the override directive is absent on a variant's original node, the
/// adapted variant's override is empty.
pub proof fn lemma_variant_override_absent<'a>(s: SerdeVariantView, v: VariantView)
    requires
        <Variant<'a> as FromSerde>::convert_spec(s) == Ok::<VariantView, Diagnostic>(v),
        forall|i: int| 0 <= i < s.original.attrs.len() ==> !(s.original.attrs[i] is Override),
    ensures
        v.with is None,
{
    lemma_resolve_no_override(s.original.attrs);
}

/// If exactly one well-formed override directive stands on a variant's
/// original node, the adapted variant's override holds its target exactly as
/// written.
pub proof fn lemma_variant_override_present<'a>(s: SerdeVariantView, v: VariantView, k: int)
    requires
        <Variant<'a> as FromSerde>::convert_spec(s) == Ok::<VariantView, Diagnostic>(v),
        0 <= k < s.original.attrs.len(),
        s.original.attrs[k] is Override,
        spec_valid_target(s.original.attrs[k]->Override_0),
        forall|j: int|
            0 <= j < s.original.attrs.len() && j != k ==> !(s.original.attrs[j] is Override),
    ensures
        v.with == Option::Some(s.original.attrs[k]->Override_0),
{
    lemma_resolve_single_override(s.original.attrs, k);
}

/// If the override resolver rejects a field's directive, the field's
/// conversion aborts, no adapted field is produced, and the one diagnostic
/// it records points at that field's original node.
pub proof fn lemma_field_abort_diagnostic<'a>(s: SerdeFieldView)
    requires
        resolve_spec(s.original.attrs) is Err,
    ensures
        <Field<'a> as FromSerde>::convert_spec(s) is Err,
        <Field<'a> as FromSerde>::convert_spec(s)->Err_0.node == s.original.id,
        <Field<'a> as FromSerde>::convert_spec(s)->Err_0.kind == resolve_spec(
            s.original.attrs,
        )->Err_0,
{
}

/// If the override resolver rejects a variant's own directive while all its
/// fields convert, the variant's conversion aborts, no adapted variant is
/// produced, and the one diagnostic it records points at that variant's
/// original node.
pub proof fn lemma_variant_abort_diagnostic<'a>(s: SerdeVariantView)
    requires
        seq_convert_spec::<Field<'a>>(s.fields) is Ok,
        resolve_spec(s.original.attrs) is Err,
    ensures
        <Variant<'a> as FromSerde>::convert_spec(s) is Err,
        <Variant<'a> as FromSerde>::convert_spec(s)->Err_0.node == s.original.id,
        <Variant<'a> as FromSerde>::convert_spec(s)->Err_0.kind == resolve_spec(
            s.original.attrs,
        )->Err_0,
{
}

} // verus!
