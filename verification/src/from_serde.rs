//! The conversion protocol and its four implementations, one per node kind
//! of a data type declaration.
//!
//! Each implementation's whole behaviour is pinned by a spec function
//! `convert_spec` over the views of the two trees: the adapted view it must
//! produce, or the one diagnostic recorded before aborting.  Sequences of
//! nodes are converted in order and short-circuit on the first failure:
//! already converted elements are discarded, already recorded diagnostics
//! stay in the shared context.

use vstd::prelude::*;

use crate::ast::{
    Container, ContainerView, Data, DataView, Field, FieldView, SerdeContainer,
    SerdeContainerView, SerdeData, SerdeDataView, SerdeField, SerdeFieldView, SerdeVariant,
    SerdeVariantView, Variant, VariantView,
};
use crate::attr::{get_with_from_attrs, resolve_spec};
use crate::ctxt::{Ctxt, Diagnostic};

verus! {

/// The views of the elements of `s`, in order.
pub open spec fn views_of<T: View>(s: Seq<T>) -> Seq<T::V> {
    s.map_values(|x: T| x@)
}

/// What converting a sequence of nodes yields: the adapted views in the
/// input's order, or the diagnostic of the first element whose conversion
/// aborts.
pub open spec fn seq_convert_spec<T: FromSerde>(
    ss: Seq<<T::SerdeType as View>::V>,
) -> Result<Seq<T::V>, Diagnostic>
    decreases ss.len(),
{
    if ss.len() == 0 {
        Ok(Seq::empty())
    } else {
        match T::convert_spec(ss[0]) {
            Err(d) => Err(d),
            Ok(v) => match seq_convert_spec::<T>(ss.drop_first()) {
                Err(d) => Err(d),
                Ok(rest) => Ok(seq![v] + rest),
            },
        }
    }
}

/// The conversion protocol: adapt one node of the external parser's tree,
/// given the shared diagnostic context.
pub trait FromSerde: View + Sized {
    /// The external node kind this entity is adapted from.
    type SerdeType: View;

    /// The conversion this implementation realizes, as a function of the
    /// input's view: the adapted entity's view, or the one diagnostic
    /// recorded before aborting.
    spec fn convert_spec(s: <Self::SerdeType as View>::V) -> Result<Self::V, Diagnostic>;

    /// Convert one node.  On success the context is untouched; on an abort
    /// exactly the diagnostic named by `convert_spec` has been recorded.
    fn from_serde(errors: &mut Ctxt, serde: Self::SerdeType) -> (r: Result<Self, ()>)
        ensures
            match r {
                Ok(out) => Self::convert_spec(serde@) == Ok::<Self::V, Diagnostic>(out@)
                    && final(errors)@ == old(errors)@,
                Err(()) => Self::convert_spec(serde@) is Err
                    && final(errors)@ == old(errors)@.push(Self::convert_spec(serde@)->Err_0),
            },
    ;
}

/// Convert a sequence of nodes in the order given, stopping at the first
/// element whose conversion aborts: its diagnostic stays recorded, the
/// elements already converted are discarded, and the abort propagates.
#[verifier::loop_isolation(false)]
pub fn vec_from_serde<T: FromSerde>(errors: &mut Ctxt, serdes: Vec<T::SerdeType>) -> (r: Result<
    Vec<T>,
    (),
>)
    ensures
        match r {
            Ok(out) => seq_convert_spec::<T>(views_of(serdes@))
                == Ok::<Seq<T::V>, Diagnostic>(views_of(out@))
                && final(errors)@ == old(errors)@,
            Err(()) => seq_convert_spec::<T>(views_of(serdes@)) is Err
                && final(errors)@ == old(errors)@.push(
                    seq_convert_spec::<T>(views_of(serdes@))->Err_0,
                ),
        },
{
    let ghost all: Seq<<T::SerdeType as View>::V> = views_of(serdes@);
    let mut rest = serdes;
    let mut result: Vec<T> = Vec::with_capacity(rest.len());
    proof {
        assert(all.skip(0) =~= all);
        assert(views_of(result@) =~= Seq::<T::V>::empty());
        if seq_convert_spec::<T>(all) is Ok {
            let r2 = seq_convert_spec::<T>(all)->Ok_0;
            assert(views_of(result@) + r2 =~= r2);
        }
    }
    while rest.len() > 0
        invariant
            result@.len() + rest@.len() == all.len(),
            views_of(rest@) == all.skip(result@.len() as int),
            errors@ == old(errors)@,
            seq_convert_spec::<T>(all) == (match seq_convert_spec::<T>(
                all.skip(result@.len() as int),
            ) {
                Ok(r2) => Ok::<Seq<T::V>, Diagnostic>(views_of(result@) + r2),
                Err(d) => Err(d),
            }),
        decreases rest@.len(),
    {
        let ghost k = result@.len() as int;
        let ghost prev = rest@;
        let s = rest.remove(0);
        proof {
            assert(views_of(prev)[0] == prev[0]@);
            assert(all.skip(k)[0] == s@);
            assert(rest@ =~= prev.drop_first());
            assert forall|j: int| 0 <= j < rest@.len() implies views_of(rest@)[j] == all.skip(
                k + 1,
            )[j] by {
                assert(views_of(prev)[j + 1] == prev[j + 1]@);
            }
            assert(views_of(rest@) =~= all.skip(k + 1));
            assert(all.skip(k).drop_first() =~= all.skip(k + 1));
            assert(seq_convert_spec::<T>(all.skip(k)) == (match T::convert_spec(s@) {
                Err(d) => Err::<Seq<T::V>, Diagnostic>(d),
                Ok(v) => match seq_convert_spec::<T>(all.skip(k + 1)) {
                    Err(d) => Err(d),
                    Ok(r2) => Ok(seq![v] + r2),
                },
            }));
        }
        match T::from_serde(errors, s) {
            Ok(out) => {
                proof {
                    if seq_convert_spec::<T>(all.skip(k + 1)) is Ok {
                        let r2 = seq_convert_spec::<T>(all.skip(k + 1))->Ok_0;
                        assert(views_of(result@.push(out)) =~= views_of(result@) + seq![out@]);
                        assert((views_of(result@) + seq![out@]) + r2 =~= views_of(result@) + (
                        seq![out@] + r2));
                    }
                }
                result.push(out);
            },
            Err(()) => {
                proof {
                    assert(T::convert_spec(s@) is Err);
                    assert(seq_convert_spec::<T>(all) == Err::<Seq<T::V>, Diagnostic>(
                        T::convert_spec(s@)->Err_0,
                    ));
                }
                return Err(());
            },
        }
    }
    proof {
        assert(all.skip(result@.len() as int) =~= Seq::<<T::SerdeType as View>::V>::empty());
        assert(views_of(result@) + Seq::<T::V>::empty() =~= views_of(result@));
    }
    Ok(result)
}

impl<'a> FromSerde for Field<'a> {
    type SerdeType = SerdeField<'a>;

    open spec fn convert_spec(s: SerdeFieldView) -> Result<FieldView, Diagnostic> {
        match resolve_spec(s.original.attrs) {
            Err(k) => Err(Diagnostic { node: s.original.id, kind: k }),
            Ok(w) => Ok(
                FieldView {
                    member: s.member,
                    serde_attrs: s.attrs,
                    ty: s.ty,
                    original: s.original,
                    with: w,
                },
            ),
        }
    }

    fn from_serde(errors: &mut Ctxt, serde: SerdeField<'a>) -> (r: Result<Self, ()>) {
        let with = match get_with_from_attrs(serde.original, errors) {
            Ok(w) => w,
            Err(()) => {
                return Err(());
            },
        };
        let out = Field {
            member: serde.member,
            serde_attrs: serde.attrs,
            ty: serde.ty,
            original: serde.original,
            with,
        };
        proof {
            assert(Self::convert_spec(serde@)->Ok_0 =~= out@);
        }
        Ok(out)
    }
}

impl<'a> FromSerde for Variant<'a> {
    type SerdeType = SerdeVariant<'a>;

    open spec fn convert_spec(s: SerdeVariantView) -> Result<VariantView, Diagnostic> {
        match seq_convert_spec::<Field<'a>>(s.fields) {
            Err(d) => Err(d),
            Ok(fs) => match resolve_spec(s.original.attrs) {
                Err(k) => Err(Diagnostic { node: s.original.id, kind: k }),
                Ok(w) => Ok(
                    VariantView {
                        ident: s.ident,
                        serde_attrs: s.attrs,
                        style: s.style,
                        fields: fs,
                        original: s.original,
                        with: w,
                    },
                ),
            },
        }
    }

    fn from_serde(errors: &mut Ctxt, serde: SerdeVariant<'a>) -> (r: Result<Self, ()>) {
        let SerdeVariant { ident, attrs, style, fields, original } = serde;
        proof {
            assert(views_of(fields@) == serde@.fields);
        }
        let afields = match vec_from_serde::<Field<'a>>(errors, fields) {
            Ok(fs) => fs,
            Err(()) => {
                return Err(());
            },
        };
        let with = match get_with_from_attrs(original, errors) {
            Ok(w) => w,
            Err(()) => {
                return Err(());
            },
        };
        let out = Variant {
            ident,
            serde_attrs: attrs,
            style,
            fields: afields,
            original,
            with,
        };
        proof {
            assert(Self::convert_spec(serde@)->Ok_0 =~= out@);
        }
        Ok(out)
    }
}

impl<'a> FromSerde for Data<'a> {
    type SerdeType = SerdeData<'a>;

    open spec fn convert_spec(s: SerdeDataView) -> Result<DataView, Diagnostic> {
        match s {
            SerdeDataView::Enum(vs) => match seq_convert_spec::<Variant<'a>>(vs) {
                Err(d) => Err(d),
                Ok(avs) => Ok(DataView::Enum(avs)),
            },
            SerdeDataView::Struct(style, fs) => match seq_convert_spec::<Field<'a>>(fs) {
                Err(d) => Err(d),
                Ok(afs) => Ok(DataView::Struct(style, afs)),
            },
        }
    }

    fn from_serde(errors: &mut Ctxt, serde: SerdeData<'a>) -> (r: Result<Self, ()>) {
        match serde {
            SerdeData::Enum(variants) => match vec_from_serde::<Variant<'a>>(errors, variants) {
                Ok(vs) => Ok(Data::Enum(vs)),
                Err(()) => Err(()),
            },
            SerdeData::Struct(style, fields) => match vec_from_serde::<Field<'a>>(errors, fields) {
                Ok(fs) => Ok(Data::Struct(style, fs)),
                Err(()) => Err(()),
            },
        }
    }
}

impl<'a> FromSerde for Container<'a> {
    type SerdeType = SerdeContainer<'a>;

    open spec fn convert_spec(s: SerdeContainerView) -> Result<ContainerView, Diagnostic> {
        match Data::convert_spec(s.data) {
            Err(d) => Err(d),
            Ok(data) => Ok(
                ContainerView {
                    ident: s.ident,
                    serde_attrs: s.attrs,
                    data,
                    generics: s.generics,
                    original: s.original,
                },
            ),
        }
    }

    fn from_serde(errors: &mut Ctxt, serde: SerdeContainer<'a>) -> (r: Result<Self, ()>) {
        let SerdeContainer { ident, attrs, data, generics, original } = serde;
        let adata = match Data::from_serde(errors, data) {
            Ok(d) => d,
            Err(()) => {
                return Err(());
            },
        };
        let out = Container {
            ident,
            serde_attrs: attrs,
            data: adata,
            generics,
            original,
        };
        proof {
            assert(Self::convert_spec(serde@)->Ok_0 =~= out@);
        }
        Ok(out)
    }
}

} // verus!
