//! Converter synthesis: the routines that turn a record into an array of
//! variants.
//!
//! Two routines are described here. One consumes the record and builds the
//! array of its retained fields' values, each inside its variant of the type
//! enum. The other borrows the record and builds the array of all variants of
//! the name enum.

use crate::assemble::no_generics;
use crate::filter::{RetainedField, RetainedFieldView};
use crate::generated::{
    ArrayType, ArrayTypeView, ConverterForm, ConverterSpec, ConverterSpecView, FieldBinding,
    FieldBindingView, SourceShape, SourceShapeView,
};
use crate::schema::{GenericParam, GenericParamView, GenericParams, GenericParamsView};
use crate::text::text_eq;
use vstd::prelude::*;
use vstd::string::StringExecFns;

verus! {

/// The conversion step for a retained field.
pub open spec fn binding_of(field: RetainedFieldView) -> FieldBindingView {
    FieldBindingView {
        field: field.identifier,
        position: field.position,
        tag: field.tag_identifier,
    }
}

/// The conversion routine that consumes the record.
///
/// For a record without generic parameters it is a conversion-from
/// declaration on the array type. For a record with generic parameters that
/// form is not allowed: the array type is foreign, and nothing local would
/// cover the parameters. The routine is then a conversion-into declaration on
/// the record type, with the record's parameters and where-clause.
pub open spec fn value_converter_of(
    record_name: Seq<char>,
    generics: GenericParamsView,
    enum_name: Seq<char>,
    kept: Seq<RetainedFieldView>,
) -> ConverterSpecView {
    ConverterSpecView {
        record: record_name,
        source: SourceShapeView::ByValue,
        form: if generics.params.len() == 0 {
            ConverterForm::FromOnArray
        } else {
            ConverterForm::IntoOnRecord
        },
        generics: if generics.params.len() == 0 {
            no_generics()
        } else {
            generics
        },
        target: ArrayTypeView { element: enum_name, len: kept.len() },
        bindings: kept.map_values(|f: RetainedFieldView| binding_of(f)),
    }
}

/// The lifetime name that is tried first.
pub open spec fn lifetime_base() -> Seq<char> {
    "'field_name_from_lifetime__"@
}

/// The `k`-th lifetime name that is tried: the first one with `k` more
/// underscores at its end.
pub open spec fn lifetime_candidate(k: nat) -> Seq<char> {
    lifetime_base() + Seq::new(k, |i: int| '_')
}

/// Whether one of `params` is called `name`.
pub open spec fn declares(params: Seq<GenericParamView>, name: Seq<char>) -> bool {
    exists|i: int| 0 <= i < params.len() && #[trigger] params[i].name == name
}

/// Whether `k` is the least number whose candidate no parameter is called.
pub open spec fn is_first_free(params: Seq<GenericParamView>, k: nat) -> bool {
    &&& !declares(params, lifetime_candidate(k))
    &&& forall|j: nat| j < k ==> declares(params, #[trigger] lifetime_candidate(j))
}

/// The lifetime made up for a conversion by reference: the first candidate
/// that none of the record's parameters is called.
pub open spec fn fresh_lifetime_of(params: Seq<GenericParamView>) -> Seq<char> {
    lifetime_candidate(choose|k: nat| is_first_free(params, k))
}

/// The parameter that declares a lifetime and nothing else.
pub open spec fn lifetime_param(lifetime: Seq<char>) -> GenericParamView {
    GenericParamView { name: lifetime, declaration: lifetime, default: None }
}

/// The conversion routine that borrows the record.
///
/// It is a conversion-from declaration on the array type, for a reference to
/// the record. The borrow needs a lifetime, which is made up and put in front
/// of a copy of the record's parameters. The routine has no where-clause.
pub open spec fn reference_converter_of(
    record_name: Seq<char>,
    generics: GenericParamsView,
    enum_name: Seq<char>,
    kept: Seq<RetainedFieldView>,
) -> ConverterSpecView {
    let lifetime = fresh_lifetime_of(generics.params);
    ConverterSpecView {
        record: record_name,
        source: SourceShapeView::ByReference { lifetime },
        form: ConverterForm::FromOnArray,
        generics: GenericParamsView {
            params: seq![lifetime_param(lifetime)] + generics.params,
            where_clause: None,
        },
        target: ArrayTypeView { element: enum_name, len: kept.len() },
        bindings: kept.map_values(|f: RetainedFieldView| binding_of(f)),
    }
}

/// The length of the longest name among `params`.
pub open spec fn longest_name(params: Seq<GenericParamView>) -> nat
    decreases params.len(),
{
    if params.len() == 0 {
        0
    } else {
        let rest = longest_name(params.drop_last());
        if params.last().name.len() > rest {
            params.last().name.len()
        } else {
            rest
        }
    }
}

/// No parameter has a name longer than the longest.
pub proof fn lemma_longest_name_bounds(params: Seq<GenericParamView>, i: int)
    requires
        0 <= i < params.len(),
    ensures
        params[i].name.len() <= longest_name(params),
    decreases params.len(),
{
    if i < params.len() - 1 {
        lemma_longest_name_bounds(params.drop_last(), i);
    }
}

/// The least number whose candidate is free is the only such number.
pub proof fn lemma_first_free_is_unique(params: Seq<GenericParamView>, k: nat)
    requires
        is_first_free(params, k),
    ensures
        fresh_lifetime_of(params) == lifetime_candidate(k),
{
    let chosen = choose|j: nat| is_first_free(params, j);
    if chosen < k {
        assert(declares(params, lifetime_candidate(chosen)));
    } else if k < chosen {
        assert(declares(params, lifetime_candidate(k)));
    }
}

/// The made-up lifetime is not the name of any parameter, and it is the
/// first candidate itself unless a parameter has that very name.
pub proof fn lemma_fresh_lifetime_is_free(params: Seq<GenericParamView>)
    ensures
        !declares(params, fresh_lifetime_of(params)),
        !declares(params, lifetime_base()) ==> fresh_lifetime_of(params) == lifetime_base(),
{
    let k = lemma_some_candidate_is_free(params, 0);
    lemma_first_free_is_unique(params, k);
    if !declares(params, lifetime_base()) {
        assert(lifetime_candidate(0) == lifetime_base());
        assert(is_first_free(params, 0));
        lemma_first_free_is_unique(params, 0);
    }
}

/// Some candidate is free: one that is longer than every name.
proof fn lemma_some_candidate_is_free(params: Seq<GenericParamView>, from: nat) -> (k: nat)
    requires
        forall|j: nat| j < from ==> declares(params, #[trigger] lifetime_candidate(j)),
    ensures
        is_first_free(params, k),
    decreases longest_name(params) + 1 - from,
{
    if declares(params, lifetime_candidate(from)) {
        let i = choose|i: int|
            0 <= i < params.len() && #[trigger] params[i].name == lifetime_candidate(from);
        lemma_longest_name_bounds(params, i);
        assert(lifetime_candidate(from).len() == lifetime_base().len() + from);
        lemma_some_candidate_is_free(params, from + 1)
    } else {
        from
    }
}

/// Whether one of `params` is called `name`.
pub fn is_declared(params: &Vec<GenericParam>, name: &str) -> (r: bool)
    ensures
        r == declares(params.deep_view(), name@),
{
    let mut i: usize = 0;
    while i < params.len()
        invariant
            i <= params.len(),
            forall|k: int| 0 <= k < i ==> params.deep_view()[k].name != name@,
        decreases params.len() - i,
    {
        if text_eq(params[i].name.as_str(), name) {
            assert(params.deep_view()[i as int].name == name@);
            return true;
        }
        i += 1;
    }
    false
}

/// Makes up the lifetime of a conversion by reference, so that it is not the
/// name of any of the record's parameters.
pub fn fresh_lifetime(params: &Vec<GenericParam>) -> (r: String)
    ensures
        r@ == fresh_lifetime_of(params.deep_view()),
        !declares(params.deep_view(), r@),
        !declares(params.deep_view(), lifetime_base()) ==> r@ == lifetime_base(),
{
    let ghost all = params.deep_view();
    let mut name = String::from_str("'field_name_from_lifetime__");
    let ghost mut k: nat = 0;
    assert(name@ == lifetime_candidate(0));
    while is_declared(params, name.as_str())
        invariant
            all == params.deep_view(),
            name@ == lifetime_candidate(k),
            forall|j: nat| j < k ==> declares(all, #[trigger] lifetime_candidate(j)),
            k <= longest_name(all) + 1,
        decreases longest_name(all) + 1 - k,
    {
        proof {
            let i = choose|i: int| 0 <= i < all.len() && #[trigger] all[i].name == name@;
            lemma_longest_name_bounds(all, i);
            assert(lifetime_candidate(k).len() == lifetime_base().len() + k);
            reveal_strlit("_");
            assert(lifetime_candidate(k) + "_"@ == lifetime_candidate(k + 1));
        }
        name.append("_");
        proof {
            k = k + 1;
        }
    }
    proof {
        assert(is_first_free(all, k));
        lemma_first_free_is_unique(all, k);
        lemma_fresh_lifetime_is_free(all);
    }
    name
}

/// The conversion steps for the retained fields, in order.
pub fn bindings(kept: &Vec<RetainedField>) -> (r: Vec<FieldBinding>)
    ensures
        r.deep_view() == kept.deep_view().map_values(|f: RetainedFieldView| binding_of(f)),
{
    let mut r: Vec<FieldBinding> = Vec::new();
    let mut i: usize = 0;
    while i < kept.len()
        invariant
            i <= kept.len(),
            r.len() == i,
            forall|k: int| 0 <= k < i ==> r@[k]@ == binding_of(kept@[k]@),
        decreases kept.len() - i,
    {
        let field = &kept[i];
        r.push(
            FieldBinding {
                field: field.identifier.clone(),
                position: field.position,
                tag: field.tag_identifier.clone(),
            },
        );
        i += 1;
    }
    assert(r.deep_view() == kept.deep_view().map_values(|f: RetainedFieldView| binding_of(f)));
    r
}

/// Synthesizes the conversion routine that consumes the record. Its form
/// depends on whether the record has generic parameters.
pub fn value_converter(
    record_name: &str,
    generics: &GenericParams,
    enum_name: &str,
    kept: &Vec<RetainedField>,
) -> (r: ConverterSpec)
    ensures
        r@ == value_converter_of(record_name@, generics@, enum_name@, kept.deep_view()),
{
    let target = ArrayType { element: String::from_str(enum_name), len: kept.len() };
    if generics.is_empty() {
        let r = ConverterSpec {
            record: String::from_str(record_name),
            source: SourceShape::ByValue,
            form: ConverterForm::FromOnArray,
            generics: GenericParams { params: Vec::new(), where_clause: None },
            target,
            bindings: bindings(kept),
        };
        assert(r@.generics.params == Seq::<GenericParamView>::empty());
        r
    } else {
        ConverterSpec {
            record: String::from_str(record_name),
            source: SourceShape::ByValue,
            form: ConverterForm::IntoOnRecord,
            generics: generics.clone(),
            target,
            bindings: bindings(kept),
        }
    }
}

/// Synthesizes the conversion routine that borrows the record.
pub fn reference_converter(
    record_name: &str,
    generics: &GenericParams,
    enum_name: &str,
    kept: &Vec<RetainedField>,
) -> (r: ConverterSpec)
    ensures
        r@ == reference_converter_of(record_name@, generics@, enum_name@, kept.deep_view()),
{
    let lifetime = fresh_lifetime(&generics.params);
    let mut params: Vec<GenericParam> = Vec::new();
    params.push(
        GenericParam { name: lifetime.clone(), declaration: lifetime.clone(), default: None },
    );
    let mut i: usize = 0;
    while i < generics.params.len()
        invariant
            i <= generics.params.len(),
            params.len() == i + 1,
            params@[0]@ == lifetime_param(lifetime@),
            forall|k: int| 0 <= k < i ==> params@[k + 1]@ == generics.params@[k]@,
        decreases generics.params.len() - i,
    {
        params.push(generics.params[i].clone());
        i += 1;
    }
    assert(params.deep_view() == seq![lifetime_param(lifetime@)] + generics@.params);
    ConverterSpec {
        record: String::from_str(record_name),
        source: SourceShape::ByReference { lifetime },
        form: ConverterForm::FromOnArray,
        generics: GenericParams { params, where_clause: None },
        target: ArrayType { element: String::from_str(enum_name), len: kept.len() },
        bindings: bindings(kept),
    }
}

} // verus!
