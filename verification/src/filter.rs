//! Field filtering and naming: which fields of a record get a variant, and
//! what each variant is called.

use crate::directive::{
    has_skip_attr, skip_directive, skip_outcome, DirectiveError, DirectiveErrorView, SkipOutcome,
};
use crate::schema::{AttributeSpec, AttributeSpecView, FieldSpec, FieldSpecView};
use heck::CamelCase;
use vstd::prelude::*;
use vstd::string::StringExecFns;

verus! {

/// The tag that `heck` derives from an identifier: its upper camel case form,
/// as `heck::CamelCase::to_camel_case` computes it.
pub uninterp spec fn camel_case(identifier: Seq<char>) -> Seq<char>;

/// Calls `heck::CamelCase::to_camel_case` on `identifier`.
///
/// Nothing is proved of this call. It is assumed to return, and to return the
/// same tag whenever it is given the same identifier; `camel_case` is the name
/// of that tag.
#[verifier::external_body]
fn to_camel_case(identifier: &str) -> (tag: String)
    ensures
        tag@ == camel_case(identifier@),
{
    identifier.to_camel_case()
}

/// A field that survived filtering, with the tag of its variant.
#[derive(Debug, Clone, PartialEq, Eq)]
pub struct RetainedField {
    /// The field's name, as declared.
    pub identifier: String,
    /// The field's declared type, as written.
    pub type_expr: String,
    /// The name of the field's variant in the generated enums.
    pub tag_identifier: String,
    /// The field's index among the declared fields of the record.
    pub position: usize,
}

/// The view of a [`RetainedField`].
pub struct RetainedFieldView {
    pub identifier: Seq<char>,
    pub type_expr: Seq<char>,
    pub tag_identifier: Seq<char>,
    pub position: nat,
}

impl View for RetainedField {
    type V = RetainedFieldView;

    open spec fn view(&self) -> RetainedFieldView {
        RetainedFieldView {
            identifier: self.identifier@,
            type_expr: self.type_expr@,
            tag_identifier: self.tag_identifier@,
            position: self.position as nat,
        }
    }
}

impl DeepView for RetainedField {
    type V = RetainedFieldView;

    open spec fn deep_view(&self) -> RetainedFieldView {
        self@
    }
}

/// The outcome of a filtering, over views.
pub type Filtered = Result<Seq<RetainedFieldView>, DirectiveErrorView>;

/// The view of the outcome that a filtering returns.
pub open spec fn filtered(r: Result<Vec<RetainedField>, DirectiveError>) -> Filtered {
    match r {
        Ok(kept) => Ok(kept.deep_view()),
        Err(e) => Err(e@),
    }
}

/// The annotation names that mark a field as skipped: the family name, which
/// counts for every generated enum, and the name for one kind of enum.
pub open spec fn skip_names(skip_attr_name: Seq<char>) -> Seq<Seq<char>> {
    seq!["field_types"@, skip_attr_name]
}

/// What the annotations of one field say about skipping it.
///
/// Every annotation is read, in the order written. The first one that is in
/// error (a recognized name with a payload other than the skip directive)
/// fails the field, wherever it stands and whatever the others say. If none
/// is in error, the field is skipped exactly when one of them marks it so.
pub open spec fn field_skip(attrs: Seq<AttributeSpecView>, names: Seq<Seq<char>>) -> SkipOutcome
    decreases attrs.len(),
{
    if attrs.len() == 0 {
        Ok(false)
    } else {
        match field_skip(attrs.drop_last(), names) {
            Err(e) => Err(e),
            Ok(before) => match skip_directive(attrs.last(), names) {
                Err(e) => Err(e),
                Ok(here) => Ok(before || here),
            },
        }
    }
}

/// An error among the first `n` annotations is the error of the whole list.
pub proof fn lemma_skip_error_is_final(
    attrs: Seq<AttributeSpecView>,
    names: Seq<Seq<char>>,
    n: int,
)
    requires
        0 <= n <= attrs.len(),
        field_skip(attrs.take(n), names) is Err,
    ensures
        field_skip(attrs, names) == field_skip(attrs.take(n), names),
    decreases attrs.len() - n,
{
    if n == attrs.len() {
        assert(attrs.take(n) == attrs);
    } else {
        assert(attrs.take(n + 1).drop_last() == attrs.take(n));
        lemma_skip_error_is_final(attrs, names, n + 1);
    }
}

/// Whether the annotation at `index` is the first, in the order written,
/// that is in error, and `error` is its error.
pub open spec fn is_first_wrong(
    attrs: Seq<AttributeSpecView>,
    names: Seq<Seq<char>>,
    index: int,
    error: DirectiveErrorView,
) -> bool {
    &&& 0 <= index < attrs.len()
    &&& skip_directive(attrs[index], names) == Err::<bool, DirectiveErrorView>(error)
    &&& forall|j: int| 0 <= j < index ==> skip_directive(#[trigger] attrs[j], names) is Ok
}

/// Whether some annotation marks its field as skipped.
pub open spec fn some_says_skip(attrs: Seq<AttributeSpecView>, names: Seq<Seq<char>>) -> bool {
    exists|j: int|
        0 <= j < attrs.len() && skip_directive(#[trigger] attrs[j], names) == Ok::<
            bool,
            DirectiveErrorView,
        >(true)
}

/// A field fails with the error of its first annotation in error. A field
/// without such an annotation is skipped exactly when some annotation marks
/// it so.
pub proof fn lemma_field_skip_is_exact(attrs: Seq<AttributeSpecView>, names: Seq<Seq<char>>)
    ensures
        field_skip(attrs, names) matches Err(error) ==> exists|index: int|
            is_first_wrong(attrs, names, index, error),
        field_skip(attrs, names) matches Ok(skipped) ==> {
            &&& forall|j: int|
                0 <= j < attrs.len() ==> skip_directive(#[trigger] attrs[j], names) is Ok
            &&& skipped == some_says_skip(attrs, names)
        },
    decreases attrs.len(),
{
    if attrs.len() > 0 {
        let before = attrs.drop_last();
        let here = attrs.len() - 1;
        lemma_field_skip_is_exact(before, names);
        assert forall|j: int| 0 <= j < before.len() implies before[j] == attrs[j] by {}
        match field_skip(before, names) {
            Err(error) => {
                let index = choose|index: int| is_first_wrong(before, names, index, error);
                assert(is_first_wrong(attrs, names, index, error));
            },
            Ok(prior) => {
                match skip_directive(attrs[here], names) {
                    Err(error) => {
                        assert(is_first_wrong(attrs, names, here, error));
                    },
                    Ok(last) => {
                        if some_says_skip(before, names) {
                            let j = choose|j: int|
                                0 <= j < before.len() && skip_directive(
                                    #[trigger] before[j],
                                    names,
                                ) == Ok::<bool, DirectiveErrorView>(true);
                            assert(skip_directive(attrs[j], names) == Ok::<
                                bool,
                                DirectiveErrorView,
                            >(true));
                        }
                        if some_says_skip(attrs, names) {
                            let j = choose|j: int|
                                0 <= j < attrs.len() && skip_directive(
                                    #[trigger] attrs[j],
                                    names,
                                ) == Ok::<bool, DirectiveErrorView>(true);
                            if j < here {
                                assert(skip_directive(before[j], names) == Ok::<
                                    bool,
                                    DirectiveErrorView,
                                >(true));
                            }
                        }
                    },
                }
            },
        }
    }
}

/// An annotation in error fails its field, wherever it stands among the
/// field's annotations: the field fails with the error of the first such
/// annotation, also when an earlier one marks the field as skipped.
pub proof fn lemma_wrong_annotation_fails(
    attrs: Seq<AttributeSpecView>,
    names: Seq<Seq<char>>,
    index: int,
    error: DirectiveErrorView,
)
    requires
        is_first_wrong(attrs, names, index, error),
    ensures
        field_skip(attrs, names) == Err::<bool, DirectiveErrorView>(error),
{
    lemma_field_skip_is_exact(attrs, names);
    match field_skip(attrs, names) {
        Err(other) => {
            let found = choose|found: int| is_first_wrong(attrs, names, found, other);
            if found < index {
                assert(skip_directive(attrs[found], names) is Ok);
            } else if index < found {
                assert(skip_directive(attrs[index], names) is Ok);
            }
        },
        Ok(skipped) => {
            assert(skip_directive(attrs[index], names) is Ok);
        },
    }
}

/// A field without an annotation under a recognized name is not skipped,
/// whatever its annotations carry.
pub proof fn lemma_unrecognized_never_skips(attrs: Seq<AttributeSpecView>, names: Seq<Seq<char>>)
    requires
        forall|j: int| 0 <= j < attrs.len() ==> !names.contains((#[trigger] attrs[j]).name),
    ensures
        field_skip(attrs, names) == Ok::<bool, DirectiveErrorView>(false),
    decreases attrs.len(),
{
    if attrs.len() > 0 {
        let before = attrs.drop_last();
        assert forall|j: int| 0 <= j < before.len() implies !names.contains(
            (#[trigger] before[j]).name,
        ) by {
            assert(before[j] == attrs[j]);
        }
        lemma_unrecognized_never_skips(before, names);
        assert(!names.contains(attrs[attrs.len() - 1].name));
    }
}

/// Annotations count only through what each says about skipping: two lists
/// that say the same, one by one, decide the same about their field.
pub proof fn lemma_skip_depends_on_directives(
    a: Seq<AttributeSpecView>,
    b: Seq<AttributeSpecView>,
    names: Seq<Seq<char>>,
)
    requires
        a.len() == b.len(),
        forall|i: int|
            0 <= i < a.len() ==> skip_directive(#[trigger] a[i], names) == skip_directive(
                b[i],
                names,
            ),
    ensures
        field_skip(a, names) == field_skip(b, names),
    decreases a.len(),
{
    if a.len() > 0 {
        let x = a.drop_last();
        let y = b.drop_last();
        assert forall|i: int| 0 <= i < x.len() implies skip_directive(#[trigger] x[i], names)
            == skip_directive(y[i], names) by {
            assert(x[i] == a[i]);
            assert(y[i] == b[i]);
        }
        lemma_skip_depends_on_directives(x, y, names);
        assert(skip_directive(a[a.len() - 1], names) == skip_directive(b[a.len() - 1], names));
    }
}

/// Whether a field is kept: it is not skipped and it has a name.
pub open spec fn is_kept(field: FieldSpecView, names: Seq<Seq<char>>) -> bool {
    field_skip(field.attributes, names) == Ok::<bool, DirectiveErrorView>(false)
        && field.identifier is Some
}

/// The retained form of a kept field declared at `position`.
pub open spec fn retained_of(field: FieldSpecView, position: nat) -> RetainedFieldView
    recommends
        field.identifier is Some,
{
    RetainedFieldView {
        identifier: field.identifier->0,
        type_expr: field.type_expr,
        tag_identifier: camel_case(field.identifier->0),
        position,
    }
}

/// The fields that are retained, in declaration order, or the first
/// annotation error in declaration order. An error in any field is reported,
/// whether or not that field has a name.
pub open spec fn retain_fields(fields: Seq<FieldSpecView>, names: Seq<Seq<char>>) -> Filtered
    decreases fields.len(),
{
    if fields.len() == 0 {
        Ok(Seq::empty())
    } else {
        let last = fields.last();
        match retain_fields(fields.drop_last(), names) {
            Err(e) => Err(e),
            Ok(before) => match field_skip(last.attributes, names) {
                Err(e) => Err(e),
                Ok(skipped) => if skipped || last.identifier is None {
                    Ok(before)
                } else {
                    Ok(before.push(retained_of(last, (fields.len() - 1) as nat)))
                },
            },
        }
    }
}

/// An error among the first `n` fields is the error of the whole list.
pub proof fn lemma_retain_error_is_final(
    fields: Seq<FieldSpecView>,
    names: Seq<Seq<char>>,
    n: int,
)
    requires
        0 <= n <= fields.len(),
        retain_fields(fields.take(n), names) is Err,
    ensures
        retain_fields(fields, names) == retain_fields(fields.take(n), names),
    decreases fields.len() - n,
{
    if n == fields.len() {
        assert(fields.take(n) == fields);
    } else {
        assert(fields.take(n + 1).drop_last() == fields.take(n));
        lemma_retain_error_is_final(fields, names, n + 1);
    }
}

/// Whether `kept` is the selection of the kept fields of `fields`: no field
/// has an annotation in error, every element of `kept` is the retained form
/// of a kept field at its position, the positions ascend, and no kept field
/// is missing.
pub open spec fn is_selection(
    fields: Seq<FieldSpecView>,
    names: Seq<Seq<char>>,
    kept: Seq<RetainedFieldView>,
) -> bool {
    &&& forall|i: int|
        0 <= i < fields.len() ==> field_skip((#[trigger] fields[i]).attributes, names) is Ok
    &&& forall|k: int|
        0 <= k < kept.len() ==> {
            let position = (#[trigger] kept[k]).position;
            &&& position < fields.len()
            &&& is_kept(fields[position as int], names)
            &&& kept[k] == retained_of(fields[position as int], position)
        }
    &&& forall|j: int, k: int|
        0 <= j < k < kept.len() ==> (#[trigger] kept[j]).position < (#[trigger] kept[k]).position
    &&& forall|i: int|
        0 <= i < fields.len() && is_kept(#[trigger] fields[i], names) ==> exists|k: int|
            0 <= k < kept.len() && (#[trigger] kept[k]).position == i
}

/// Whether the field at `index` is the first, in declaration order, with an
/// annotation in error, and `error` is that error.
pub open spec fn is_first_error(
    fields: Seq<FieldSpecView>,
    names: Seq<Seq<char>>,
    index: int,
    error: DirectiveErrorView,
) -> bool {
    &&& 0 <= index < fields.len()
    &&& field_skip(fields[index].attributes, names) == Err::<bool, DirectiveErrorView>(error)
    &&& forall|j: int| 0 <= j < index ==> field_skip((#[trigger] fields[j]).attributes, names) is Ok
}

/// Filtering succeeds exactly when no field has an annotation in error, and
/// what it returns is then the selection of the kept fields.
pub proof fn lemma_retained_is_selection(fields: Seq<FieldSpecView>, names: Seq<Seq<char>>)
    ensures
        retain_fields(fields, names) matches Ok(kept) ==> is_selection(fields, names, kept),
        retain_fields(fields, names) matches Err(error) ==> exists|index: int|
            is_first_error(fields, names, index, error),
    decreases fields.len(),
{
    if fields.len() > 0 {
        let before = fields.drop_last();
        let last = fields.last();
        let here = fields.len() - 1;
        lemma_retained_is_selection(before, names);
        assert forall|i: int| 0 <= i < before.len() implies before[i] == fields[i] by {}
        match retain_fields(before, names) {
            Err(error) => {
                let index = choose|index: int| is_first_error(before, names, index, error);
                assert(is_first_error(fields, names, index, error));
            },
            Ok(prior) => {
                match field_skip(last.attributes, names) {
                    Err(error) => {
                        assert(is_first_error(fields, names, here, error));
                    },
                    Ok(skipped) => {
                        let kept = retain_fields(fields, names)->Ok_0;
                        assert forall|i: int|
                            0 <= i < fields.len() && is_kept(
                                #[trigger] fields[i],
                                names,
                            ) implies exists|k: int|
                            0 <= k < kept.len() && (#[trigger] kept[k]).position == i by {
                            if i < here {
                                assert(is_kept(before[i], names));
                                let k = choose|k: int|
                                    0 <= k < prior.len() && (#[trigger] prior[k]).position == i;
                                assert(kept[k].position == i);
                            } else {
                                assert(kept[kept.len() - 1].position == i);
                            }
                        }
                        assert(is_selection(fields, names, kept));
                    },
                }
            },
        }
    }
}

/// Two selections of the same fields take the same positions, as far as
/// both reach.
proof fn lemma_selections_agree_at(
    fields: Seq<FieldSpecView>,
    names: Seq<Seq<char>>,
    a: Seq<RetainedFieldView>,
    b: Seq<RetainedFieldView>,
    k: int,
)
    requires
        is_selection(fields, names, a),
        is_selection(fields, names, b),
        0 <= k < a.len(),
        0 <= k < b.len(),
    ensures
        a[k].position == b[k].position,
    decreases k,
{
    assert forall|j: int| 0 <= j < k implies a[j].position == b[j].position by {
        lemma_selections_agree_at(fields, names, a, b, j);
    }
    let p = a[k].position as int;
    assert(is_kept(fields[p], names));
    let m = choose|m: int| 0 <= m < b.len() && (#[trigger] b[m]).position == p;
    if m < k {
        assert(a[m].position == b[m].position);
        assert(a[m].position < a[k].position);
    }
    let q = b[k].position as int;
    assert(is_kept(fields[q], names));
    let n = choose|n: int| 0 <= n < a.len() && (#[trigger] a[n]).position == q;
    if n < k {
        assert(a[n].position == b[n].position);
        assert(b[n].position < b[k].position);
    }
    if k < m {
        assert(b[k].position < b[m].position);
    }
    if k < n {
        assert(a[k].position < a[n].position);
    }
}

/// A selection that reaches as far as another is not longer.
proof fn lemma_selection_is_not_longer(
    fields: Seq<FieldSpecView>,
    names: Seq<Seq<char>>,
    a: Seq<RetainedFieldView>,
    b: Seq<RetainedFieldView>,
)
    requires
        is_selection(fields, names, a),
        is_selection(fields, names, b),
    ensures
        a.len() <= b.len(),
{
    if a.len() > b.len() {
        let k = b.len() as int;
        let p = a[k].position as int;
        assert(is_kept(fields[p], names));
        let m = choose|m: int| 0 <= m < b.len() && (#[trigger] b[m]).position == p;
        lemma_selections_agree_at(fields, names, a, b, m);
        assert(a[m].position < a[k].position);
    }
}

/// The fields of a record have one selection only: filtering returns it and
/// nothing else.
pub proof fn lemma_selection_is_retained(
    fields: Seq<FieldSpecView>,
    names: Seq<Seq<char>>,
    kept: Seq<RetainedFieldView>,
)
    requires
        is_selection(fields, names, kept),
    ensures
        retain_fields(fields, names) == Filtered::Ok(kept),
{
    lemma_retained_is_selection(fields, names);
    match retain_fields(fields, names) {
        Err(error) => {
            let index = choose|index: int| is_first_error(fields, names, index, error);
            assert(field_skip(fields[index].attributes, names) is Ok);
        },
        Ok(other) => {
            lemma_selection_is_not_longer(fields, names, kept, other);
            lemma_selection_is_not_longer(fields, names, other, kept);
            assert forall|k: int| 0 <= k < kept.len() implies kept[k] == other[k] by {
                lemma_selections_agree_at(fields, names, kept, other, k);
            }
            assert(kept =~= other);
        },
    }
}

/// The number of kept fields of a record.
pub open spec fn kept_count(fields: Seq<FieldSpecView>, names: Seq<Seq<char>>) -> nat
    decreases fields.len(),
{
    if fields.len() == 0 {
        0
    } else if is_kept(fields.last(), names) {
        kept_count(fields.drop_last(), names) + 1
    } else {
        kept_count(fields.drop_last(), names)
    }
}

/// As many fields are retained as are kept, and no more than are declared.
pub proof fn lemma_retained_count(fields: Seq<FieldSpecView>, names: Seq<Seq<char>>)
    ensures
        kept_count(fields, names) <= fields.len(),
        retain_fields(fields, names) matches Ok(kept) ==> kept.len() == kept_count(fields, names),
    decreases fields.len(),
{
    if fields.len() > 0 {
        lemma_retained_count(fields.drop_last(), names);
    }
}

/// Fields count only through their names, their types and what their
/// annotations decide: two records that agree in these, field by field,
/// retain the same.
pub proof fn lemma_retained_depends_on_skips(
    a: Seq<FieldSpecView>,
    b: Seq<FieldSpecView>,
    names: Seq<Seq<char>>,
)
    requires
        a.len() == b.len(),
        forall|i: int|
            0 <= i < a.len() ==> {
                &&& (#[trigger] a[i]).identifier == b[i].identifier
                &&& a[i].type_expr == b[i].type_expr
                &&& field_skip(a[i].attributes, names) == field_skip(b[i].attributes, names)
            },
    ensures
        retain_fields(a, names) == retain_fields(b, names),
    decreases a.len(),
{
    if a.len() > 0 {
        let x = a.drop_last();
        let y = b.drop_last();
        assert forall|i: int| 0 <= i < x.len() implies {
            &&& (#[trigger] x[i]).identifier == y[i].identifier
            &&& x[i].type_expr == y[i].type_expr
            &&& field_skip(x[i].attributes, names) == field_skip(y[i].attributes, names)
        } by {
            assert(x[i] == a[i]);
            assert(y[i] == b[i]);
        }
        lemma_retained_depends_on_skips(x, y, names);
        let last = a.len() - 1;
        assert(a[last].identifier == b[last].identifier);
    }
}

/// Whether the annotations of a field mark it as skipped. Every annotation
/// is read; the first one in error fails the test.
pub fn is_skipped(attrs: &Vec<AttributeSpec>, attr_names: &[&str]) -> (r: Result<
    bool,
    DirectiveError,
>)
    ensures
        skip_outcome(r) == field_skip(attrs.deep_view(), attr_names.deep_view()),
{
    let ghost all = attrs.deep_view();
    let ghost names = attr_names.deep_view();
    assert(all.take(0).len() == 0);
    let mut skipped = false;
    let mut i: usize = 0;
    while i < attrs.len()
        invariant
            i <= attrs.len(),
            all == attrs.deep_view(),
            names == attr_names.deep_view(),
            field_skip(all.take(i as int), names) == Ok::<bool, DirectiveErrorView>(skipped),
        decreases attrs.len() - i,
    {
        proof {
            assert(all.take(i + 1).drop_last() == all.take(i as int));
            assert(all.take(i + 1).last() == attrs[i as int]@);
        }
        match has_skip_attr(&attrs[i], attr_names) {
            Err(e) => {
                proof {
                    lemma_skip_error_is_final(all, names, i + 1);
                }
                return Err(e);
            },
            Ok(here) => {
                if here {
                    skipped = true;
                }
            },
        }
        i += 1;
    }
    assert(all.take(attrs.len() as int) == all);
    Ok(skipped)
}

/// The retained form of the field called `identifier`, of type `type_expr`
/// and declared at `position`, under the tag `tag`.
pub fn retained(identifier: &str, type_expr: &str, position: usize, tag: String) -> (r:
    RetainedField)
    ensures
        r@ == (RetainedFieldView {
            identifier: identifier@,
            type_expr: type_expr@,
            tag_identifier: tag@,
            position: position as nat,
        }),
{
    RetainedField {
        identifier: String::from_str(identifier),
        type_expr: String::from_str(type_expr),
        tag_identifier: tag,
        position,
    }
}

/// Filters the declared fields of a record and names their variants.
///
/// A field is dropped if an annotation marks it as skipped or if it has no
/// name. The annotation names that count are `field_types` and
/// `skip_attr_name`. Every other field is retained, in declaration order,
/// under the camel case form of its name. An annotation in error fails the
/// whole call, on whichever field it stands and whatever else that field
/// carries; the error is that of the first such annotation in declaration
/// order.
pub fn filter_fields(fields: &Vec<FieldSpec>, skip_attr_name: &str) -> (r: Result<
    Vec<RetainedField>,
    DirectiveError,
>)
    ensures
        filtered(r) == retain_fields(fields.deep_view(), skip_names(skip_attr_name@)),
{
    let attr_names: [&str; 2] = ["field_types", skip_attr_name];
    let ghost all = fields.deep_view();
    let ghost names = skip_names(skip_attr_name@);
    assert(attr_names.deep_view() == names);
    let mut kept: Vec<RetainedField> = Vec::new();
    let mut i: usize = 0;
    assert(all.take(0) == Seq::<FieldSpecView>::empty());
    assert(kept.deep_view() == Seq::<RetainedFieldView>::empty());
    while i < fields.len()
        invariant
            i <= fields.len(),
            all == fields.deep_view(),
            names == skip_names(skip_attr_name@),
            attr_names.deep_view() == names,
            retain_fields(all.take(i as int), names) == Filtered::Ok(kept.deep_view()),
        decreases fields.len() - i,
    {
        let field = &fields[i];
        let ghost before = kept.deep_view();
        proof {
            assert(all.take(i + 1).drop_last() == all.take(i as int));
            assert(all.take(i + 1).last() == field@);
        }
        match is_skipped(&field.attributes, &attr_names) {
            Err(e) => {
                proof {
                    lemma_retain_error_is_final(all, names, i + 1);
                }
                return Err(e);
            },
            Ok(skipped) => {
                if !skipped {
                    if let Some(identifier) = &field.identifier {
                        let tag = to_camel_case(identifier.as_str());
                        kept.push(retained(identifier.as_str(), field.type_expr.as_str(), i, tag));
                        assert(kept.deep_view() == before.push(retained_of(field@, i as nat)));
                    }
                }
            },
        }
        i += 1;
    }
    assert(all.take(fields.len() as int) == all);
    Ok(kept)
}

} // verus!
