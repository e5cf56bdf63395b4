//! Directive resolution: what the annotations on a field or on a record ask for.
//!
//! Two questions are answered here. Of one annotation on a field: does it mark
//! the field as skipped ([`has_skip_attr`])? Of the annotations on a record:
//! which derive list do they select for a generated enum ([`get_enum_derive`])?
//!
//! An annotation takes part only if its name is one of the recognized names
//! that the caller passes in; all others are passed over.

use crate::generated::{DeriveList, DeriveListView, DeriveSource};
use crate::schema::{AttributePayload, AttributePayloadView, AttributeSpec, AttributeSpecView};
use crate::text::{clone_texts, join_texts, joined, text_eq};
use vstd::prelude::*;
use vstd::string::StringExecFns;

verus! {

/// Why an annotation under a recognized name was refused.
#[derive(Debug, Clone, PartialEq, Eq)]
pub enum DirectiveError {
    /// The annotation has no value at all, as in `#[field_types]`.
    MissingValue,
    /// The annotation has an empty list, as in `#[field_types()]`.
    EmptyValue,
    /// The annotation has a payload other than the skip directive; what it
    /// carries is kept as written.
    UnknownValue(String),
}

/// The view of a [`DirectiveError`].
pub enum DirectiveErrorView {
    MissingValue,
    EmptyValue,
    UnknownValue(Seq<char>),
}

impl View for DirectiveError {
    type V = DirectiveErrorView;

    open spec fn view(&self) -> DirectiveErrorView {
        match self {
            DirectiveError::MissingValue => DirectiveErrorView::MissingValue,
            DirectiveError::EmptyValue => DirectiveErrorView::EmptyValue,
            DirectiveError::UnknownValue(value) => DirectiveErrorView::UnknownValue(value@),
        }
    }
}

/// What is reported for an annotation that was refused. The message names
/// the value that was not understood, where there is one.
pub open spec fn directive_message(error: DirectiveErrorView) -> Seq<char> {
    match error {
        DirectiveErrorView::MissingValue => "Unknown attribute value, only `skip` allowed."@,
        DirectiveErrorView::EmptyValue => "Attribute value can't be empty"@,
        DirectiveErrorView::UnknownValue(value) => "Unknown attribute value `"@ + value
            + "`, only `skip` allowed."@,
    }
}

impl DirectiveError {
    /// The message to report for this error.
    pub fn message(&self) -> (r: String)
        ensures
            r@ == directive_message(self@),
    {
        match self {
            DirectiveError::MissingValue => String::from_str(
                "Unknown attribute value, only `skip` allowed.",
            ),
            DirectiveError::EmptyValue => String::from_str("Attribute value can't be empty"),
            DirectiveError::UnknownValue(value) => {
                let mut r = String::from_str("Unknown attribute value `");
                r.append(value.as_str());
                r.append("`, only `skip` allowed.");
                r
            },
        }
    }
}

/// The answer to a skip test, over views.
pub type SkipOutcome = Result<bool, DirectiveErrorView>;

/// The view of the answer that an executable skip test gives.
pub open spec fn skip_outcome(r: Result<bool, DirectiveError>) -> SkipOutcome {
    match r {
        Ok(skip) => Ok(skip),
        Err(e) => Err(e@),
    }
}

/// Whether a payload is the skip directive. It has two forms and no
/// others: a list of the one item `skip`, as in `#[name(skip)]`, and the
/// string literal `"skip"`, as in `#[name = "skip"]`.
pub open spec fn says_skip(payload: AttributePayloadView) -> bool {
    match payload {
        AttributePayloadView::List(items) => items.len() == 1 && items[0] == "skip"@,
        AttributePayloadView::NameValue(literal) => literal == "\"skip\""@,
        _ => false,
    }
}

/// Why a payload that is not the skip directive is refused under a
/// recognized name. Where the payload has a value, the error names it as
/// written; the items of a list are named together.
pub open spec fn refusal(payload: AttributePayloadView) -> DirectiveErrorView {
    match payload {
        AttributePayloadView::Bare => DirectiveErrorView::MissingValue,
        AttributePayloadView::List(items) => if items.len() == 0 {
            DirectiveErrorView::EmptyValue
        } else {
            DirectiveErrorView::UnknownValue(joined(items))
        },
        AttributePayloadView::NameValue(literal) => DirectiveErrorView::UnknownValue(literal),
        AttributePayloadView::Other(text) => DirectiveErrorView::UnknownValue(text),
    }
}

/// What one annotation says about skipping, given the recognized names.
///
/// An annotation under another name says nothing (`Ok(false)`), whatever it
/// carries. Under a recognized name the payload must be the skip directive;
/// any other payload is an error.
pub open spec fn skip_directive(attr: AttributeSpecView, names: Seq<Seq<char>>) -> SkipOutcome {
    if !names.contains(attr.name) {
        Ok(false)
    } else if says_skip(attr.payload) {
        Ok(true)
    } else {
        Err(refusal(attr.payload))
    }
}

/// Whether `name` is one of `names`.
pub fn is_recognized(name: &str, names: &[&str]) -> (r: bool)
    ensures
        r == names.deep_view().contains(name@),
{
    let mut i: usize = 0;
    while i < names.len()
        invariant
            i <= names.len(),
            forall|k: int| 0 <= k < i ==> names.deep_view()[k] != name@,
        decreases names.len() - i,
    {
        if text_eq(names[i], name) {
            assert(names.deep_view()[i as int] == name@);
            return true;
        }
        i += 1;
    }
    false
}

/// The skip test for one annotation: `Ok(true)` if it marks its field as
/// skipped, `Ok(false)` if its name is not recognized, and an error if it has
/// a recognized name and any payload but the skip directive.
pub fn has_skip_attr(attr: &AttributeSpec, attr_names: &[&str]) -> (r: Result<
    bool,
    DirectiveError,
>)
    ensures
        skip_outcome(r) == skip_directive(attr@, attr_names.deep_view()),
{
    if !is_recognized(attr.name.as_str(), attr_names) {
        return Ok(false);
    }
    match &attr.payload {
        AttributePayload::Bare => Err(DirectiveError::MissingValue),
        AttributePayload::List(items) => {
            if items.len() == 0 {
                Err(DirectiveError::EmptyValue)
            } else if items.len() == 1 && text_eq(items[0].as_str(), "skip") {
                Ok(true)
            } else {
                Err(DirectiveError::UnknownValue(join_texts(items)))
            }
        },
        AttributePayload::NameValue(literal) => {
            if text_eq(literal.as_str(), "\"skip\"") {
                Ok(true)
            } else {
                Err(DirectiveError::UnknownValue(literal.clone()))
            }
        },
        AttributePayload::Other(text) => Err(DirectiveError::UnknownValue(text.clone())),
    }
}

/// Whether an annotation overrides the derive list: its name is recognized
/// and it carries a list.
pub open spec fn is_derive_override(attr: AttributeSpecView, names: Seq<Seq<char>>) -> bool {
    names.contains(attr.name) && attr.payload is List
}

/// The derive list that a record's annotations select: the list of the first
/// annotation, in the order written, that overrides it; the default if none does.
pub open spec fn resolve_derive(
    attrs: Seq<AttributeSpecView>,
    names: Seq<Seq<char>>,
    default: Seq<Seq<char>>,
) -> DeriveListView
    decreases attrs.len(),
{
    if attrs.len() == 0 {
        DeriveListView { source: DeriveSource::Default, targets: default }
    } else if is_derive_override(attrs[0], names) {
        DeriveListView { source: DeriveSource::Override, targets: attrs[0].payload->List_0 }
    } else {
        resolve_derive(attrs.drop_first(), names, default)
    }
}

/// First match wins: the first annotation that overrides the derive list
/// gives the list, whatever follows it.
pub proof fn lemma_first_override_wins(
    attrs: Seq<AttributeSpecView>,
    names: Seq<Seq<char>>,
    default: Seq<Seq<char>>,
    index: int,
)
    requires
        0 <= index < attrs.len(),
        is_derive_override(attrs[index], names),
        forall|j: int| 0 <= j < index ==> !is_derive_override(#[trigger] attrs[j], names),
    ensures
        resolve_derive(attrs, names, default) == (DeriveListView {
            source: DeriveSource::Override,
            targets: attrs[index].payload->List_0,
        }),
    decreases attrs.len(),
{
    if index > 0 {
        let rest = attrs.drop_first();
        assert(!is_derive_override(attrs[0], names));
        assert forall|j: int| 0 <= j < index - 1 implies !is_derive_override(
            #[trigger] rest[j],
            names,
        ) by {
            assert(rest[j] == attrs[j + 1]);
        }
        lemma_first_override_wins(rest, names, default, index - 1);
    }
}

/// Without an annotation that overrides it, the derive list is the default.
pub proof fn lemma_no_override_gives_default(
    attrs: Seq<AttributeSpecView>,
    names: Seq<Seq<char>>,
    default: Seq<Seq<char>>,
)
    requires
        forall|j: int| 0 <= j < attrs.len() ==> !is_derive_override(#[trigger] attrs[j], names),
    ensures
        resolve_derive(attrs, names, default) == (DeriveListView {
            source: DeriveSource::Default,
            targets: default,
        }),
    decreases attrs.len(),
{
    if attrs.len() > 0 {
        let rest = attrs.drop_first();
        assert(!is_derive_override(attrs[0], names));
        assert forall|j: int| 0 <= j < rest.len() implies !is_derive_override(
            #[trigger] rest[j],
            names,
        ) by {
            assert(rest[j] == attrs[j + 1]);
        }
        lemma_no_override_gives_default(rest, names, default);
    }
}

/// Resolves the derive list of a generated enum from the record's annotations.
///
/// `derive_attr_names` are the annotation names that may override the list
/// for this kind of enum. The first annotation with one of these names and a
/// list wins, whichever of the names it has; `default` is returned, marked as
/// the default, when there is none.
pub fn get_enum_derive(
    attrs: &Vec<AttributeSpec>,
    derive_attr_names: &[&str],
    default: Vec<String>,
) -> (r: DeriveList)
    ensures
        r@ == resolve_derive(
            attrs.deep_view(),
            derive_attr_names.deep_view(),
            default.deep_view(),
        ),
{
    let ghost all = attrs.deep_view();
    let ghost names = derive_attr_names.deep_view();
    assert(all.skip(0) == all);
    let mut i: usize = 0;
    while i < attrs.len()
        invariant
            i <= attrs.len(),
            all == attrs.deep_view(),
            names == derive_attr_names.deep_view(),
            resolve_derive(all, names, default.deep_view()) == resolve_derive(
                all.skip(i as int),
                names,
                default.deep_view(),
            ),
        decreases attrs.len() - i,
    {
        let attr = &attrs[i];
        proof {
            assert(all.skip(i as int)[0] == attr@);
            assert(all.skip(i as int).drop_first() == all.skip(i + 1));
        }
        if is_recognized(attr.name.as_str(), derive_attr_names) {
            if let AttributePayload::List(items) = &attr.payload {
                return DeriveList { source: DeriveSource::Override, targets: clone_texts(items) };
            }
        }
        i += 1;
    }
    DeriveList { source: DeriveSource::Default, targets: default }
}

} // verus!
