//! What the generated declarations do: the name lookups of a generated enum
//! and the conversions from a record to an array of variants.
//!
//! A value of a generated enum is known by the index of its variant. A record
//! is known by the values of its declared fields, in declaration order.

use crate::generated::{
    ConverterSpec, ConverterSpecView, GeneratedEnum, GeneratedEnumView, VariantSpecView,
};
use crate::text::text_eq;
use vstd::prelude::*;

verus! {

/// A value of a type enum: the value of one field inside the field's variant.
#[derive(Debug, Clone, PartialEq, Eq)]
pub struct FieldValue<V> {
    /// The index of the variant.
    pub variant: usize,
    /// The value that the variant wraps.
    pub payload: V,
}

/// Whether `variant` is the first variant, in declaration order, that
/// stands for a field called `name`.
pub open spec fn is_first_match(
    variants: Seq<VariantSpecView>,
    name: Seq<char>,
    variant: int,
) -> bool {
    &&& 0 <= variant < variants.len()
    &&& variants[variant].field == name
    &&& forall|j: int| 0 <= j < variant ==> (#[trigger] variants[j]).field != name
}

/// Whether some variant stands for a field called `name`.
pub open spec fn has_match(variants: Seq<VariantSpecView>, name: Seq<char>) -> bool {
    exists|i: int| 0 <= i < variants.len() && (#[trigger] variants[i]).field == name
}

impl GeneratedEnumView {
    /// The forward lookup: the name of the field that a variant stands for.
    pub open spec fn name_of(self, variant: int) -> Seq<char>
        recommends
            0 <= variant < self.variants.len(),
    {
        self.variants[variant].field
    }

    /// The reverse lookup: the first variant that stands for a field called
    /// `name`, if there is one.
    pub open spec fn variant_named(self, name: Seq<char>) -> Option<int> {
        if has_match(self.variants, name) {
            Some(choose|variant: int| is_first_match(self.variants, name, variant))
        } else {
            None
        }
    }
}

/// The first match is the answer of the reverse lookup.
pub proof fn lemma_first_match_is_found(e: GeneratedEnumView, name: Seq<char>, variant: int)
    requires
        is_first_match(e.variants, name, variant),
    ensures
        e.variant_named(name) == Some(variant),
{
    assert(has_match(e.variants, name));
    let chosen = choose|v: int| is_first_match(e.variants, name, v);
    assert(is_first_match(e.variants, name, chosen));
}

impl ConverterSpecView {
    /// The bindings are one for each element of the array, and they take the
    /// fields in declaration order.
    pub open spec fn well_formed(self) -> bool {
        &&& self.bindings.len() == self.target.len
        &&& forall|j: int, k: int|
            0 <= j < k < self.bindings.len() ==> (#[trigger] self.bindings[j]).position < (
            #[trigger] self.bindings[k]).position
    }

    /// Every binding takes a field that a record of `len` fields has.
    pub open spec fn fits(self, len: nat) -> bool {
        forall|k: int| 0 <= k < self.bindings.len() ==> (#[trigger] self.bindings[k]).position < len
    }

    /// The array that the conversion by value builds from a record: for each
    /// binding in order, the value of its field inside its variant.
    pub open spec fn converted<V>(self, record: Seq<V>) -> Seq<FieldValue<V>> {
        Seq::new(
            self.bindings.len(),
            |k: int|
                FieldValue {
                    variant: k as usize,
                    payload: record[self.bindings[k].position as int],
                },
        )
    }

    /// The array that the conversion by reference builds: every variant of
    /// the name enum, in declaration order.
    pub open spec fn all_variants(self) -> Seq<usize> {
        Seq::new(self.bindings.len(), |k: int| k as usize)
    }
}

impl GeneratedEnum {
    /// The variant called `tag`: the first one of that name in declaration
    /// order, `None` if there is none.
    pub fn variant(&self, tag: &str) -> (r: Option<usize>)
        ensures
            match r {
                Some(variant) => {
                    &&& variant < self@.variants.len()
                    &&& self@.variants[variant as int].tag == tag@
                    &&& forall|j: int|
                        0 <= j < variant ==> (#[trigger] self@.variants[j]).tag != tag@
                },
                None => forall|j: int|
                    0 <= j < self@.variants.len() ==> (#[trigger] self@.variants[j]).tag != tag@,
            },
    {
        let mut i: usize = 0;
        while i < self.variants.len()
            invariant
                i <= self.variants.len(),
                forall|j: int| 0 <= j < i ==> (#[trigger] self@.variants[j]).tag != tag@,
            decreases self.variants.len() - i,
        {
            if text_eq(self.variants[i].tag.as_str(), tag) {
                assert(self@.variants[i as int].tag == tag@);
                return Some(i);
            }
            i += 1;
        }
        None
    }

    /// The name of the field that `variant` stands for, as the field was
    /// declared.
    pub fn name(&self, variant: usize) -> (r: &str)
        requires
            variant < self.variants.len(),
        ensures
            r@ == self@.name_of(variant as int),
    {
        self.variants[variant].field.as_str()
    }

    /// The variant that stands for the field called `name`; `None` if no
    /// variant does. Names are compared exactly. Variants are tried in
    /// declaration order and the first match is returned.
    pub fn by_name(&self, name: &str) -> (r: Option<usize>)
        ensures
            r is Some <==> has_match(self@.variants, name@),
            r matches Some(variant) ==> is_first_match(self@.variants, name@, variant as int),
            r matches Some(variant) ==> self@.variant_named(name@) == Some(variant as int),
            r is None ==> self@.variant_named(name@) is None,
    {
        let mut i: usize = 0;
        while i < self.variants.len()
            invariant
                i <= self.variants.len(),
                forall|j: int| 0 <= j < i ==> (#[trigger] self@.variants[j]).field != name@,
            decreases self.variants.len() - i,
        {
            if text_eq(self.variants[i].field.as_str(), name) {
                proof {
                    assert(self@.variants[i as int].field == name@);
                    lemma_first_match_is_found(self@, name@, i as int);
                }
                return Some(i);
            }
            i += 1;
        }
        None
    }
}

impl ConverterSpec {
    /// The conversion by reference: the array of all variants of the name
    /// enum, in declaration order. The record is only borrowed, and its
    /// values play no part in the result.
    pub fn from_reference<V>(&self, record: &Vec<V>) -> (r: Vec<usize>)
        ensures
            r@ == self@.all_variants(),
    {
        self.as_field_name_array()
    }

    /// The array of all variants of the name enum, in declaration order:
    /// what the conversion by reference gives for every record.
    pub fn as_field_name_array(&self) -> (r: Vec<usize>)
        ensures
            r@ == self@.all_variants(),
    {
        let mut r: Vec<usize> = Vec::new();
        let mut k: usize = 0;
        while k < self.bindings.len()
            invariant
                k <= self.bindings.len(),
                r@ == self@.all_variants().take(k as int),
            decreases self.bindings.len() - k,
        {
            r.push(k);
            assert(self@.all_variants().take(k + 1) == self@.all_variants().take(k as int).push(
                k,
            ));
            k += 1;
        }
        assert(self@.all_variants().take(self.bindings.len() as int) == self@.all_variants());
        r
    }

    /// The conversion by value: takes the record apart and builds the array
    /// of its retained fields' values, each inside its variant, in
    /// declaration order. The values of the other fields are dropped.
    pub fn into_field_type_array<V>(&self, record: Vec<V>) -> (r: Vec<FieldValue<V>>)
        requires
            self@.well_formed(),
            self@.fits(record@.len()),
        ensures
            r@ == self@.converted(record@),
    {
        let ghost fields = record@;
        let ghost spec = self@;
        let len = record.len();
        let mut r: Vec<FieldValue<V>> = Vec::new();
        let mut k: usize = 0;
        let mut i: usize = 0;
        for value in it: record.into_iter()
            invariant
                it.seq() == fields,
                i == it.index(),
                len == fields.len(),
                spec == self@,
                spec.well_formed(),
                spec.fits(fields.len()),
                k <= self.bindings.len(),
                r@ == spec.converted(fields).take(k as int),
                forall|j: int| 0 <= j < k ==> (#[trigger] spec.bindings[j]).position < it.index(),
                k < self.bindings.len() ==> spec.bindings[k as int].position >= it.index(),
        {
            if k < self.bindings.len() && self.bindings[k].position == i {
                r.push(FieldValue { variant: k, payload: value });
                assert(spec.converted(fields).take(k + 1) == spec.converted(fields).take(
                    k as int,
                ).push(spec.converted(fields)[k as int]));
                k += 1;
            }
            i += 1;
        }
        assert(k == self.bindings.len());
        assert(spec.converted(fields).take(k as int) == spec.converted(fields));
        r
    }
}

} // verus!
