use vstd::prelude::*;

use crate::model::{field_count, EnumDescriptor, Shape, VariantDescriptor};

verus! {

/// The value of one field of an instance.
#[derive(Debug, PartialEq, Eq)]
pub enum FieldValue {
    /// The field type's default value.
    Default,
    /// Any other value, written as the host would write it.
    Value(String),
}

/// An instance of the subject enum: which variant, and its field values in
/// declaration order.
#[derive(Debug, PartialEq, Eq)]
pub struct Instance {
    pub variant: usize,
    pub fields: Vec<FieldValue>,
}

/// `inst` is a value of the enum that `desc` describes.
pub open spec fn is_instance_of(inst: Instance, desc: EnumDescriptor<u8>) -> bool {
    &&& inst.variant < desc.variants@.len()
    &&& inst.fields@.len() == field_count(desc.variants@[inst.variant as int].shape)
}

/// What the generated `to_code` returns for an instance of variant `variant`.
pub open spec fn code_of(desc: EnumDescriptor<u8>, variant: int) -> Option<u8> {
    desc.variants@[variant].discriminant
}

/// The variant that the generated `try_from_code` selects for `code`: the first,
/// in declaration order, whose discriminant is `code`.
pub open spec fn first_code_index(vs: Seq<VariantDescriptor<u8>>, code: u8) -> Option<int>
    decreases vs.len(),
{
    if vs.len() == 0 {
        None
    } else {
        match first_code_index(vs.drop_last(), code) {
            Some(j) => Some(j),
            None => if vs.last().discriminant == Some(code) {
                Some(vs.len() - 1)
            } else {
                None
            },
        }
    }
}

/// Every field of a variant of this shape at its default value.
pub open spec fn default_fields(shape: Shape) -> Seq<FieldValue> {
    Seq::new(field_count(shape), |_k: int| FieldValue::Default)
}

/// `inst` is what the generated `try_from_code` builds for `code`.
pub open spec fn decodes_to(desc: EnumDescriptor<u8>, code: u8, inst: Instance) -> bool {
    &&& first_code_index(desc.variants@, code) == Some(inst.variant as int)
    &&& inst.fields@ == default_fields(desc.variants@[inst.variant as int].shape)
}

/// No two variants declare the same discriminant.
pub open spec fn distinct_codes(vs: Seq<VariantDescriptor<u8>>) -> bool {
    forall|i: int, j: int|
        0 <= i < vs.len() && 0 <= j < vs.len() && i != j && (#[trigger] vs[i]).discriminant is Some
            ==> vs[i].discriminant != (#[trigger] vs[j]).discriminant
}

/// `first_code_index` finds the least index whose discriminant is `code`, and
/// nothing when no variant has it.
pub proof fn lemma_first_code_index(vs: Seq<VariantDescriptor<u8>>, code: u8)
    ensures
        match first_code_index(vs, code) {
            Some(j) => {
                &&& 0 <= j < vs.len()
                &&& vs[j].discriminant == Some(code)
                &&& forall|k: int| 0 <= k < j ==> (#[trigger] vs[k]).discriminant != Some(code)
            },
            None => forall|k: int| 0 <= k < vs.len() ==> (#[trigger] vs[k]).discriminant != Some(code),
        },
    decreases vs.len(),
{
    if vs.len() > 0 {
        let p = vs.drop_last();
        lemma_first_code_index(p, code);
        assert forall|k: int| 0 <= k < p.len() implies #[trigger] p[k] == vs[k] by {}
        match first_code_index(p, code) {
            Some(j) => {
                assert(p[j] == vs[j]);
                assert forall|k: int| 0 <= k < j implies (#[trigger] vs[k]).discriminant != Some(code) by {
                    assert(p[k] == vs[k]);
                }
            },
            None => {
                assert(vs.last() == vs[vs.len() - 1]);
                if vs.last().discriminant == Some(code) {
                    assert(first_code_index(vs, code) == Some(vs.len() - 1));
                    assert forall|k: int| 0 <= k < vs.len() - 1 implies (#[trigger] vs[k]).discriminant != Some(code) by {
                        assert(p[k] == vs[k]);
                    }
                } else {
                    assert(first_code_index(vs, code) is None);
                    assert forall|k: int| 0 <= k < vs.len() implies (#[trigger] vs[k]).discriminant != Some(code) by {
                        if k < p.len() {
                            assert(p[k] == vs[k]);
                        }
                    }
                }
            },
        }
    }
}

/// Whatever least index carries `code` is the one `first_code_index` finds.
pub proof fn lemma_first_code_index_is(vs: Seq<VariantDescriptor<u8>>, code: u8, i: int)
    requires
        0 <= i < vs.len(),
        vs[i].discriminant == Some(code),
        forall|k: int| 0 <= k < i ==> (#[trigger] vs[k]).discriminant != Some(code),
    ensures
        first_code_index(vs, code) == Some(i),
{
    lemma_first_code_index(vs, code);
}

/// What the generated `to_code` returns: the variant's discriminant when it
/// declares one, no code otherwise; field values play no part.
pub fn to_code(desc: &EnumDescriptor<u8>, inst: &Instance) -> (r: Option<u8>)
    requires
        inst.variant < desc.variants@.len(),
    ensures
        r == code_of(*desc, inst.variant as int),
        r == desc.variants@[inst.variant as int].discriminant,
{
    match desc.variants[inst.variant].discriminant {
        Some(d) => Some(d),
        None => None,
    }
}

fn default_values(n: usize) -> (r: Vec<FieldValue>)
    ensures
        r@ == Seq::new(n as nat, |_k: int| FieldValue::Default),
{
    let mut r: Vec<FieldValue> = Vec::new();
    let mut k: usize = 0;
    while k < n
        invariant
            k <= n,
            r@ == Seq::new(k as nat, |_k: int| FieldValue::Default),
        decreases n - k,
    {
        r.push(FieldValue::Default);
        k = k + 1;
        assert(r@ =~= Seq::new(k as nat, |_k: int| FieldValue::Default));
    }
    r
}

/// A fresh instance of a variant with every field at its default value.
pub fn default_instance(desc: &EnumDescriptor<u8>, variant: usize) -> (r: Instance)
    requires
        variant < desc.variants@.len(),
    ensures
        r.variant == variant,
        r.fields@ == default_fields(desc.variants@[variant as int].shape),
        is_instance_of(r, *desc),
{
    let n = match &desc.variants[variant].shape {
        Shape::Unit => 0,
        Shape::Named(names) => names.len(),
        Shape::Positional(n) => *n,
    };
    Instance { variant, fields: default_values(n) }
}

/// What the generated `try_from_code` returns: the first variant declaring
/// `code`, with every field at its default value, or nothing when no variant
/// declares it.
pub fn try_from_code(desc: &EnumDescriptor<u8>, code: u8) -> (r: Option<Instance>)
    ensures
        match first_code_index(desc.variants@, code) {
            Some(i) => r matches Some(x) && decodes_to(*desc, code, x) && x.variant == i,
            None => r is None,
        },
        r matches Some(x) ==> is_instance_of(x, *desc),
{
    let mut i: usize = 0;
    while i < desc.variants.len()
        invariant
            i <= desc.variants@.len(),
            forall|k: int| 0 <= k < i ==> (#[trigger] desc.variants@[k]).discriminant != Some(code),
        decreases desc.variants@.len() - i,
    {
        if let Some(d) = desc.variants[i].discriminant {
            if d == code {
                proof {
                    lemma_first_code_index_is(desc.variants@, code, i as int);
                }
                return Some(default_instance(desc, i));
            }
        }
        i = i + 1;
    }
    proof {
        lemma_first_code_index(desc.variants@, code);
    }
    None
}

} // verus!
