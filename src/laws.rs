use vstd::prelude::*;

use crate::model::EnumDescriptor;
use crate::semantics::{
    code_of, decodes_to, default_fields, distinct_codes, first_code_index, is_instance_of,
    lemma_first_code_index, FieldValue, Instance,
};

verus! {

/// Encoding depends on the variant alone: two instances of one variant get the
/// same code, whatever their field values.
pub proof fn lemma_encoding_ignores_fields(desc: EnumDescriptor<u8>, a: Instance, b: Instance)
    requires
        a.variant < desc.variants@.len(),
        a.variant == b.variant,
    ensures
        code_of(desc, a.variant as int) == code_of(desc, b.variant as int),
{
}

/// Decoding succeeds exactly on the bytes that some variant declares as its
/// discriminant; every other byte decodes to nothing.
pub proof fn lemma_decode_domain(desc: EnumDescriptor<u8>, code: u8)
    ensures
        first_code_index(desc.variants@, code) is Some <==> exists|i: int|
            0 <= i < desc.variants@.len() && (#[trigger] desc.variants@[i]).discriminant == Some(code),
{
    lemma_first_code_index(desc.variants@, code);
}

/// A variant that declares no discriminant is never what a byte decodes to.
pub proof fn lemma_undeclared_never_decoded(desc: EnumDescriptor<u8>, variant: int, code: u8)
    requires
        0 <= variant < desc.variants@.len(),
        desc.variants@[variant].discriminant is None,
    ensures
        first_code_index(desc.variants@, code) != Some(variant),
{
    lemma_first_code_index(desc.variants@, code);
}

/// Decoding the code of an instance gives back its variant, with every field at
/// its default value whatever the instance held.
pub proof fn lemma_decode_discards_payload(desc: EnumDescriptor<u8>, inst: Instance, decoded: Instance)
    requires
        distinct_codes(desc.variants@),
        is_instance_of(inst, desc),
        code_of(desc, inst.variant as int) is Some,
        decodes_to(desc, code_of(desc, inst.variant as int)->0, decoded),
    ensures
        decoded.variant == inst.variant,
        decoded.fields@.len() == inst.fields@.len(),
        forall|k: int| 0 <= k < decoded.fields@.len() ==> #[trigger] decoded.fields@[k] == FieldValue::Default,
{
    let code = code_of(desc, inst.variant as int)->0;
    lemma_first_code_index(desc.variants@, code);
}

/// Encoding then decoding recovers the variant, and gives back the instance
/// itself exactly when all its fields held their default values.
pub proof fn lemma_partial_round_trip(desc: EnumDescriptor<u8>, inst: Instance)
    requires
        distinct_codes(desc.variants@),
        is_instance_of(inst, desc),
        code_of(desc, inst.variant as int) is Some,
    ensures
        first_code_index(desc.variants@, code_of(desc, inst.variant as int)->0) == Some(inst.variant as int),
        decodes_to(desc, code_of(desc, inst.variant as int)->0, inst)
            <==> inst.fields@ == default_fields(desc.variants@[inst.variant as int].shape),
{
    let code = code_of(desc, inst.variant as int)->0;
    lemma_first_code_index(desc.variants@, code);
}

} // verus!
