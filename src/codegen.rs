use vstd::prelude::*;

use crate::model::{describe, describes, DeriveError, EnumDescriptor, ItemData, ItemInput, Shape, VariantDescriptor, well_formed_input};

verus! {

/// The encoder's pattern for a variant: its path, then a wildcard for its
/// fields in the form its shape asks for.
pub open spec fn pattern_text(ty: Seq<char>, v: VariantDescriptor<String>) -> Seq<char> {
    ty + "::"@ + v.name@ + match v.shape {
        Shape::Unit => Seq::<char>::empty(),
        Shape::Named(_) => " { .. }"@,
        Shape::Positional(_) => "(..)"@,
    }
}

/// The encoder's result for a variant: its discriminant expression, verbatim,
/// or no code.
pub open spec fn encoder_result_text(v: VariantDescriptor<String>) -> Seq<char> {
    match v.discriminant {
        Some(e) => "Some("@ + e@ + ")"@,
        None => "None"@,
    }
}

pub open spec fn encoder_arm_text(ty: Seq<char>, v: VariantDescriptor<String>) -> Seq<char> {
    pattern_text(ty, v) + " => "@ + encoder_result_text(v) + ", "@
}

/// One encoder arm per variant, in declaration order.
pub open spec fn encoder_arms_text(ty: Seq<char>, vs: Seq<VariantDescriptor<String>>) -> Seq<char>
    decreases vs.len(),
{
    if vs.len() == 0 {
        Seq::<char>::empty()
    } else {
        encoder_arms_text(ty, vs.drop_last()) + encoder_arm_text(ty, vs.last())
    }
}

/// The generated `to_code` method: one exhaustive match over the variants.
pub open spec fn to_code_text(ty: Seq<char>, vs: Seq<VariantDescriptor<String>>) -> Seq<char> {
    "impl "@ + ty + " { pub fn to_code(&self) -> Option<u8> { match self { "@
        + encoder_arms_text(ty, vs) + "} } }"@
}

/// `n` default values, separated by commas.
pub open spec fn defaults_text(n: nat) -> Seq<char>
    decreases n,
{
    if n == 0 {
        Seq::<char>::empty()
    } else if n == 1 {
        "Default::default()"@
    } else {
        defaults_text((n - 1) as nat) + ", Default::default()"@
    }
}

/// Each named field set to its type's default value.
pub open spec fn named_defaults_text(names: Seq<String>) -> Seq<char>
    decreases names.len(),
{
    if names.len() == 0 {
        Seq::<char>::empty()
    } else {
        named_defaults_text(names.drop_last()) + names.last()@ + ": Default::default(), "@
    }
}

/// A fresh instance of the variant with every field at its default value.
pub open spec fn constructor_text(v: VariantDescriptor<String>) -> Seq<char> {
    "Self::"@ + v.name@ + match v.shape {
        Shape::Unit => Seq::<char>::empty(),
        Shape::Named(names) => " { "@ + named_defaults_text(names@) + "}"@,
        Shape::Positional(n) => "("@ + defaults_text(n as nat) + ")"@,
    }
}

/// The decoder's arm for a variant: keyed on its discriminant expression;
/// a variant without one has none.
pub open spec fn decoder_arm_text(v: VariantDescriptor<String>) -> Seq<char> {
    match v.discriminant {
        Some(e) => e@ + " => Some("@ + constructor_text(v) + "), "@,
        None => Seq::<char>::empty(),
    }
}

pub open spec fn decoder_arms_text(vs: Seq<VariantDescriptor<String>>) -> Seq<char>
    decreases vs.len(),
{
    if vs.len() == 0 {
        Seq::<char>::empty()
    } else {
        decoder_arms_text(vs.drop_last()) + decoder_arm_text(vs.last())
    }
}

/// The generated `try_from_code` method: the decoder arms, then the fallback.
pub open spec fn try_from_code_text(ty: Seq<char>, vs: Seq<VariantDescriptor<String>>) -> Seq<char> {
    "impl "@ + ty + " { pub fn try_from_code(code: u8) -> Option<Self> { match code { "@
        + decoder_arms_text(vs) + "_ => None, } } }"@
}

fn push_pattern(out: &mut String, ty: &String, v: &VariantDescriptor<String>)
    ensures
        final(out)@ == old(out)@ + pattern_text(ty@, *v),
{
    let ghost start = out@;
    out.append(ty.as_str());
    out.append("::");
    out.append(v.name.as_str());
    match &v.shape {
        Shape::Unit => {},
        Shape::Named(_) => out.append(" { .. }"),
        Shape::Positional(_) => out.append("(..)"),
    }
    assert(out@ =~= start + pattern_text(ty@, *v));
}

fn push_encoder_arm(out: &mut String, ty: &String, v: &VariantDescriptor<String>)
    ensures
        final(out)@ == old(out)@ + encoder_arm_text(ty@, *v),
{
    let ghost start = out@;
    push_pattern(out, ty, v);
    out.append(" => ");
    match &v.discriminant {
        Some(e) => {
            out.append("Some(");
            out.append(e.as_str());
            out.append(")");
        },
        None => out.append("None"),
    }
    out.append(", ");
    assert(out@ =~= start + encoder_arm_text(ty@, *v));
}

/// Generates the `to_code` method for a described enum.
pub fn generate_to_code(desc: &EnumDescriptor<String>) -> (r: String)
    ensures
        r@ == to_code_text(desc.name@, desc.variants@),
{
    let mut out = String::new();
    out.append("impl ");
    out.append(desc.name.as_str());
    out.append(" { pub fn to_code(&self) -> Option<u8> { match self { ");
    let ghost head = out@;
    let mut i: usize = 0;
    while i < desc.variants.len()
        invariant
            i <= desc.variants@.len(),
            out@ == head + encoder_arms_text(desc.name@, desc.variants@.subrange(0, i as int)),
        decreases desc.variants@.len() - i,
    {
        push_encoder_arm(&mut out, &desc.name, &desc.variants[i]);
        let ghost next = desc.variants@.subrange(0, i + 1);
        assert(next.drop_last() =~= desc.variants@.subrange(0, i as int));
        assert(out@ =~= head + encoder_arms_text(desc.name@, next));
        i = i + 1;
    }
    assert(desc.variants@.subrange(0, i as int) =~= desc.variants@);
    out.append("} } }");
    assert(out@ =~= to_code_text(desc.name@, desc.variants@));
    out
}

fn push_defaults(out: &mut String, n: usize)
    ensures
        final(out)@ == old(out)@ + defaults_text(n as nat),
{
    let ghost start = out@;
    let mut k: usize = 0;
    while k < n
        invariant
            k <= n,
            out@ == start + defaults_text(k as nat),
        decreases n - k,
    {
        if k == 0 {
            out.append("Default::default()");
        } else {
            out.append(", Default::default()");
        }
        assert(out@ =~= start + defaults_text((k + 1) as nat));
        k = k + 1;
    }
}

fn push_named_defaults(out: &mut String, names: &Vec<String>)
    ensures
        final(out)@ == old(out)@ + named_defaults_text(names@),
{
    let ghost start = out@;
    let mut k: usize = 0;
    while k < names.len()
        invariant
            k <= names@.len(),
            out@ == start + named_defaults_text(names@.subrange(0, k as int)),
        decreases names@.len() - k,
    {
        out.append(names[k].as_str());
        out.append(": Default::default(), ");
        let ghost next = names@.subrange(0, k + 1);
        assert(next.drop_last() =~= names@.subrange(0, k as int));
        assert(out@ =~= start + named_defaults_text(next));
        k = k + 1;
    }
    assert(names@.subrange(0, k as int) =~= names@);
}

fn push_constructor(out: &mut String, v: &VariantDescriptor<String>)
    ensures
        final(out)@ == old(out)@ + constructor_text(*v),
{
    let ghost start = out@;
    out.append("Self::");
    out.append(v.name.as_str());
    match &v.shape {
        Shape::Unit => {},
        Shape::Named(names) => {
            out.append(" { ");
            push_named_defaults(out, names);
            out.append("}");
        },
        Shape::Positional(n) => {
            out.append("(");
            push_defaults(out, *n);
            out.append(")");
        },
    }
    assert(out@ =~= start + constructor_text(*v));
}

fn push_decoder_arm(out: &mut String, v: &VariantDescriptor<String>)
    ensures
        final(out)@ == old(out)@ + decoder_arm_text(*v),
{
    let ghost start = out@;
    match &v.discriminant {
        Some(e) => {
            out.append(e.as_str());
            out.append(" => Some(");
            push_constructor(out, v);
            out.append("), ");
        },
        None => {},
    }
    assert(out@ =~= start + decoder_arm_text(*v));
}

/// Generates the `try_from_code` method for a described enum.
pub fn generate_try_from_code(desc: &EnumDescriptor<String>) -> (r: String)
    ensures
        r@ == try_from_code_text(desc.name@, desc.variants@),
{
    let mut out = String::new();
    out.append("impl ");
    out.append(desc.name.as_str());
    out.append(" { pub fn try_from_code(code: u8) -> Option<Self> { match code { ");
    let ghost head = out@;
    let mut i: usize = 0;
    while i < desc.variants.len()
        invariant
            i <= desc.variants@.len(),
            out@ == head + decoder_arms_text(desc.variants@.subrange(0, i as int)),
        decreases desc.variants@.len() - i,
    {
        push_decoder_arm(&mut out, &desc.variants[i]);
        let ghost next = desc.variants@.subrange(0, i + 1);
        assert(next.drop_last() =~= desc.variants@.subrange(0, i as int));
        assert(out@ =~= head + decoder_arms_text(next));
        i = i + 1;
    }
    assert(desc.variants@.subrange(0, i as int) =~= desc.variants@);
    out.append("_ => None, } } }");
    assert(out@ =~= try_from_code_text(desc.name@, desc.variants@));
    out
}

/// Derives `to_code` for a type declaration: the generated method's source
/// text, or an error when the declaration is not an enum.
pub fn derive_to_code(input: &ItemInput) -> (r: Result<String, DeriveError>)
    requires
        well_formed_input(*input),
    ensures
        match input.data {
            ItemData::Enum(vs) => r matches Ok(s) && exists|d: EnumDescriptor<String>|
                describes(d, input.name, vs@) && s@ == to_code_text(input.name@, d.variants@),
            _ => r == Err::<String, DeriveError>(DeriveError::NotAnEnum),
        },
{
    match describe(input) {
        Ok(d) => Ok(generate_to_code(&d)),
        Err(e) => Err(e),
    }
}

/// Derives `try_from_code` for a type declaration: the generated method's
/// source text, or an error when the declaration is not an enum.
pub fn derive_try_from_code(input: &ItemInput) -> (r: Result<String, DeriveError>)
    requires
        well_formed_input(*input),
    ensures
        match input.data {
            ItemData::Enum(vs) => r matches Ok(s) && exists|d: EnumDescriptor<String>|
                describes(d, input.name, vs@) && s@ == try_from_code_text(input.name@, d.variants@),
            _ => r == Err::<String, DeriveError>(DeriveError::NotAnEnum),
        },
{
    match describe(input) {
        Ok(d) => Ok(generate_try_from_code(&d)),
        Err(e) => Err(e),
    }
}

} // verus!
