use vstd::prelude::*;

verus! {

/// The structural kind of a variant's field list.
pub enum Shape {
    /// No fields at all.
    Unit,
    /// Named fields, in declaration order.
    Named(Vec<String>),
    /// Unnamed fields: only their number matters.
    Positional(usize),
}

/// One variant of the subject enum.
///
/// `D` is the form a discriminant takes: its constant expression as source text
/// while generating code, or the byte the host evaluated it to while modelling
/// the generated methods.
pub struct VariantDescriptor<D> {
    pub name: String,
    pub shape: Shape,
    pub discriminant: Option<D>,
}

/// The subject enum: its name and its variants in declaration order.
pub struct EnumDescriptor<D> {
    pub name: String,
    pub variants: Vec<VariantDescriptor<D>>,
}

/// How many fields a variant of this shape carries.
pub open spec fn field_count(shape: Shape) -> nat {
    match shape {
        Shape::Unit => 0,
        Shape::Named(names) => names@.len(),
        Shape::Positional(n) => n as nat,
    }
}

/// A field as the host's front end describes it: named or not.
pub struct FieldInput {
    pub name: Option<String>,
}

/// A variant as the host's front end describes it, before its shape is classified.
pub struct VariantInput {
    pub name: String,
    pub fields: Vec<FieldInput>,
    pub discriminant: Option<String>,
}

/// What kind of type declaration the derive was attached to.
pub enum ItemData {
    Enum(Vec<VariantInput>),
    Struct,
    Union,
}

/// The type declaration handed to a derive.
pub struct ItemInput {
    pub name: String,
    pub data: ItemData,
}

/// Why generation stopped without output.
#[derive(Debug, Clone, Copy, PartialEq, Eq)]
pub enum DeriveError {
    /// The subject type is a struct or a union, not an enum.
    NotAnEnum,
}

/// A variant's fields are either all named or all unnamed.
pub open spec fn uniform_fields(fields: Seq<FieldInput>) -> bool {
    (forall|k: int| 0 <= k < fields.len() ==> (#[trigger] fields[k]).name is Some)
        || (forall|k: int| 0 <= k < fields.len() ==> (#[trigger] fields[k]).name is None)
}

/// Every variant of an enum input has uniformly named or unnamed fields.
pub open spec fn well_formed_input(input: ItemInput) -> bool {
    input.data matches ItemData::Enum(vs) ==> forall|i: int|
        0 <= i < vs@.len() ==> uniform_fields(#[trigger] vs@[i].fields@)
}

/// `shape` is the classification of `fields`: none makes a unit, named ones
/// make a named shape with those names in order, unnamed ones a positional
/// shape of that many fields.
pub open spec fn classifies(shape: Shape, fields: Seq<FieldInput>) -> bool {
    if fields.len() == 0 {
        shape is Unit
    } else if fields[0].name is Some {
        &&& shape matches Shape::Named(names)
        &&& names@.len() == fields.len()
        &&& forall|k: int| 0 <= k < fields.len() ==> (#[trigger] names@[k]) == fields[k].name->0
    } else {
        &&& shape matches Shape::Positional(n)
        &&& n == fields.len()
    }
}

/// `d` describes, variant for variant, the enum `name` with variants `vs`.
pub open spec fn describes(d: EnumDescriptor<String>, name: String, vs: Seq<VariantInput>) -> bool {
    &&& d.name == name
    &&& d.variants@.len() == vs.len()
    &&& forall|i: int|
        0 <= i < vs.len() ==> {
            &&& (#[trigger] d.variants@[i]).name == vs[i].name
            &&& d.variants@[i].discriminant == vs[i].discriminant
            &&& classifies(d.variants@[i].shape, vs[i].fields@)
        }
}

fn clone_discriminant(d: &Option<String>) -> (r: Option<String>)
    ensures
        r == *d,
{
    match d {
        Some(e) => Some(e.clone()),
        None => None,
    }
}

/// Classifies a variant's field list into its shape.
pub fn classify_fields(fields: &Vec<FieldInput>) -> (r: Shape)
    requires
        uniform_fields(fields@),
    ensures
        classifies(r, fields@),
{
    if fields.len() == 0 {
        return Shape::Unit;
    }
    match &fields[0].name {
        None => Shape::Positional(fields.len()),
        Some(_) => {
            let mut names: Vec<String> = Vec::new();
            let mut k: usize = 0;
            while k < fields.len()
                invariant
                    k <= fields@.len(),
                    fields@.len() > 0,
                    fields@[0].name is Some,
                    uniform_fields(fields@),
                    names@.len() == k,
                    forall|j: int| 0 <= j < k ==> (#[trigger] names@[j]) == fields@[j].name->0,
                decreases fields@.len() - k,
            {
                assert(fields@[k as int].name is Some);
                match &fields[k].name {
                    Some(n) => names.push(n.clone()),
                    None => {},
                }
                k = k + 1;
            }
            Shape::Named(names)
        },
    }
}

/// Builds the ordered variant descriptors of an enum input; any other kind of
/// type declaration is refused.
pub fn describe(input: &ItemInput) -> (r: Result<EnumDescriptor<String>, DeriveError>)
    requires
        well_formed_input(*input),
    ensures
        match input.data {
            ItemData::Enum(vs) => r matches Ok(d) && describes(d, input.name, vs@),
            _ => r == Err::<EnumDescriptor<String>, DeriveError>(DeriveError::NotAnEnum),
        },
{
    let vs = match &input.data {
        ItemData::Enum(vs) => vs,
        _ => return Err(DeriveError::NotAnEnum),
    };
    let mut variants: Vec<VariantDescriptor<String>> = Vec::new();
    let mut i: usize = 0;
    while i < vs.len()
        invariant
            i <= vs@.len(),
            input.data == ItemData::Enum(*vs),
            well_formed_input(*input),
            variants@.len() == i,
            forall|j: int|
                0 <= j < i ==> {
                    &&& (#[trigger] variants@[j]).name == vs@[j].name
                    &&& variants@[j].discriminant == vs@[j].discriminant
                    &&& classifies(variants@[j].shape, vs@[j].fields@)
                },
        decreases vs@.len() - i,
    {
        let v = &vs[i];
        assert(uniform_fields(vs@[i as int].fields@));
        let shape = classify_fields(&v.fields);
        variants.push(
            VariantDescriptor { name: v.name.clone(), shape, discriminant: clone_discriminant(&v.discriminant) },
        );
        i = i + 1;
    }
    Ok(EnumDescriptor { name: input.name.clone(), variants })
}

} // verus!
