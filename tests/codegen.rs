use complex_enum_macros::codegen::{derive_to_code, derive_try_from_code};
use complex_enum_macros::model::{
    classify_fields, describe, DeriveError, FieldInput, ItemData, ItemInput, Shape, VariantInput,
};

fn field(name: Option<&str>) -> FieldInput {
    FieldInput { name: name.map(|n| n.to_string()) }
}

fn var(name: &str, fields: Vec<FieldInput>, discriminant: Option<&str>) -> VariantInput {
    VariantInput {
        name: name.to_string(),
        fields,
        discriminant: discriminant.map(|d| d.to_string()),
    }
}

fn test_enum_input() -> ItemInput {
    ItemInput {
        name: "TestEnum".to_string(),
        data: ItemData::Enum(vec![
            var("Unit", vec![], Some("0x01")),
            var("Struct", vec![field(Some("value"))], Some("0x02")),
            var("Tuple", vec![field(None)], Some("0x03")),
            var("NoCode", vec![], None),
            var("NoCodeStruct", vec![field(Some("value"))], None),
        ]),
    }
}

#[test]
fn to_code_text_for_test_enum() {
    let text = derive_to_code(&test_enum_input()).unwrap();
    assert_eq!(
        text,
        "impl TestEnum { pub fn to_code(&self) -> Option<u8> { match self { \
         TestEnum::Unit => Some(0x01), \
         TestEnum::Struct { .. } => Some(0x02), \
         TestEnum::Tuple(..) => Some(0x03), \
         TestEnum::NoCode => None, \
         TestEnum::NoCodeStruct { .. } => None, \
         } } }"
    );
}

#[test]
fn try_from_code_text_for_test_enum() {
    let text = derive_try_from_code(&test_enum_input()).unwrap();
    assert_eq!(
        text,
        "impl TestEnum { pub fn try_from_code(code: u8) -> Option<Self> { match code { \
         0x01 => Some(Self::Unit), \
         0x02 => Some(Self::Struct { value: Default::default(), }), \
         0x03 => Some(Self::Tuple(Default::default())), \
         _ => None, } } }"
    );
}

#[test]
fn decoder_fills_several_fields() {
    let input = ItemInput {
        name: "Cmd".to_string(),
        data: ItemData::Enum(vec![
            var("Move", vec![field(Some("x")), field(Some("y"))], Some("1 + 1")),
            var("Pair", vec![field(None), field(None), field(None)], Some("7")),
        ]),
    };
    assert_eq!(
        derive_try_from_code(&input).unwrap(),
        "impl Cmd { pub fn try_from_code(code: u8) -> Option<Self> { match code { \
         1 + 1 => Some(Self::Move { x: Default::default(), y: Default::default(), }), \
         7 => Some(Self::Pair(Default::default(), Default::default(), Default::default())), \
         _ => None, } } }"
    );
}

#[test]
fn empty_enum_generates_bare_matches() {
    let input = ItemInput { name: "Never".to_string(), data: ItemData::Enum(vec![]) };
    assert_eq!(
        derive_to_code(&input).unwrap(),
        "impl Never { pub fn to_code(&self) -> Option<u8> { match self { } } }"
    );
    assert_eq!(
        derive_try_from_code(&input).unwrap(),
        "impl Never { pub fn try_from_code(code: u8) -> Option<Self> { match code { _ => None, } } }"
    );
}

#[test]
fn struct_and_union_are_refused() {
    let s = ItemInput { name: "S".to_string(), data: ItemData::Struct };
    assert_eq!(derive_to_code(&s), Err(DeriveError::NotAnEnum));
    assert_eq!(derive_try_from_code(&s), Err(DeriveError::NotAnEnum));
    let u = ItemInput { name: "U".to_string(), data: ItemData::Union };
    assert!(matches!(describe(&u), Err(DeriveError::NotAnEnum)));
}

#[test]
fn shapes_are_classified_by_fields() {
    assert!(matches!(classify_fields(&vec![]), Shape::Unit));
    match classify_fields(&vec![field(Some("a")), field(Some("b"))]) {
        Shape::Named(names) => assert_eq!(names, vec!["a".to_string(), "b".to_string()]),
        _ => panic!("expected a named shape"),
    }
    assert!(matches!(classify_fields(&vec![field(None), field(None)]), Shape::Positional(2)));
}

#[test]
fn describe_keeps_order_and_discriminants() {
    let d = describe(&test_enum_input()).unwrap();
    assert_eq!(d.name, "TestEnum");
    let names: Vec<&str> = d.variants.iter().map(|v| v.name.as_str()).collect();
    assert_eq!(names, vec!["Unit", "Struct", "Tuple", "NoCode", "NoCodeStruct"]);
    let codes: Vec<Option<&str>> = d.variants.iter().map(|v| v.discriminant.as_deref()).collect();
    assert_eq!(codes, vec![Some("0x01"), Some("0x02"), Some("0x03"), None, None]);
}
