use complex_enum_macros::model::{EnumDescriptor, Shape, VariantDescriptor};
use complex_enum_macros::semantics::{
    default_instance, to_code, try_from_code, FieldValue, Instance,
};

fn command() -> EnumDescriptor<u8> {
    let v = |name: &str, shape: Shape, discriminant: Option<u8>| VariantDescriptor {
        name: name.to_string(),
        shape,
        discriminant,
    };
    EnumDescriptor {
        name: "Command".to_string(),
        variants: vec![
            v("Unknown", Shape::Unit, None),
            v("Start", Shape::Unit, Some(0x01)),
            v("SetConfig", Shape::Named(vec!["value".to_string()]), Some(0x02)),
            v("SendData", Shape::Positional(1), Some(0x03)),
            v("Stop", Shape::Unit, Some(0x04)),
            v("Pair", Shape::Positional(2), Some(0x10)),
        ],
    }
}

#[test]
fn start_encodes_and_decodes() {
    let e = command();
    assert_eq!(to_code(&e, &Instance { variant: 1, fields: vec![] }), Some(0x01));
    assert_eq!(try_from_code(&e, 0x01), Some(Instance { variant: 1, fields: vec![] }));
}

#[test]
fn set_config_payload_is_ignored_and_not_recovered() {
    let e = command();
    let given = Instance { variant: 2, fields: vec![FieldValue::Value("Some(42)".to_string())] };
    assert_eq!(to_code(&e, &given), Some(0x02));
    let decoded = try_from_code(&e, 0x02).unwrap();
    assert_eq!(decoded, Instance { variant: 2, fields: vec![FieldValue::Default] });
    assert_ne!(decoded, given);
}

#[test]
fn send_data_decodes_to_default_payload() {
    let e = command();
    let given = Instance { variant: 3, fields: vec![FieldValue::Value("hi".to_string())] };
    assert_eq!(to_code(&e, &given), Some(0x03));
    assert_eq!(
        try_from_code(&e, 0x03),
        Some(Instance { variant: 3, fields: vec![FieldValue::Default] })
    );
}

#[test]
fn positional_decode_fills_every_field() {
    let e = command();
    assert_eq!(
        try_from_code(&e, 0x10),
        Some(Instance { variant: 5, fields: vec![FieldValue::Default, FieldValue::Default] })
    );
}

#[test]
fn unknown_has_no_code_and_is_never_decoded() {
    let e = command();
    assert_eq!(to_code(&e, &Instance { variant: 0, fields: vec![] }), None);
    for code in 0..=255u8 {
        if let Some(x) = try_from_code(&e, code) {
            assert_ne!(x.variant, 0);
        }
    }
}

#[test]
fn only_declared_codes_decode() {
    let e = command();
    let declared = [0x01u8, 0x02, 0x03, 0x04, 0x10];
    for code in 0..=255u8 {
        assert_eq!(try_from_code(&e, code).is_some(), declared.contains(&code));
    }
    assert_eq!(try_from_code(&e, 0xFF), None);
}

#[test]
fn encoding_ignores_field_values() {
    let e = command();
    let a = Instance { variant: 2, fields: vec![FieldValue::Default] };
    let b = Instance { variant: 2, fields: vec![FieldValue::Value("Some(7)".to_string())] };
    assert_eq!(to_code(&e, &a), to_code(&e, &b));
}

#[test]
fn round_trip_of_default_instances() {
    let e = command();
    for i in 1..e.variants.len() {
        let original = default_instance(&e, i);
        let code = to_code(&e, &original).unwrap();
        assert_eq!(try_from_code(&e, code), Some(original));
    }
}

#[test]
fn duplicate_code_decodes_to_first_declared() {
    let e = EnumDescriptor {
        name: "Dup".to_string(),
        variants: vec![
            VariantDescriptor { name: "A".to_string(), shape: Shape::Unit, discriminant: Some(0x05) },
            VariantDescriptor { name: "B".to_string(), shape: Shape::Unit, discriminant: Some(0x05) },
        ],
    };
    assert_eq!(try_from_code(&e, 0x05), Some(Instance { variant: 0, fields: vec![] }));
}

#[test]
fn empty_enum_decodes_nothing() {
    let e: EnumDescriptor<u8> = EnumDescriptor { name: "Empty".to_string(), variants: vec![] };
    assert_eq!(try_from_code(&e, 0x00), None);
}
