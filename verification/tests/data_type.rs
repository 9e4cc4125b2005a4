use mabel::data_type::KnownDataType::{Double, Float32, Int, Int16, Int64, Int8, UInt32, UInt8};
use mabel::data_type::{DataType, KnownDataType};
use mabel::message::{Message, MessageArg, MessageValue};

fn all_known() -> Vec<KnownDataType> {
    vec![
        KnownDataType::UInt8,
        KnownDataType::UInt16,
        KnownDataType::UInt32,
        KnownDataType::UInt64,
        KnownDataType::Int8,
        KnownDataType::Int16,
        KnownDataType::Int32,
        KnownDataType::Int64,
        KnownDataType::Int,
        KnownDataType::UInt,
        KnownDataType::Float32,
        KnownDataType::Double,
    ]
}

fn user_defined() -> DataType {
    DataType::UserDefined("MyType".into())
}

#[test]
fn test_data_type_to_string() {
    let expected = [
        "uint8", "uint16", "uint32", "uint64", "uint8", "int16", "int32", "int64", "int", "uInt",
        "float32", "double",
    ];
    for (known, text) in all_known().into_iter().zip(expected) {
        assert_eq!(DataType::Known(known).to_string(), text);
    }
    assert_eq!(user_defined().to_string(), "MyType");
}

fn text_arg(name: &str, text: &str) -> MessageArg {
    MessageArg {
        name: name.to_owned(),
        value: MessageValue::Message(Message::Text(text.to_owned())),
    }
}

fn described(key: &str, default_value: &str, value: MessageValue, capitalization: &str, show_value: &str) -> Message {
    Message::Entry {
        key: key.to_owned(),
        args: vec![
            MessageArg { name: "value".to_owned(), value },
            text_arg("capitalization", capitalization),
            MessageArg { name: "count".to_owned(), value: MessageValue::Number(1) },
            text_arg("show_count", "true"),
            text_arg("show_value", show_value),
        ],
        default_value: Some(default_value.to_owned()),
    }
}

#[test]
fn test_data_type_description() {
    let names = [
        "uint8", "uint16", "uint32", "uint64", "int8", "int16", "int32", "int64", "int", "uint",
        "float32", "double",
    ];
    for (known, name) in all_known().into_iter().zip(names) {
        let key = format!("data-type-description-{name}");
        assert_eq!(
            DataType::Known(known).description(1, "lowercase", None, true),
            described(&key, &key, MessageValue::Absent, "lowercase", "false")
        );
    }
    assert_eq!(
        user_defined().description(1, "lowercase", None, true),
        described("data-type-description-MyType", "MyType", MessageValue::Absent, "lowercase", "false")
    );
    assert_eq!(
        DataType::Known(KnownDataType::UInt8).description(1, "uppercase", Some("123".to_string()), true),
        described(
            "data-type-description-uint8",
            "data-type-description-uint8",
            MessageValue::Message(Message::Text("\"123\"".to_owned())),
            "uppercase",
            "true"
        )
    );
}

#[test]
fn test_data_type_is_same() {
    assert_eq!(
        DataType::is_same(&DataType::Known(KnownDataType::UInt8), &DataType::Known(KnownDataType::UInt8)),
        true
    );
    assert_eq!(
        DataType::is_same(&DataType::Known(KnownDataType::UInt8), &DataType::Known(KnownDataType::UInt16)),
        false
    );
    assert_eq!(DataType::is_same(&DataType::Known(KnownDataType::UInt8), &user_defined()), false);
}

#[test]
fn user_defined_types_are_never_the_same() {
    assert!(!DataType::is_same(&user_defined(), &user_defined()));
}

#[test]
fn test_data_type_get_bit_size() {
    let expected = [8, 16, 32, 64, 8, 16, 32, 64, 32, 32, 32, 64];
    for (known, bits) in all_known().into_iter().zip(expected) {
        assert_eq!(DataType::Known(known).get_bit_size(), bits);
    }
    assert_eq!(user_defined().get_bit_size(), 0);
}

fn casts(source: KnownDataType, target: KnownDataType) -> bool {
    DataType::can_implictly_cast_to(&DataType::Known(source), &DataType::Known(target))
}

#[test]
fn test_data_type_can_implictly_cast_to() {
    assert_eq!(casts(KnownDataType::UInt8, KnownDataType::UInt8), true);
    assert_eq!(casts(KnownDataType::UInt8, KnownDataType::UInt32), true);
    assert_eq!(casts(KnownDataType::UInt8, KnownDataType::Int8), false);
    assert_eq!(casts(KnownDataType::UInt8, KnownDataType::Int16), false);
    assert_eq!(casts(KnownDataType::UInt8, KnownDataType::Int64), false);
    assert_eq!(casts(KnownDataType::UInt8, KnownDataType::Float32), true);
    assert_eq!(casts(KnownDataType::UInt8, KnownDataType::Double), true);
    assert_eq!(casts(KnownDataType::Int, KnownDataType::Int64), true);
    assert_eq!(casts(KnownDataType::Int, KnownDataType::Double), true);
    assert_eq!(casts(KnownDataType::Float32, KnownDataType::Double), true);
    assert_eq!(casts(KnownDataType::Double, KnownDataType::Float32), false);
    assert_eq!(
        DataType::can_implictly_cast_to(&user_defined(), &DataType::Known(KnownDataType::Float32)),
        false
    );
}

#[test]
fn integers_never_cross_signedness() {
    for source in all_known() {
        for target in all_known() {
            let source_type = DataType::Known(source);
            let target_type = DataType::Known(target);
            if (source_type.is_signed_integer() && target_type.is_unsigned_integer())
                || (source_type.is_unsigned_integer() && target_type.is_signed_integer())
            {
                assert!(!casts(source, target));
            }
            if target_type.is_generic_integer() && source_type.is_floating_point() {
                assert!(!casts(source, target));
            }
        }
    }
    assert!(!casts(KnownDataType::Int64, KnownDataType::Int));
    assert!(casts(KnownDataType::Int32, KnownDataType::Int));
    assert!(!DataType::can_implictly_cast_to(&DataType::Known(KnownDataType::Int8), &user_defined()));
}

#[test]
fn test_data_type_is_numeric() {
    for known in all_known() {
        assert_eq!(DataType::Known(known).is_numeric(), true);
    }
    assert_eq!(user_defined().is_numeric(), false);
}

fn result(left: KnownDataType, right: KnownDataType) -> Option<DataType> {
    DataType::binary_expr_result_data_type(&DataType::Known(left), &DataType::Known(right))
}

#[test]
fn test_data_type_binary_expr_result_data_type() {
    assert_eq!(result(UInt8, UInt8), Some(DataType::Known(UInt8)));
    assert_eq!(result(UInt8, UInt32), Some(DataType::Known(UInt32)));
    assert_eq!(result(UInt8, Int8), None);
    assert_eq!(result(UInt8, Int16), None);
    assert_eq!(result(UInt8, Int64), None);
    assert_eq!(result(UInt8, Float32), Some(DataType::Known(Float32)));
    assert_eq!(result(UInt8, Double), Some(DataType::Known(Double)));
    assert_eq!(result(Int, Int64), Some(DataType::Known(Int64)));
    assert_eq!(result(Int, Double), Some(DataType::Known(Double)));
    assert_eq!(result(Float32, Double), Some(DataType::Known(Double)));
    assert_eq!(result(Double, Float32), Some(DataType::Known(Double)));
    assert_eq!(
        DataType::binary_expr_result_data_type(&user_defined(), &DataType::Known(Float32)),
        None
    );
}

#[test]
fn binary_result_is_an_operand_type_whatever_the_order() {
    for left in all_known() {
        for right in all_known() {
            let forward = result(left, right);
            let backward = result(right, left);
            assert_eq!(forward.is_some(), backward.is_some());
            if let Some(data_type) = forward {
                assert!(data_type == DataType::Known(left) || data_type == DataType::Known(right));
                assert!(data_type.is_numeric());
            }
        }
    }
    assert_eq!(result(KnownDataType::Int, KnownDataType::Int32), Some(DataType::Known(KnownDataType::Int)));
    assert_eq!(result(KnownDataType::Int32, KnownDataType::Int), Some(DataType::Known(KnownDataType::Int32)));
}
