use vaccel_torch::status::{Code, DataType, Status};

#[test]
fn code_values() {
    assert_eq!(Code::Success.to_u8(), 0);
    assert_eq!(Code::InvalidArgument.to_u8(), 3);
    assert_eq!(Code::OutOfRange.to_u8(), 11);
    assert_eq!(Code::Unauthenticated.to_u8(), 16);
}

#[test]
fn status_text() {
    let s = Status::new();
    assert!(s.is_ok());
    assert_eq!(s.message(), "");
    assert_eq!(s.to_string(), "' (id:0)'");
    let e = Status::from_native(13, Some(String::from("bad model")));
    assert!(!e.is_ok());
    assert_eq!(e.error_code(), 13);
    assert_eq!(e.message(), "bad model");
    assert_eq!(e.to_string(), "'bad model (id:13)'");
}

#[test]
fn data_type_tags() {
    let all = [
        DataType::Float,
        DataType::Double,
        DataType::Int32,
        DataType::UInt8,
        DataType::Int16,
        DataType::Int8,
        DataType::Int64,
        DataType::Bool,
        DataType::UInt16,
        DataType::UInt32,
        DataType::UInt64,
        DataType::Half,
    ];
    for d in all.iter() {
        assert_eq!(DataType::from_int(d.to_int()), *d);
    }
    assert_eq!(DataType::from_int(7), DataType::Float);
    assert_eq!(DataType::from_int(1), DataType::UInt8);
    assert_eq!(DataType::from_int(40), DataType::UnknownValue(40));
    assert_eq!(DataType::UnknownValue(40).to_int(), 40);
    assert_eq!(DataType::default(), DataType::Float);
}

#[test]
fn status_from_native_bytes() {
    let s = Status::from_native_bytes(3, Some(&b"bad input\0junk"[..]));
    assert_eq!(s.message(), "bad input");
    assert_eq!(s.error_code(), 3);
    let s = Status::from_native_bytes(3, Some(&[0x66, 0xff, 0x66][..]));
    assert_eq!(s.message(), "");
    let s = Status::from_native_bytes(0, None);
    assert_eq!(s.message(), "");
    let s = Status::from_native_bytes(0, Some("h\u{e9}".as_bytes()));
    assert_eq!(s.message(), "h\u{e9}");
    assert_eq!(Status::from_native(255, None).to_string(), "' (id:255)'");
}
