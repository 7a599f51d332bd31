use serde_request_envelope::{
    classify_key, structural_name, DecodeError, NamedAggregate, NotStruct, Request, RequestField,
    RequestFields, SerializeOp, WireEntry, DATA_FIELD, FIELD_COUNT, NOT_STRUCT_MESSAGE, RECORD_NAME,
    TYPE_FIELD,
};

#[derive(Debug, Clone, PartialEq)]
struct Point {
    x: i32,
    y: i32,
}

fn point_op() -> SerializeOp {
    SerializeOp::Struct { name: "Point", len: 2 }
}

fn decode<T>(entries: Vec<WireEntry<T>>) -> Result<Request<T>, DecodeError> {
    let mut fields = RequestFields::new();
    for entry in entries {
        fields.accept(entry);
    }
    fields.finish()
}

fn point_data() -> WireEntry<Point> {
    WireEntry::Data { value: Point { x: 1, y: 2 }, name: structural_name(&point_op()) }
}

fn assert_point(r: Result<Request<Point>, DecodeError>) {
    match r {
        Ok(Request(p)) => assert_eq!(p, Point { x: 1, y: 2 }),
        Err(e) => panic!("unexpected error {:?}", e),
    }
}

#[test]
fn new_wraps_the_payload() {
    let r = Request::new(Point { x: 3, y: 4 });
    assert_eq!(r.0, Point { x: 3, y: 4 });
}

#[test]
fn not_struct_description() {
    assert_eq!(NotStruct.description(), "not struct");
    assert_eq!(NOT_STRUCT_MESSAGE, "not struct");
}

#[test]
fn wire_constants() {
    assert_eq!(RECORD_NAME, "Request");
    assert_eq!(TYPE_FIELD, "type");
    assert_eq!(DATA_FIELD, "data");
    assert_eq!(FIELD_COUNT, 2);
    assert_eq!(RequestField::Type.key(), "type");
    assert_eq!(RequestField::Data.key(), "data");
}

#[test]
fn named_shapes_yield_their_name() {
    let ops = vec![
        SerializeOp::UnitStruct { name: "Marker" },
        SerializeOp::UnitVariant { name: "Marker", variant_index: 1, variant: "A" },
        SerializeOp::NewtypeStruct { name: "Marker" },
        SerializeOp::NewtypeVariant { name: "Marker", variant_index: 0, variant: "B" },
        SerializeOp::TupleStruct { name: "Marker", len: 3 },
        SerializeOp::TupleVariant { name: "Marker", variant_index: 2, variant: "C", len: 2 },
        SerializeOp::Struct { name: "Marker", len: 1 },
        SerializeOp::StructVariant { name: "Marker", variant_index: 4, variant: "D", len: 5 },
    ];
    for op in ops {
        assert_eq!(structural_name(&op), Ok("Marker"));
    }
}

#[test]
fn non_records_are_rejected() {
    let ops = vec![
        SerializeOp::Bool,
        SerializeOp::I8,
        SerializeOp::I16,
        SerializeOp::I32,
        SerializeOp::I64,
        SerializeOp::I128,
        SerializeOp::U8,
        SerializeOp::U16,
        SerializeOp::U32,
        SerializeOp::U64,
        SerializeOp::U128,
        SerializeOp::F32,
        SerializeOp::F64,
        SerializeOp::Char,
        SerializeOp::Str,
        SerializeOp::Bytes,
        SerializeOp::NoneValue,
        SerializeOp::SomeValue,
        SerializeOp::Unit,
        SerializeOp::Sequence { len: Some(3) },
        SerializeOp::Sequence { len: None },
        SerializeOp::Tuple { len: 2 },
        SerializeOp::Mapping { len: Some(1) },
    ];
    for op in ops {
        assert_eq!(structural_name(&op), Err(NotStruct));
        assert!(NamedAggregate::begin(&op).is_err());
    }
}

#[test]
fn name_is_stable_across_values() {
    let a = SerializeOp::Struct { name: "Point", len: 2 };
    let b = SerializeOp::Struct { name: "Point", len: 7 };
    assert_eq!(structural_name(&a), structural_name(&b));
    let c = SerializeOp::StructVariant { name: "Shape", variant_index: 0, variant: "Circle", len: 1 };
    let d = SerializeOp::StructVariant { name: "Shape", variant_index: 1, variant: "Square", len: 2 };
    assert_eq!(structural_name(&c), structural_name(&d));
}

#[test]
fn aggregate_probe_keeps_the_name_through_fields() {
    let mut agg = NamedAggregate::begin(&point_op()).unwrap();
    assert_eq!(agg.accept_field(), Ok(()));
    assert_eq!(agg.accept_field(), Ok(()));
    assert_eq!(agg.end(), Ok("Point"));
    let empty = NamedAggregate::begin(&SerializeOp::TupleStruct { name: "Empty", len: 0 }).unwrap();
    assert_eq!(empty.end(), Ok("Empty"));
}

#[test]
fn keys_are_classified() {
    assert_eq!(classify_key("type"), Some(RequestField::Type));
    assert_eq!(classify_key("data"), Some(RequestField::Data));
    assert_eq!(classify_key("extra"), None);
    assert_eq!(classify_key(""), None);
    assert_eq!(classify_key("Type"), None);
    assert_eq!(classify_key("datum"), None);
    assert_eq!(classify_key("types"), None);
}

#[test]
fn point_round_trip() {
    assert_eq!(structural_name(&point_op()), Ok("Point"));
    assert_point(decode(vec![WireEntry::Type("Point".to_string()), point_data()]));
}

#[test]
fn point_with_wrong_tag_is_rejected() {
    let r = decode(vec![WireEntry::Type("NotPoint".to_string()), point_data()]);
    match r {
        Err(e) => assert_eq!(
            e,
            DecodeError::WrongType { expected: "Point", got: "NotPoint".to_string() }
        ),
        Ok(_) => panic!("a tampered tag was accepted"),
    }
}

#[test]
fn tag_differing_only_in_case_is_rejected() {
    let r = decode(vec![WireEntry::Type("point".to_string()), point_data()]);
    assert!(matches!(r, Err(DecodeError::WrongType { .. })));
}

#[test]
fn extra_field_is_ignored() {
    assert_point(decode(vec![
        WireEntry::Type("Point".to_string()),
        WireEntry::Ignored,
        point_data(),
    ]));
    assert_point(decode(vec![
        WireEntry::Ignored,
        WireEntry::Type("Point".to_string()),
        point_data(),
        WireEntry::Ignored,
    ]));
}

#[test]
fn data_before_type_decodes_the_same() {
    assert_point(decode(vec![point_data(), WireEntry::Type("Point".to_string())]));
}

#[test]
fn missing_data_is_reported() {
    let r = decode::<Point>(vec![WireEntry::Type("Point".to_string())]);
    assert!(matches!(r, Err(DecodeError::MissingField(RequestField::Data))));
}

#[test]
fn missing_type_is_reported() {
    let r = decode(vec![point_data(), WireEntry::Ignored]);
    assert!(matches!(r, Err(DecodeError::MissingField(RequestField::Type))));
}

#[test]
fn empty_record_reports_data_first() {
    let r = decode::<Point>(vec![]);
    assert!(matches!(r, Err(DecodeError::MissingField(RequestField::Data))));
}

#[test]
fn payload_that_is_no_record_is_rejected() {
    let r = decode(vec![
        WireEntry::Type("u32".to_string()),
        WireEntry::Data { value: 5u32, name: structural_name(&SerializeOp::U32) },
    ]);
    assert!(matches!(r, Err(DecodeError::NotStruct)));
}

#[test]
fn later_field_replaces_earlier_one() {
    assert_point(decode(vec![
        WireEntry::Type("Other".to_string()),
        point_data(),
        WireEntry::Type("Point".to_string()),
    ]));
    let r = decode(vec![
        WireEntry::Type("Point".to_string()),
        point_data(),
        WireEntry::Type("Other".to_string()),
    ]);
    assert!(matches!(r, Err(DecodeError::WrongType { .. })));
}
