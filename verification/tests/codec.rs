use std::sync::Arc;

use typedb_driver_core::answer::concept_document::json_attribute_type;
use typedb_driver_core::answer::concept_document::json_kind;
use typedb_driver_core::answer::concept_document::json_struct;
use typedb_driver_core::answer::concept_document::json_type;
use typedb_driver_core::answer::concept_document::json_value;
use typedb_driver_core::answer::concept_document::json_value_type;
use typedb_driver_core::answer::concept_document::ConceptDocument;
use typedb_driver_core::answer::concept_document::ConceptDocumentHeader;
use typedb_driver_core::answer::concept_document::Leaf;
use typedb_driver_core::answer::concept_document::Node;
use typedb_driver_core::answer::concept_document::Unencodable;
use typedb_driver_core::answer::json::Number;
use typedb_driver_core::answer::json::JSON;
use typedb_driver_core::answer::round_trip::kind_of_name;
use typedb_driver_core::answer::round_trip::read_type;
use typedb_driver_core::answer::round_trip::TypeDescriptor;
use typedb_driver_core::answer::QueryType;
use typedb_driver_core::concept::temporal::Date;
use typedb_driver_core::concept::temporal::Datetime;
use typedb_driver_core::concept::temporal::DatetimeTZ;
use typedb_driver_core::concept::value::Decimal;
use typedb_driver_core::concept::value::Double;
use typedb_driver_core::concept::value::Duration;
use typedb_driver_core::concept::value::Struct;
use typedb_driver_core::concept::value::Value;
use typedb_driver_core::concept::value::ValueType;
use typedb_driver_core::concept::Attribute;
use typedb_driver_core::concept::AttributeType;
use typedb_driver_core::concept::Concept;
use typedb_driver_core::concept::Entity;
use typedb_driver_core::concept::EntityType;
use typedb_driver_core::concept::Kind;
use typedb_driver_core::concept::Relation;
use typedb_driver_core::concept::RelationType;
use typedb_driver_core::concept::RoleType;
use typedb_driver_core::concept::ScopedLabel;

fn text(s: &str) -> JSON {
    JSON::String(String::from(s))
}

fn object(members: Vec<(&str, JSON)>) -> JSON {
    JSON::Object(members.into_iter().map(|(name, json)| (String::from(name), json)).collect())
}

fn attribute_type(label: &str, value_type: Option<ValueType>) -> AttributeType {
    AttributeType { label: String::from(label), value_type }
}

#[test]
fn attribute_type_leaf_encodes_kind_label_and_value_type() {
    let leaf = Leaf::Concept(Concept::AttributeType(attribute_type("age", Some(ValueType::Long))));
    assert_eq!(
        leaf.into_json(),
        object(vec![("kind", text("attribute")), ("label", text("age")), ("value_type", text("long"))])
    );
}

#[test]
fn attribute_type_without_value_type_says_none() {
    let leaf = Leaf::Concept(Concept::AttributeType(attribute_type("thing", None)));
    assert_eq!(
        leaf.into_json(),
        object(vec![("kind", text("attribute")), ("label", text("thing")), ("value_type", text("none"))])
    );
}

#[test]
fn attribute_instance_leaf_encodes_type_and_value() {
    let leaf = Leaf::Concept(Concept::Attribute(Attribute {
        iid: vec![1, 2, 3],
        value: Value::String(String::from("Alice")),
        type_: Some(attribute_type("name", Some(ValueType::String))),
    }));
    assert_eq!(
        leaf.into_json(),
        object(vec![
            (
                "type",
                object(vec![
                    ("kind", text("attribute")),
                    ("label", text("name")),
                    ("value_type", text("string")),
                ])
            ),
            ("value", text("Alice")),
        ])
    );
}

#[test]
fn attribute_instance_takes_the_value_type_from_its_value() {
    let leaf = Leaf::Concept(Concept::Attribute(Attribute {
        iid: Vec::new(),
        value: Value::Long(7),
        type_: Some(attribute_type("count", None)),
    }));
    assert_eq!(
        leaf.into_json(),
        object(vec![
            (
                "type",
                object(vec![
                    ("kind", text("attribute")),
                    ("label", text("count")),
                    ("value_type", text("long")),
                ])
            ),
            ("value", JSON::Number(Number::Integer(7))),
        ])
    );
}

#[test]
fn free_boolean_value_encodes_value_type_and_value() {
    let leaf = Leaf::Concept(Concept::Value(Value::Boolean(true)));
    assert_eq!(
        leaf.into_json(),
        object(vec![("value_type", text("boolean")), ("value", JSON::Boolean(true))])
    );
}

#[test]
fn list_of_leaves_keeps_its_order() {
    let node = Node::List(vec![Node::Leaf(Some(Leaf::Empty)), Node::Leaf(Some(Leaf::Kind(Kind::Entity)))]);
    assert_eq!(node.into_json(), JSON::Array(vec![JSON::Null, text("entity")]));
}

#[test]
fn absent_leaf_is_null() {
    assert_eq!(Node::Leaf(None).into_json(), JSON::Null);
    assert_eq!(Leaf::Empty.into_json(), JSON::Null);
}

#[test]
fn entity_instance_leaf_is_refused() {
    let entity = Entity { iid: vec![1], type_: Some(EntityType { label: String::from("person") }) };
    let leaf = Leaf::Concept(Concept::Entity(entity));
    assert!(!leaf.is_encodable());
    let node = Node::Leaf(Some(leaf));
    assert!(!node.is_encodable());
    assert_eq!(node.try_into_json(), Err(Unencodable));
}

#[test]
fn relation_instance_leaf_is_refused() {
    let relation = Relation { iid: vec![2], type_: None };
    let node = Node::Mapping(vec![
        (String::from("ok"), Node::Leaf(Some(Leaf::Kind(Kind::Role)))),
        (
            String::from("bad"),
            Node::List(vec![Node::Leaf(None), Node::Leaf(Some(Leaf::Concept(Concept::Relation(relation))))]),
        ),
    ]);
    assert!(!node.is_encodable());
    assert_eq!(node.clone().try_into_json(), Err(Unencodable));
    let header = Arc::new(ConceptDocumentHeader { query_type: QueryType::ReadQuery });
    assert_eq!(ConceptDocument::new(header, Some(node)).try_into_json(), Err(Unencodable));
}

#[test]
fn attribute_without_its_type_is_refused() {
    let leaf = Leaf::Concept(Concept::Attribute(Attribute {
        iid: Vec::new(),
        value: Value::Long(1),
        type_: None,
    }));
    assert!(!leaf.is_encodable());
    assert_eq!(Node::Leaf(Some(leaf)).try_into_json(), Err(Unencodable));
}

#[test]
fn encodable_document_is_encoded_by_the_checked_entry_too() {
    let node = Node::List(vec![Node::Leaf(None), Node::Leaf(Some(Leaf::Kind(Kind::Attribute)))]);
    assert!(node.is_encodable());
    assert_eq!(node.try_into_json(), Ok(JSON::Array(vec![JSON::Null, text("attribute")])));
}

#[test]
fn struct_encodes_unset_field_as_null_under_its_name() {
    let fields = Struct {
        fields: vec![(String::from("nickname"), None), (String::from("name"), Some(Value::String(String::from("Bob"))))],
    };
    assert_eq!(
        json_value(Value::Struct(fields, String::from("person"))),
        object(vec![("person", object(vec![("nickname", JSON::Null), ("name", text("Bob"))]))])
    );
}

#[test]
fn struct_fields_encode_each_to_its_value() {
    let inner = Struct { fields: vec![(String::from("x"), Some(Value::Long(-1)))] };
    let fields = Struct {
        fields: vec![
            (String::from("at"), Some(Value::Struct(inner, String::from("point")))),
            (String::from("on"), Some(Value::Boolean(false))),
        ],
    };
    assert_eq!(
        json_struct(fields),
        object(vec![
            ("at", object(vec![("point", object(vec![("x", JSON::Number(Number::Integer(-1)))]))])),
            ("on", JSON::Boolean(false)),
        ])
    );
    assert_eq!(json_struct(Struct { fields: Vec::new() }), object(Vec::new()));
}

#[test]
fn value_type_names() {
    assert_eq!(json_value_type(None), text("none"));
    assert_eq!(json_value_type(Some(ValueType::Boolean)), text("boolean"));
    assert_eq!(json_value_type(Some(ValueType::Long)), text("long"));
    assert_eq!(json_value_type(Some(ValueType::Double)), text("double"));
    assert_eq!(json_value_type(Some(ValueType::Decimal)), text("decimal"));
    assert_eq!(json_value_type(Some(ValueType::String)), text("string"));
    assert_eq!(json_value_type(Some(ValueType::Date)), text("date"));
    assert_eq!(json_value_type(Some(ValueType::Datetime)), text("datetime"));
    assert_eq!(json_value_type(Some(ValueType::DatetimeTZ)), text("datetime-tz"));
    assert_eq!(json_value_type(Some(ValueType::Duration)), text("duration"));
    assert_eq!(json_value_type(Some(ValueType::Struct(String::from("person")))), text("person"));
}

#[test]
fn bare_descriptors_encode_as_their_names() {
    assert_eq!(Leaf::ValueType(ValueType::Decimal).into_json(), text("decimal"));
    assert_eq!(Leaf::ValueType(ValueType::Struct(String::from("point"))).into_json(), text("point"));
    assert_eq!(Leaf::Kind(Kind::Relation).into_json(), text("relation"));
    assert_eq!(json_kind(Kind::Role), text("role"));
}

#[test]
fn type_leaves_encode_kind_and_label() {
    assert_eq!(
        Leaf::Concept(Concept::EntityType(EntityType { label: String::from("person") })).into_json(),
        object(vec![("kind", text("entity")), ("label", text("person"))])
    );
    assert_eq!(
        Leaf::Concept(Concept::RelationType(RelationType { label: String::from("marriage") })).into_json(),
        object(vec![("kind", text("relation")), ("label", text("marriage"))])
    );
    let role = RoleType { label: ScopedLabel { scope: String::from("marriage"), name: String::from("spouse") } };
    assert_eq!(
        Leaf::Concept(Concept::RoleType(role)).into_json(),
        object(vec![("kind", text("role")), ("label", text("marriage:spouse"))])
    );
    assert_eq!(
        json_type(Kind::Entity, String::from("dog")),
        object(vec![("kind", text("entity")), ("label", text("dog"))])
    );
    assert_eq!(
        json_attribute_type(String::from("age"), Some(ValueType::Double)),
        object(vec![("kind", text("attribute")), ("label", text("age")), ("value_type", text("double"))])
    );
}

#[test]
fn values_encode_each_in_its_way() {
    let date = Date::new(2024, 2, 29).unwrap();
    assert_eq!(json_value(Value::Boolean(false)), JSON::Boolean(false));
    assert_eq!(json_value(Value::Long(-5)), JSON::Number(Number::Integer(-5)));
    assert_eq!(
        json_value(Value::Long(9_007_199_254_740_993)),
        JSON::Number(Number::Integer(9_007_199_254_740_993))
    );
    assert_eq!(
        json_value(Value::Double(Double { bits: 1.5f64.to_bits() })),
        JSON::Number(Number::Double(1.5f64.to_bits()))
    );
    assert_eq!(json_value(Value::Decimal(Decimal::new(3, 1_400_000_000_000_000_000).unwrap())), text("3.14"));
    assert_eq!(json_value(Value::String(String::from("as is"))), text("as is"));
    assert_eq!(json_value(Value::Date(date)), text("2024-02-29"));
    assert_eq!(
        json_value(Value::Datetime(Datetime::new(date, 13, 7, 9, 120_000_000).unwrap())),
        text("2024-02-29T13:07:09.120")
    );
    assert_eq!(
        json_value(Value::DatetimeTZ(DatetimeTZ::new(0, 0, String::from("UTC")).unwrap())),
        text("1970-01-01 00:00:00 UTC")
    );
    assert_eq!(json_value(Value::Duration(Duration::new(1, 2, 3_000_000_000))), text("P1M2DT3S"));
}

#[test]
fn mapping_encodes_each_entry_under_its_name() {
    let node = Node::Mapping(vec![
        (String::from("p"), Node::Leaf(Some(Leaf::Concept(Concept::EntityType(EntityType { label: String::from("person") }))))),
        (String::from("all"), Node::List(vec![Node::Leaf(None)])),
        (String::from("none"), Node::Leaf(None)),
    ]);
    let json = node.into_json();
    assert_eq!(
        json,
        object(vec![
            ("p", object(vec![("kind", text("entity")), ("label", text("person"))])),
            ("all", JSON::Array(vec![JSON::Null])),
            ("none", JSON::Null),
        ])
    );
    assert_eq!(json.get("all").unwrap().at(0), Some(&JSON::Null));
    assert_eq!(json.get("missing"), None);
}

#[test]
fn document_without_root_is_null() {
    let header = Arc::new(ConceptDocumentHeader { query_type: QueryType::WriteQuery });
    assert_eq!(ConceptDocument::new(header.clone(), None).into_json(), JSON::Null);
    assert_eq!(ConceptDocument::new(header, None).try_into_json(), Ok(JSON::Null));
}

#[test]
fn document_with_root_encodes_the_root() {
    let header = Arc::new(ConceptDocumentHeader { query_type: QueryType::ReadQuery });
    let document = ConceptDocument::new(header, Some(Node::Leaf(Some(Leaf::Kind(Kind::Entity)))));
    assert_eq!(document.clone().into_json(), text("entity"));
    assert_eq!(document.try_into_json(), Ok(text("entity")));
}

#[test]
fn documents_of_one_answer_share_the_header() {
    let header = Arc::new(ConceptDocumentHeader { query_type: QueryType::SchemaQuery });
    let first = ConceptDocument::new(header.clone(), None);
    let second = ConceptDocument::new(header.clone(), Some(Node::Leaf(None)));
    let third = second.clone();
    assert_eq!(first.get_query_type(), QueryType::SchemaQuery);
    assert_eq!(second.get_query_type(), QueryType::SchemaQuery);
    assert_eq!(third.get_query_type(), QueryType::SchemaQuery);
    assert_eq!(Arc::strong_count(&header), 4);
    assert_eq!(third, second);
    assert_eq!(second.root, Some(Node::Leaf(None)));
}

#[test]
fn type_leaf_round_trip() {
    let node = Node::Mapping(vec![
        (
            String::from("a"),
            Node::List(vec![
                Node::Leaf(Some(Leaf::Concept(Concept::AttributeType(attribute_type("age", Some(ValueType::Long)))))),
                Node::Leaf(Some(Leaf::Concept(Concept::EntityType(EntityType { label: String::from("person") })))),
            ]),
        ),
        (
            String::from("r"),
            Node::Leaf(Some(Leaf::Concept(Concept::RoleType(RoleType {
                label: ScopedLabel { scope: String::from("m"), name: String::from("s") },
            })))),
        ),
    ]);
    let json = node.into_json();
    assert_eq!(
        read_type(json.get("a").unwrap().at(0).unwrap()),
        Some(TypeDescriptor { kind: Kind::Attribute, label: String::from("age"), value_type: Some(String::from("long")) })
    );
    assert_eq!(
        read_type(json.get("a").unwrap().at(1).unwrap()),
        Some(TypeDescriptor { kind: Kind::Entity, label: String::from("person"), value_type: None })
    );
    assert_eq!(
        read_type(json.get("r").unwrap()),
        Some(TypeDescriptor { kind: Kind::Role, label: String::from("m:s"), value_type: None })
    );
}

#[test]
fn read_type_wants_a_kind_and_a_label() {
    assert_eq!(read_type(&JSON::Null), None);
    assert_eq!(read_type(&object(vec![("kind", text("entity"))])), None);
    assert_eq!(read_type(&object(vec![("label", text("x"))])), None);
    assert_eq!(read_type(&object(vec![("kind", text("thing")), ("label", text("x"))])), None);
    assert_eq!(read_type(&object(vec![("kind", JSON::Null), ("label", text("x"))])), None);
    assert_eq!(
        read_type(&object(vec![("kind", text("relation")), ("label", text("x")), ("value_type", JSON::Null)])),
        Some(TypeDescriptor { kind: Kind::Relation, label: String::from("x"), value_type: None })
    );
}

#[test]
fn kind_of_name_reads_the_four_names() {
    assert_eq!(kind_of_name(&String::from("entity")), Some(Kind::Entity));
    assert_eq!(kind_of_name(&String::from("attribute")), Some(Kind::Attribute));
    assert_eq!(kind_of_name(&String::from("relation")), Some(Kind::Relation));
    assert_eq!(kind_of_name(&String::from("role")), Some(Kind::Role));
    assert_eq!(kind_of_name(&String::from("Entity")), None);
}

#[test]
fn later_member_of_a_name_counts() {
    let json = object(vec![("a", JSON::Boolean(true)), ("b", JSON::Null), ("a", JSON::Boolean(false))]);
    assert_eq!(json.get("a"), Some(&JSON::Boolean(false)));
    assert_eq!(json.get("b"), Some(&JSON::Null));
    assert_eq!(JSON::Null.get("a"), None);
}

#[test]
fn json_accessors() {
    let array = JSON::Array(vec![text("x"), JSON::Null]);
    assert_eq!(array.at(0), Some(&text("x")));
    assert_eq!(array.at(2), None);
    assert_eq!(text("x").at(0), None);
    assert_eq!(text("x").as_text(), Some(&String::from("x")));
    assert_eq!(JSON::Null.as_text(), None);
    assert!(JSON::Null.is_null());
    assert!(!array.is_null());
    assert_eq!(array.clone(), array);
    let nested = object(vec![("k", array)]);
    assert_eq!(nested.clone(), nested);
}

#[test]
fn node_clone_is_equal() {
    let node = Node::Mapping(vec![
        (String::from("v"), Node::Leaf(Some(Leaf::Concept(Concept::Value(Value::Long(3)))))),
        (String::from("l"), Node::List(vec![Node::Leaf(Some(Leaf::ValueType(ValueType::Date))), Node::Leaf(None)])),
    ]);
    assert_eq!(node.clone(), node);
}
