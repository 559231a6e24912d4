//! Documents of concepts, and their encoding as generic documents.

use std::sync::Arc;
use vstd::prelude::*;
use crate::answer::QueryType;
use crate::answer::json::lemma_members_view_unfold;
use crate::answer::json::elements_view;
use crate::answer::json::members_view;
use crate::answer::json::JsonView;
use crate::answer::json::Number;
use crate::answer::json::JSON;
use crate::concept::kind_name;
use crate::concept::scoped_label_text;
use crate::concept::Attribute;
use crate::concept::AttributeType;
use crate::concept::Concept;
use crate::concept::ConceptView;
use crate::concept::EntityType;
use crate::concept::RelationType;
use crate::concept::RoleType;
use crate::concept::optional_value_type_view;
use crate::concept::Kind;
use crate::concept::temporal::date_text;
use crate::concept::temporal::datetime_text;
use crate::concept::temporal::zoned_text;
use crate::concept::value::decimal_text;
use crate::concept::value::duration_text;
use crate::concept::value::fields_view;
use crate::concept::value::value_type_of;
use crate::concept::value::optional_value_view;
use crate::concept::value::Struct;
use crate::concept::value::Value;
use crate::concept::value::ValueType;
use crate::concept::value::ValueTypeView;
use crate::concept::value::ValueView;

verus! {

/// The name of a value type as documents spell it: a fixed word for each
/// built-in type, the structure's own name for one that a user defined, and
/// `none` where there is no value type.
pub open spec fn value_type_name(value_type: Option<ValueTypeView>) -> Seq<char> {
    match value_type {
        None => "none"@,
        Some(ValueTypeView::Boolean) => "boolean"@,
        Some(ValueTypeView::Long) => "long"@,
        Some(ValueTypeView::Double) => "double"@,
        Some(ValueTypeView::Decimal) => "decimal"@,
        Some(ValueTypeView::String) => "string"@,
        Some(ValueTypeView::Date) => "date"@,
        Some(ValueTypeView::Datetime) => "datetime"@,
        Some(ValueTypeView::DatetimeTZ) => "datetime-tz"@,
        Some(ValueTypeView::Duration) => "duration"@,
        Some(ValueTypeView::Struct(name)) => name,
    }
}

/// The document of a kind: its name.
pub open spec fn kind_json(kind: Kind) -> JsonView {
    JsonView::String(kind_name(kind))
}

/// The document of a value type: its name.
pub open spec fn value_type_json(value_type: Option<ValueTypeView>) -> JsonView {
    JsonView::String(value_type_name(value_type))
}

/// The document of a type that has no value type: `{kind, label}`.
pub open spec fn type_json(kind: Kind, label: Seq<char>) -> JsonView {
    JsonView::Object(map!["kind"@ => kind_json(kind), "label"@ => JsonView::String(label)])
}

/// The document of an attribute type: `{kind: "attribute", label, value_type}`.
pub open spec fn attribute_type_json(
    label: Seq<char>,
    value_type: Option<ValueTypeView>,
) -> JsonView {
    JsonView::Object(
        map![
            "kind"@ => kind_json(Kind::Attribute),
            "label"@ => JsonView::String(label),
            "value_type"@ => value_type_json(value_type),
        ],
    )
}

/// The five names of members that the documents of leaves use differ from
/// each other.
pub proof fn lemma_member_names_differ()
    ensures
        "type"@ != "kind"@,
        "type"@ != "label"@,
        "type"@ != "value_type"@,
        "type"@ != "value"@,
        "kind"@ != "label"@,
        "kind"@ != "value_type"@,
        "kind"@ != "value"@,
        "label"@ != "value_type"@,
        "label"@ != "value"@,
        "value_type"@ != "value"@,
{
    reveal_strlit("type");
    reveal_strlit("kind");
    reveal_strlit("label");
    reveal_strlit("value_type");
    reveal_strlit("value");
    assert("type"@[0] != "kind"@[0]);
    assert("type"@[0] != "label"@[0]);
    assert("type"@[0] != "value_type"@[0]);
    assert("type"@[0] != "value"@[0]);
    assert("kind"@[0] != "label"@[0]);
    assert("kind"@[0] != "value_type"@[0]);
    assert("kind"@[0] != "value"@[0]);
    assert("label"@[0] != "value_type"@[0]);
    assert("label"@[0] != "value"@[0]);
    assert("value_type"@.len() != "value"@.len());
}

/// The document of a kind.
pub fn json_kind(kind: Kind) -> (json: JSON)
    ensures
        json@ == kind_json(kind),
{
    JSON::String(String::from_str(kind.name()))
}

/// The document of a value type, or of the lack of one.
pub fn json_value_type(value_type: Option<ValueType>) -> (json: JSON)
    ensures
        json@ == value_type_json(optional_value_type_view(value_type)),
{
    JSON::String(
        match value_type {
            None => String::from_str("none"),
            Some(ValueType::Boolean) => String::from_str("boolean"),
            Some(ValueType::Long) => String::from_str("long"),
            Some(ValueType::Double) => String::from_str("double"),
            Some(ValueType::Decimal) => String::from_str("decimal"),
            Some(ValueType::String) => String::from_str("string"),
            Some(ValueType::Date) => String::from_str("date"),
            Some(ValueType::Datetime) => String::from_str("datetime"),
            Some(ValueType::DatetimeTZ) => String::from_str("datetime-tz"),
            Some(ValueType::Duration) => String::from_str("duration"),
            Some(ValueType::Struct(name)) => name,
        },
    )
}

/// The document of a type that has no value type.
pub fn json_type(kind: Kind, label: String) -> (json: JSON)
    ensures
        json@ == type_json(kind, label@),
{
    let mut members: Vec<(String, JSON)> = Vec::new();
    members.push((String::from_str("kind"), json_kind(kind)));
    members.push((String::from_str("label"), JSON::String(label)));
    proof {
        lemma_members_view_unfold(members, 0);
        lemma_members_view_unfold(members, 1);
        lemma_members_view_unfold(members, 2);
        assert(members_view(members, 2) =~= type_json(kind, label@)->Object_0);
    }
    JSON::Object(members)
}

/// The document of an attribute type.
pub fn json_attribute_type(label: String, value_type: Option<ValueType>) -> (json: JSON)
    ensures
        json@ == attribute_type_json(label@, optional_value_type_view(value_type)),
{
    let ghost value_type_view = optional_value_type_view(value_type);
    let mut members: Vec<(String, JSON)> = Vec::new();
    members.push((String::from_str("kind"), JSON::String(String::from_str(Kind::Attribute.name()))));
    members.push((String::from_str("label"), JSON::String(label)));
    members.push((String::from_str("value_type"), json_value_type(value_type)));
    proof {
        lemma_members_view_unfold(members, 0);
        lemma_members_view_unfold(members, 1);
        lemma_members_view_unfold(members, 2);
        lemma_members_view_unfold(members, 3);
        assert(members_view(members, 3) =~= attribute_type_json(
            label@,
            value_type_view,
        )->Object_0);
    }
    JSON::Object(members)
}

/// The document of a value. A whole number is kept exactly; a double keeps its
/// bit pattern; a decimal, a date, a date and time, an instant in a zone and a
/// duration are written as their canonical texts; a structure is an object
/// with one member, named after the structure's type, that holds an object
/// with a member for each field: the document of its value, or null where the
/// field is unset.
pub open spec fn value_json(value: ValueView) -> JsonView
    decreases value,
{
    match value {
        ValueView::Boolean(flag) => JsonView::Boolean(flag),
        ValueView::Long(number) => JsonView::Number(Number::Integer(number)),
        ValueView::Double(double) => JsonView::Number(Number::Double(double.bits)),
        ValueView::Decimal(decimal) => JsonView::String(decimal_text(decimal)),
        ValueView::String(text) => JsonView::String(text),
        ValueView::Date(date) => JsonView::String(date_text(date)),
        ValueView::Datetime(datetime) => JsonView::String(datetime_text(datetime)),
        ValueView::DatetimeTZ(datetime) => JsonView::String(zoned_text(datetime)),
        ValueView::Duration(duration) => JsonView::String(duration_text(duration)),
        ValueView::Struct(fields, name) => JsonView::Object(
            map![
                name => JsonView::Object(
                    Map::new(
                        |field: Seq<char>| fields.contains_key(field),
                        |field: Seq<char>|
                            if fields.contains_key(field) {
                                match fields[field] {
                                    Some(value) => value_json(value),
                                    None => JsonView::Null,
                                }
                            } else {
                                JsonView::Null
                            },
                    ),
                ),
            ],
        ),
    }
}

/// The document of a field of a structure: that of its value, or null where
/// the field is unset.
pub open spec fn field_json(value: Option<ValueView>) -> JsonView {
    match value {
        Some(value) => value_json(value),
        None => JsonView::Null,
    }
}

/// The document of a structure's fields: an object with a member for each
/// field.
pub open spec fn struct_json(fields: Map<Seq<char>, Option<ValueView>>) -> JsonView {
    JsonView::Object(
        Map::new(
            |field: Seq<char>| fields.contains_key(field),
            |field: Seq<char>|
                if fields.contains_key(field) {
                    field_json(fields[field])
                } else {
                    JsonView::Null
                },
        ),
    )
}

/// The document of a structure holds the document of its fields under the
/// name of the structure's type.
pub proof fn lemma_struct_value_json(fields: Map<Seq<char>, Option<ValueView>>, name: Seq<char>)
    ensures
        value_json(ValueView::Struct(fields, name)) == JsonView::Object(
            map![name => struct_json(fields)],
        ),
{
    let inner = value_json(ValueView::Struct(fields, name))->Object_0[name];
    assert(inner->Object_0 =~= struct_json(fields)->Object_0);
}

proof fn lemma_struct_members(
    fields: Vec<(String, Option<Value>)>,
    members: Vec<(String, JSON)>,
    count: nat,
)
    requires
        count <= fields.len(),
        count <= members.len(),
        forall|i: int|
            0 <= i < count ==> (#[trigger] members[i]).0@ == fields[i].0@ && members[i].1@
                == field_json(optional_value_view(fields[i].1)),
    ensures
        JsonView::Object(members_view(members, count)) == struct_json(fields_view(fields, count)),
    decreases count,
{
    lemma_members_view_unfold(members, count);
    if count > 0 {
        lemma_struct_members(fields, members, (count - 1) as nat);
        assert(members[count - 1].0@ == fields[count - 1].0@);
        assert(struct_json(fields_view(fields, (count - 1) as nat))->Object_0 == members_view(
            members,
            (count - 1) as nat,
        ));
    }
    assert(members_view(members, count) =~= struct_json(fields_view(fields, count))->Object_0);
}

/// The document of a structure's fields.
pub fn json_struct(struct_: Struct) -> (json: JSON)
    ensures
        json@ == struct_json(struct_@),
    decreases struct_,
{
    let ghost all = struct_.fields;
    let mut members: Vec<(String, JSON)> = Vec::new();
    for field in it: struct_.fields
        invariant
            it.seq() == all@,
            members.len() == it.index(),
            decreases_to!(struct_ => all),
            forall|i: int|
                0 <= i < it.index() ==> (#[trigger] members[i]).0@ == all[i].0@ && members[i].1@
                    == field_json(optional_value_view(all[i].1)),
    {
        let (key, value_option) = field;
        assert(decreases_to!(all => all[it.index() as int]));
        let json_value = match value_option {
            Some(value) => json_value(value),
            None => JSON::Null,
        };
        members.push((key, json_value));
    }
    proof {
        lemma_struct_members(all, members, all.len() as nat);
    }
    JSON::Object(members)
}

/// The document of a value.
pub fn json_value(value: Value) -> (json: JSON)
    ensures
        json@ == value_json(value@),
    decreases value,
{
    match value {
        Value::Boolean(flag) => JSON::Boolean(flag),
        Value::Long(long) => JSON::Number(Number::Integer(long)),
        Value::Double(double) => JSON::Number(Number::Double(double.bits)),
        Value::Decimal(decimal) => JSON::String(decimal.to_text()),
        Value::String(string) => JSON::String(string),
        Value::Date(date) => JSON::String(date.to_text()),
        Value::Datetime(datetime) => JSON::String(datetime.to_text()),
        Value::DatetimeTZ(datetime_tz) => JSON::String(datetime_tz.to_text()),
        Value::Duration(duration) => JSON::String(duration.to_text()),
        Value::Struct(struct_, struct_name) => {
            let ghost fields = struct_@;
            let mut members: Vec<(String, JSON)> = Vec::new();
            members.push((struct_name, json_struct(struct_)));
            proof {
                lemma_members_view_unfold(members, 0);
                lemma_members_view_unfold(members, 1);
                lemma_struct_value_json(fields, struct_name@);
                assert(members_view(members, 1) =~= map![struct_name@ => struct_json(fields)]);
            }
            JSON::Object(members)
        },
    }
}

/// A leaf of a document of concepts.
#[derive(Debug, PartialEq)]
pub enum Leaf {
    Empty,
    Concept(Concept),
    ValueType(ValueType),
    Kind(Kind),
}

/// What a `Leaf` stands for.
pub enum LeafView {
    Empty,
    Concept(ConceptView),
    ValueType(ValueTypeView),
    Kind(Kind),
}

impl View for Leaf {
    type V = LeafView;

    open spec fn view(&self) -> LeafView {
        match self {
            Leaf::Empty => LeafView::Empty,
            Leaf::Concept(concept) => LeafView::Concept(concept@),
            Leaf::ValueType(value_type) => LeafView::ValueType(value_type@),
            Leaf::Kind(kind) => LeafView::Kind(*kind),
        }
    }
}

/// Whether a leaf has a document. An entity or a relation has none: answers
/// of this shape hold types and values only. An attribute has one where it
/// carries its type.
pub open spec fn leaf_encodable(leaf: LeafView) -> bool {
    match leaf {
        LeafView::Concept(ConceptView::Entity(_, _)) => false,
        LeafView::Concept(ConceptView::Relation(_, _)) => false,
        LeafView::Concept(ConceptView::Attribute(attribute)) => attribute.type_ is Some,
        _ => true,
    }
}

/// The document of a leaf that has one.
pub open spec fn leaf_json(leaf: LeafView) -> JsonView {
    match leaf {
        LeafView::Empty => JsonView::Null,
        LeafView::Concept(ConceptView::EntityType(label)) => type_json(Kind::Entity, label),
        LeafView::Concept(ConceptView::RelationType(label)) => type_json(Kind::Relation, label),
        LeafView::Concept(ConceptView::AttributeType(type_)) => attribute_type_json(
            type_.label,
            type_.value_type,
        ),
        LeafView::Concept(ConceptView::RoleType(label)) => type_json(
            Kind::Role,
            scoped_label_text(label),
        ),
        LeafView::Concept(ConceptView::Attribute(attribute)) => JsonView::Object(
            map![
                "type"@ => attribute_type_json(
                    attribute.type_.unwrap().label,
                    Some(value_type_of(attribute.value)),
                ),
                "value"@ => value_json(attribute.value),
            ],
        ),
        LeafView::Concept(ConceptView::Value(value)) => JsonView::Object(
            map![
                "value_type"@ => value_type_json(Some(value_type_of(value))),
                "value"@ => value_json(value),
            ],
        ),
        LeafView::Concept(ConceptView::Entity(_, _)) => JsonView::Null,
        LeafView::Concept(ConceptView::Relation(_, _)) => JsonView::Null,
        LeafView::ValueType(value_type) => value_type_json(Some(value_type)),
        LeafView::Kind(kind) => kind_json(kind),
    }
}

impl Leaf {
    /// Whether this leaf has a document.
    pub fn is_encodable(&self) -> (encodable: bool)
        ensures
            encodable == leaf_encodable(self@),
    {
        match self {
            Leaf::Concept(Concept::Entity(_)) => false,
            Leaf::Concept(Concept::Relation(_)) => false,
            Leaf::Concept(Concept::Attribute(attribute)) => attribute.type_.is_some(),
            _ => true,
        }
    }

    /// The document of this leaf.
    pub fn into_json(self) -> (json: JSON)
        requires
            leaf_encodable(self@),
        ensures
            json@ == leaf_json(self@),
    {
        match self {
            Leaf::Empty => JSON::Null,
            Leaf::Concept(Concept::EntityType(EntityType { label })) => json_type(
                Kind::Entity,
                label,
            ),
            Leaf::Concept(Concept::RelationType(RelationType { label })) => json_type(
                Kind::Relation,
                label,
            ),
            Leaf::Concept(Concept::AttributeType(AttributeType { label, value_type })) => {
                json_attribute_type(label, value_type)
            },
            Leaf::Concept(Concept::RoleType(RoleType { label })) => json_type(
                Kind::Role,
                label.to_text(),
            ),
            Leaf::Concept(Concept::Attribute(Attribute { iid: _, value, type_ })) => {
                let ghost want = leaf_json(self@);
                let value_type = value.get_type();
                let mut members: Vec<(String, JSON)> = Vec::new();
                members.push(
                    (
                        String::from_str("type"),
                        json_attribute_type(type_.unwrap().label, Some(value_type)),
                    ),
                );
                members.push((String::from_str("value"), json_value(value)));
                proof {
                    lemma_members_view_unfold(members, 0);
                    lemma_members_view_unfold(members, 1);
                    lemma_members_view_unfold(members, 2);
                    assert(members_view(members, 2) =~= want->Object_0);
                }
                JSON::Object(members)
            },
            Leaf::Concept(Concept::Value(value)) => {
                let ghost want = leaf_json(self@);
                let value_type = value.get_type();
                let mut members: Vec<(String, JSON)> = Vec::new();
                members.push((String::from_str("value_type"), json_value_type(Some(value_type))));
                members.push((String::from_str("value"), json_value(value)));
                proof {
                    lemma_members_view_unfold(members, 0);
                    lemma_members_view_unfold(members, 1);
                    lemma_members_view_unfold(members, 2);
                    assert(members_view(members, 2) =~= want->Object_0);
                }
                JSON::Object(members)
            },
            Leaf::Concept(Concept::Entity(_)) => unreached(),
            Leaf::Concept(Concept::Relation(_)) => unreached(),
            Leaf::ValueType(value_type) => json_value_type(Some(value_type)),
            Leaf::Kind(kind) => json_kind(kind),
        }
    }
}

/// A document of concepts: a mapping from names to documents, a list of
/// documents, or a leaf, which may be absent. Where a name occurs twice in a
/// mapping, the later entry counts.
#[derive(Debug, PartialEq)]
pub enum Node {
    Mapping(Vec<(String, Node)>),
    List(Vec<Node>),
    Leaf(Option<Leaf>),
}

/// What a `Node` stands for.
pub enum NodeView {
    Mapping(Map<Seq<char>, NodeView>),
    List(Seq<NodeView>),
    Leaf(Option<LeafView>),
}

/// What the first `count` entries of a mapping stand for.
pub open spec fn entries_view(entries: Vec<(String, Node)>, count: nat) -> Map<Seq<char>, NodeView>
    decreases entries, count,
{
    if count == 0 || count > entries.len() {
        Map::empty()
    } else {
        entries_view(entries, (count - 1) as nat).insert(
            entries[count - 1].0@,
            entries[count - 1].1.view(),
        )
    }
}

/// What the items of a list stand for.
pub open spec fn items_view(items: Vec<Node>) -> Seq<NodeView>
    decreases items, 0nat,
{
    Seq::new(
        items.len() as nat,
        |i: int|
            if 0 <= i < items.len() {
                items[i].view()
            } else {
                NodeView::Leaf(None)
            },
    )
}

impl View for Node {
    type V = NodeView;

    open spec fn view(&self) -> NodeView
        decreases self,
    {
        match self {
            Node::Mapping(entries) => NodeView::Mapping(entries_view(*entries, entries.len() as nat)),
            Node::List(items) => NodeView::List(items_view(*items)),
            Node::Leaf(Some(leaf)) => NodeView::Leaf(Some(leaf@)),
            Node::Leaf(None) => NodeView::Leaf(None),
        }
    }
}

/// The generic document of a document of concepts: an object with the same
/// names for a mapping, an array of the same length and order for a list, the
/// leaf's document for a leaf, and null for an absent one.
pub open spec fn node_json(node: NodeView) -> JsonView
    decreases node,
{
    match node {
        NodeView::Mapping(entries) => JsonView::Object(
            Map::new(
                |name: Seq<char>| entries.contains_key(name),
                |name: Seq<char>|
                    if entries.contains_key(name) {
                        node_json(entries[name])
                    } else {
                        JsonView::Null
                    },
            ),
        ),
        NodeView::List(items) => JsonView::Array(
            Seq::new(
                items.len(),
                |i: int|
                    if 0 <= i < items.len() {
                        node_json(items[i])
                    } else {
                        JsonView::Null
                    },
            ),
        ),
        NodeView::Leaf(Some(leaf)) => leaf_json(leaf),
        NodeView::Leaf(None) => JsonView::Null,
    }
}

/// A document that cannot be encoded: it holds an entity or a relation, or an
/// attribute that does not carry its type.
#[derive(Clone, Copy, Debug, PartialEq, Eq, Structural)]
pub struct Unencodable;

proof fn lemma_mapping_members(
    entries: Vec<(String, Node)>,
    members: Vec<(String, JSON)>,
    count: nat,
)
    requires
        count <= entries.len(),
        count <= members.len(),
        forall|i: int|
            0 <= i < count ==> (#[trigger] members[i]).0@ == entries[i].0@ && members[i].1@
                == node_json(entries[i].1@),
    ensures
        JsonView::Object(members_view(members, count)) == node_json(
            NodeView::Mapping(entries_view(entries, count)),
        ),
    decreases count,
{
    lemma_members_view_unfold(members, count);
    if count > 0 {
        lemma_mapping_members(entries, members, (count - 1) as nat);
        assert(members[count - 1].0@ == entries[count - 1].0@);
        assert(node_json(NodeView::Mapping(entries_view(entries, (count - 1) as nat)))->Object_0
            == members_view(members, (count - 1) as nat));
    }
    assert(members_view(members, count) =~= node_json(
        NodeView::Mapping(entries_view(entries, count)),
    )->Object_0);
}

impl Node {
    /// Whether every leaf of this document has a document of its own.
    pub open spec fn encodable(self) -> bool
        decreases self,
    {
        match self {
            Node::Mapping(entries) => forall|i: int|
                0 <= i < entries.len() ==> (#[trigger] entries[i]).1.encodable(),
            Node::List(items) => forall|i: int|
                0 <= i < items.len() ==> (#[trigger] items[i]).encodable(),
            Node::Leaf(Some(leaf)) => leaf_encodable(leaf@),
            Node::Leaf(None) => true,
        }
    }

    /// Whether every leaf of this document has a document of its own.
    pub fn is_encodable(&self) -> (encodable: bool)
        ensures
            encodable == self.encodable(),
        decreases self,
    {
        match self {
            Node::Mapping(entries) => {
                let mut at: usize = 0;
                while at < entries.len()
                    invariant
                        at <= entries.len(),
                        decreases_to!(self => entries),
                        self.encodable() == (forall|i: int|
                            0 <= i < entries.len() ==> (#[trigger] entries[i]).1.encodable()),
                        forall|i: int| 0 <= i < at ==> (#[trigger] entries[i]).1.encodable(),
                    decreases entries.len() - at,
                {
                    if !entries[at].1.is_encodable() {
                        assert(!entries[at as int].1.encodable());
                        return false;
                    }
                    at = at + 1;
                }
                true
            },
            Node::List(items) => {
                let mut at: usize = 0;
                while at < items.len()
                    invariant
                        at <= items.len(),
                        decreases_to!(self => items),
                        self.encodable() == (forall|i: int|
                            0 <= i < items.len() ==> (#[trigger] items[i]).encodable()),
                        forall|i: int| 0 <= i < at ==> (#[trigger] items[i]).encodable(),
                    decreases items.len() - at,
                {
                    if !items[at].is_encodable() {
                        assert(!items[at as int].encodable());
                        return false;
                    }
                    at = at + 1;
                }
                true
            },
            Node::Leaf(Some(leaf)) => leaf.is_encodable(),
            Node::Leaf(None) => true,
        }
    }

    /// The generic document of this document of concepts.
    pub fn into_json(self) -> (json: JSON)
        requires
            self.encodable(),
        ensures
            json@ == node_json(self@),
        decreases self,
    {
        match self {
            Node::Mapping(map) => {
                let ghost all = map;
                let mut members: Vec<(String, JSON)> = Vec::new();
                for entry in it: map
                    invariant
                        it.seq() == all@,
                        members.len() == it.index(),
                        decreases_to!(self => all),
                        forall|i: int| 0 <= i < all.len() ==> (#[trigger] all[i]).1.encodable(),
                        forall|i: int|
                            0 <= i < it.index() ==> (#[trigger] members[i]).0@ == all[i].0@
                                && members[i].1@ == node_json(all[i].1@),
                {
                    let (var, node) = entry;
                    assert(decreases_to!(all => all[it.index() as int]));
                    assert(all[it.index() as int].1.encodable());
                    let json = node.into_json();
                    members.push((var, json));
                }
                proof {
                    lemma_mapping_members(all, members, all.len() as nat);
                }
                JSON::Object(members)
            },
            Node::List(list) => {
                let ghost all = list;
                let mut elements: Vec<JSON> = Vec::new();
                for node in it: list
                    invariant
                        it.seq() == all@,
                        elements.len() == it.index(),
                        decreases_to!(self => all),
                        forall|i: int| 0 <= i < all.len() ==> (#[trigger] all[i]).encodable(),
                        forall|i: int|
                            0 <= i < it.index() ==> (#[trigger] elements[i])@ == node_json(all[i]@),
                {
                    assert(decreases_to!(all => all[it.index() as int]));
                    assert(all[it.index() as int].encodable());
                    let json = node.into_json();
                    elements.push(json);
                }
                proof {
                    assert(self@ == NodeView::List(items_view(all)));
                    let want = node_json(self@)->Array_0;
                    assert forall|i: int| 0 <= i < all.len() implies elements_view(elements)[i]
                        == want[i] by {
                        assert(elements[i]@ == node_json(all[i]@));
                        assert(items_view(all)[i] == all[i]@);
                    }
                    assert(elements_view(elements) =~= want);
                }
                JSON::Array(elements)
            },
            Node::Leaf(Some(leaf)) => leaf.into_json(),
            Node::Leaf(None) => JSON::Null,
        }
    }

    /// The generic document of this document of concepts, or the refusal of
    /// one that holds a leaf without a document.
    pub fn try_into_json(self) -> (outcome: Result<JSON, Unencodable>)
        ensures
            outcome is Ok == self.encodable(),
            outcome matches Ok(json) ==> json@ == node_json(self@),
    {
        if self.is_encodable() {
            Ok(self.into_json())
        } else {
            Err(Unencodable)
        }
    }
}

/// What the documents of one answer share: the type of the query.
#[derive(Debug, PartialEq)]
pub struct ConceptDocumentHeader {
    pub query_type: QueryType,
}

/// A single document of concepts: the substitutions for the variables of a
/// query. It holds the header that all documents of the answer share, and
/// the document itself, which may be absent.
#[derive(Debug, PartialEq)]
pub struct ConceptDocument {
    header: Arc<ConceptDocumentHeader>,
    pub root: Option<Node>,
}

/// The generic document of an answer: that of its root, or null where there is
/// none.
pub open spec fn document_json(root: Option<NodeView>) -> JsonView {
    match root {
        Some(node) => node_json(node),
        None => JsonView::Null,
    }
}

/// What an optional node stands for.
pub open spec fn optional_node_view(node: Option<Node>) -> Option<NodeView> {
    match node {
        Some(node) => Some(node@),
        None => None,
    }
}

impl ConceptDocument {
    /// The type of the query that this document answers.
    pub closed spec fn query_type(self) -> QueryType {
        self.header.query_type
    }

    /// The root of this document.
    pub closed spec fn root_node(self) -> Option<Node> {
        self.root
    }

    /// Whether this document can be encoded: it has no root, or every leaf
    /// under its root has a document.
    pub open spec fn encodable(self) -> bool {
        match self.root_node() {
            Some(node) => node.encodable(),
            None => true,
        }
    }

    pub fn new(header: Arc<ConceptDocumentHeader>, root: Option<Node>) -> (document: Self)
        ensures
            document.query_type() == header.query_type,
            document.root_node() == root,
    {
        Self { header, root }
    }

    /// The generic document of this answer.
    pub fn into_json(self) -> (json: JSON)
        requires
            self.encodable(),
        ensures
            json@ == document_json(optional_node_view(self.root_node())),
    {
        match self.root {
            None => JSON::Null,
            Some(root_node) => root_node.into_json(),
        }
    }

    /// The generic document of this answer, or the refusal of an answer that
    /// holds a leaf without a document.
    pub fn try_into_json(self) -> (outcome: Result<JSON, Unencodable>)
        ensures
            outcome is Ok == self.encodable(),
            outcome matches Ok(json) ==> json@ == document_json(optional_node_view(self.root_node())),
    {
        match self.root {
            None => Ok(JSON::Null),
            Some(root_node) => root_node.try_into_json(),
        }
    }

    /// Retrieve the executed query's type (shared by all elements in this stream).
    pub fn get_query_type(&self) -> (query_type: QueryType)
        ensures
            query_type == self.query_type(),
    {
        self.header.query_type
    }
}

impl Clone for Leaf {
    fn clone(&self) -> (copy: Leaf)
        ensures
            copy@ == self@,
    {
        match self {
            Leaf::Empty => Leaf::Empty,
            Leaf::Concept(concept) => Leaf::Concept(concept.clone()),
            Leaf::ValueType(value_type) => Leaf::ValueType(value_type.clone()),
            Leaf::Kind(kind) => Leaf::Kind(*kind),
        }
    }
}

proof fn lemma_entries_view_agree(
    left: Vec<(String, Node)>,
    right: Vec<(String, Node)>,
    count: nat,
)
    requires
        count <= left.len(),
        count <= right.len(),
        forall|i: int|
            0 <= i < count ==> (#[trigger] left[i]).0@ == right[i].0@ && left[i].1@ == right[i].1@,
    ensures
        entries_view(left, count) == entries_view(right, count),
    decreases count,
{
    if count > 0 {
        lemma_entries_view_agree(left, right, (count - 1) as nat);
        assert(left[count - 1].0@ == right[count - 1].0@);
    }
}

proof fn lemma_list_encodable_agree(left: Vec<Node>, right: Vec<Node>)
    requires
        left.len() == right.len(),
        forall|i: int| 0 <= i < left.len() ==> (#[trigger] left[i]).encodable() == right[i].encodable(),
    ensures
        Node::List(left).encodable() == Node::List(right).encodable(),
{
    let other = Node::List(left);
    if other.encodable() {
        assert(other->List_0 == left);
        assert forall|i: int| 0 <= i < right.len() implies (#[trigger] right[i]).encodable() by {
            let item = left[i];
            assert(item.encodable());
        }
    }
    let whole = Node::List(right);
    if whole.encodable() {
        assert(whole->List_0 == right);
        assert forall|i: int| 0 <= i < left.len() implies (#[trigger] left[i]).encodable() by {
            let item = right[i];
            assert(item.encodable());
        }
    }
}

impl Clone for Node {
    fn clone(&self) -> (copy: Node)
        ensures
            copy@ == self@,
            copy.encodable() == self.encodable(),
        decreases self,
    {
        match self {
            Node::Mapping(entries) => {
                let mut copies: Vec<(String, Node)> = Vec::new();
                let mut at: usize = 0;
                while at < entries.len()
                    invariant
                        at <= entries.len(),
                        copies.len() == at,
                        decreases_to!(self => entries),
                        forall|i: int|
                            0 <= i < at ==> (#[trigger] copies[i]).0@ == entries[i].0@
                                && copies[i].1@ == entries[i].1@ && copies[i].1.encodable()
                                == entries[i].1.encodable(),
                    decreases entries.len() - at,
                {
                    let entry = &entries[at];
                    copies.push((entry.0.clone(), entry.1.clone()));
                    at = at + 1;
                }
                proof {
                    lemma_entries_view_agree(copies, *entries, at as nat);
                }
                let copy = Node::Mapping(copies);
                proof {
                    assert(copy.encodable() == (forall|i: int|
                        0 <= i < copies.len() ==> (#[trigger] copies[i]).1.encodable()));
                    if self.encodable() {
                        assert forall|i: int| 0 <= i < copies.len() implies (#[trigger] copies[i]).1.encodable() by {
                            assert(entries[i].1.encodable());
                        }
                    }
                    if copy.encodable() {
                        assert forall|i: int| 0 <= i < entries.len() implies (#[trigger] entries[i]).1.encodable() by {
                            assert(copies[i].1.encodable());
                        }
                    }
                }
                copy
            },
            Node::List(items) => {
                let mut copies: Vec<Node> = Vec::new();
                let mut at: usize = 0;
                while at < items.len()
                    invariant
                        at <= items.len(),
                        copies.len() == at,
                        decreases_to!(self => items),
                        forall|i: int|
                            0 <= i < at ==> (#[trigger] copies[i])@ == items[i]@
                                && copies[i].encodable() == items[i].encodable(),
                    decreases items.len() - at,
                {
                    copies.push(items[at].clone());
                    at = at + 1;
                }
                assert(items_view(copies) =~= items_view(*items));
                let copy = Node::List(copies);
                proof {
                    lemma_list_encodable_agree(copies, *items);
                }
                copy
            },
            Node::Leaf(Some(leaf)) => Node::Leaf(Some(leaf.clone())),
            Node::Leaf(None) => Node::Leaf(None),
        }
    }
}

/// Calls `Arc::clone`. The contract is what std's documentation says of it:
/// the new pointer points to the same allocation, so to the same header.
#[verifier::external_body]
fn share_header(header: &Arc<ConceptDocumentHeader>) -> (shared: Arc<ConceptDocumentHeader>)
    ensures
        shared == *header,
{
    Arc::clone(header)
}

impl Clone for ConceptDocument {
    /// A document with the same root that shares this document's header.
    fn clone(&self) -> (copy: ConceptDocument)
        ensures
            copy.query_type() == self.query_type(),
            optional_node_view(copy.root_node()) == optional_node_view(self.root_node()),
            copy.encodable() == self.encodable(),
    {
        let root = match &self.root {
            Some(node) => Some(node.clone()),
            None => None,
        };
        ConceptDocument { header: share_header(&self.header), root }
    }
}

} // verus!
