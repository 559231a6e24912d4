//! Reading a type back from its document, and the proof that nothing of a
//! type is lost on the way through the encoding.

use vstd::prelude::*;
use crate::answer::concept_document::attribute_type_json;
use crate::answer::concept_document::leaf_json;
use crate::answer::concept_document::lemma_member_names_differ;
use crate::answer::concept_document::node_json;
use crate::answer::concept_document::type_json;
use crate::answer::concept_document::value_type_name;
use crate::answer::concept_document::LeafView;
use crate::answer::concept_document::NodeView;
use crate::answer::json::JsonView;
use crate::answer::json::JSON;
use crate::concept::kind_name;
use crate::concept::lemma_kind_names_differ;
use crate::concept::scoped_label_text;
use crate::concept::ConceptView;
use crate::concept::Kind;
use crate::concept::value::value_type_of;
use crate::concept::value::ValueTypeView;

verus! {

/// What the document of a type says of it.
#[derive(Debug, PartialEq, Eq)]
pub struct TypeDescriptor {
    pub kind: Kind,
    pub label: String,
    /// The name of the value type, where the document gives one.
    pub value_type: Option<String>,
}

/// What a `TypeDescriptor` stands for.
pub struct TypeDescriptorView {
    pub kind: Kind,
    pub label: Seq<char>,
    pub value_type: Option<Seq<char>>,
}

impl View for TypeDescriptor {
    type V = TypeDescriptorView;

    open spec fn view(&self) -> TypeDescriptorView {
        TypeDescriptorView {
            kind: self.kind,
            label: self.label@,
            value_type: match self.value_type {
                Some(name) => Some(name@),
                None => None,
            },
        }
    }
}

/// The kind that has the given name, if one has.
pub open spec fn kind_named(name: Seq<char>) -> Option<Kind> {
    if name == kind_name(Kind::Entity) {
        Some(Kind::Entity)
    } else if name == kind_name(Kind::Attribute) {
        Some(Kind::Attribute)
    } else if name == kind_name(Kind::Relation) {
        Some(Kind::Relation)
    } else if name == kind_name(Kind::Role) {
        Some(Kind::Role)
    } else {
        None
    }
}

/// The text of the member `name` of an object, if the document is an object
/// that has such a member and the member is a string.
pub open spec fn text_member(json: JsonView, name: Seq<char>) -> Option<Seq<char>> {
    match json {
        JsonView::Object(members) => if members.contains_key(name) {
            match members[name] {
                JsonView::String(text) => Some(text),
                _ => None,
            }
        } else {
            None
        },
        _ => None,
    }
}

/// What a document says of a type: the kind that its member `kind` names, the
/// text of its member `label`, and the text of its member `value_type` where
/// it has one. A document without a kind or a label says nothing.
pub open spec fn read_type_fields(json: JsonView) -> Option<TypeDescriptorView> {
    match (text_member(json, "kind"@), text_member(json, "label"@)) {
        (Some(kind), Some(label)) => match kind_named(kind) {
            Some(kind) => Some(
                TypeDescriptorView { kind, label, value_type: text_member(json, "value_type"@) },
            ),
            None => None,
        },
        _ => None,
    }
}

/// What the leaf of a type holds of it: its kind, its label, and the name of
/// its value type if it is an attribute type. A leaf that is no type holds
/// nothing of the sort.
pub open spec fn type_fields(leaf: LeafView) -> Option<TypeDescriptorView> {
    match leaf {
        LeafView::Concept(ConceptView::EntityType(label)) => Some(
            TypeDescriptorView { kind: Kind::Entity, label, value_type: None },
        ),
        LeafView::Concept(ConceptView::RelationType(label)) => Some(
            TypeDescriptorView { kind: Kind::Relation, label, value_type: None },
        ),
        LeafView::Concept(ConceptView::RoleType(label)) => Some(
            TypeDescriptorView { kind: Kind::Role, label: scoped_label_text(label), value_type: None },
        ),
        LeafView::Concept(ConceptView::AttributeType(type_)) => Some(
            TypeDescriptorView {
                kind: Kind::Attribute,
                label: type_.label,
                value_type: Some(value_type_name(type_.value_type)),
            },
        ),
        _ => None,
    }
}

/// One step down a document: into the member of a name, or to a place in a
/// list.
pub enum Step {
    Name(Seq<char>),
    Place(int),
}

/// The part of a document of concepts that a path leads to.
pub open spec fn node_at(node: NodeView, path: Seq<Step>) -> Option<NodeView>
    decreases path.len(),
{
    if path.len() == 0 {
        Some(node)
    } else {
        match (node, path[0]) {
            (NodeView::Mapping(entries), Step::Name(name)) => if entries.contains_key(name) {
                node_at(entries[name], path.drop_first())
            } else {
                None
            },
            (NodeView::List(items), Step::Place(place)) => if 0 <= place < items.len() {
                node_at(items[place], path.drop_first())
            } else {
                None
            },
            _ => None,
        }
    }
}

/// The part of a generic document that a path leads to.
pub open spec fn json_at(json: JsonView, path: Seq<Step>) -> Option<JsonView>
    decreases path.len(),
{
    if path.len() == 0 {
        Some(json)
    } else {
        match (json, path[0]) {
            (JsonView::Object(members), Step::Name(name)) => if members.contains_key(name) {
                json_at(members[name], path.drop_first())
            } else {
                None
            },
            (JsonView::Array(elements), Step::Place(place)) => if 0 <= place < elements.len() {
                json_at(elements[place], path.drop_first())
            } else {
                None
            },
            _ => None,
        }
    }
}

proof fn lemma_kind_named(kind: Kind)
    ensures
        kind_named(kind_name(kind)) == Some(kind),
{
    lemma_kind_names_differ(kind, Kind::Entity);
    lemma_kind_names_differ(kind, Kind::Attribute);
    lemma_kind_names_differ(kind, Kind::Relation);
    lemma_kind_names_differ(kind, Kind::Role);
}

proof fn lemma_read_type_json(kind: Kind, label: Seq<char>)
    ensures
        read_type_fields(type_json(kind, label)) == Some(
            TypeDescriptorView { kind, label, value_type: None },
        ),
{
    lemma_member_names_differ();
    lemma_kind_named(kind);
}

proof fn lemma_read_attribute_type_json(label: Seq<char>, value_type: Option<ValueTypeView>)
    ensures
        read_type_fields(attribute_type_json(label, value_type)) == Some(
            TypeDescriptorView {
                kind: Kind::Attribute,
                label,
                value_type: Some(value_type_name(value_type)),
            },
        ),
{
    lemma_member_names_differ();
    lemma_kind_named(Kind::Attribute);
}

/// The document of a type says of it all that its leaf held: reading the
/// fields `kind`, `label` and `value_type` back from the document of an
/// entity type, a relation type, a role type or an attribute type gives the
/// kind, the label and the name of the value type that went in.
pub proof fn lemma_type_leaf_round_trip(leaf: LeafView)
    requires
        type_fields(leaf) is Some,
    ensures
        read_type_fields(leaf_json(leaf)) == type_fields(leaf),
{
    match leaf {
        LeafView::Concept(ConceptView::EntityType(label)) => {
            lemma_read_type_json(Kind::Entity, label);
        },
        LeafView::Concept(ConceptView::RelationType(label)) => {
            lemma_read_type_json(Kind::Relation, label);
        },
        LeafView::Concept(ConceptView::RoleType(label)) => {
            lemma_read_type_json(Kind::Role, scoped_label_text(label));
        },
        LeafView::Concept(ConceptView::AttributeType(type_)) => {
            lemma_read_attribute_type_json(type_.label, type_.value_type);
        },
        _ => {},
    }
}

/// The document of an attribute carries the attribute's type with it: its
/// member `type` reads back as an attribute type with the label of the
/// attribute's type and the name of the type of the attribute's value.
pub proof fn lemma_attribute_carries_type(leaf: LeafView)
    requires
        leaf matches LeafView::Concept(ConceptView::Attribute(attribute)) && attribute.type_ is Some,
    ensures
        leaf matches LeafView::Concept(ConceptView::Attribute(attribute)) && leaf_json(leaf)
            is Object && leaf_json(leaf)->Object_0.contains_key("type"@) && read_type_fields(
            leaf_json(leaf)->Object_0["type"@],
        ) == Some(
            TypeDescriptorView {
                kind: Kind::Attribute,
                label: attribute.type_.unwrap().label,
                value_type: Some(value_type_name(Some(value_type_of(attribute.value)))),
            },
        ),
{
    lemma_member_names_differ();
    if let LeafView::Concept(ConceptView::Attribute(attribute)) = leaf {
        lemma_read_attribute_type_json(
            attribute.type_.unwrap().label,
            Some(value_type_of(attribute.value)),
        );
    }
}

/// The encoding keeps every part in its place: what a path leads to in a
/// document of concepts, the same path leads to in the generic document, and
/// there stands the encoding of that part.
pub proof fn lemma_encoding_keeps_places(node: NodeView, path: Seq<Step>)
    requires
        node_at(node, path) is Some,
    ensures
        json_at(node_json(node), path) == Some(node_json(node_at(node, path).unwrap())),
    decreases path.len(),
{
    if path.len() > 0 {
        match (node, path[0]) {
            (NodeView::Mapping(entries), Step::Name(name)) => {
                lemma_encoding_keeps_places(entries[name], path.drop_first());
            },
            (NodeView::List(items), Step::Place(place)) => {
                lemma_encoding_keeps_places(items[place], path.drop_first());
            },
            _ => {},
        }
    }
}

/// Encoding and then reading back recovers every type. Wherever a document of
/// concepts holds the leaf of a type, the generic document holds, in the same
/// place, a document whose fields `kind`, `label` and `value_type` are those
/// of the leaf.
pub proof fn lemma_types_round_trip(node: NodeView, path: Seq<Step>, leaf: LeafView)
    requires
        node_at(node, path) == Some(NodeView::Leaf(Some(leaf))),
        type_fields(leaf) is Some,
    ensures
        json_at(node_json(node), path) is Some,
        read_type_fields(json_at(node_json(node), path).unwrap()) == type_fields(leaf),
{
    lemma_encoding_keeps_places(node, path);
    lemma_type_leaf_round_trip(leaf);
}

/// The kind that has the given name, if one has.
pub fn kind_of_name(name: &String) -> (kind: Option<Kind>)
    ensures
        kind == kind_named(name@),
{
    if *name == String::from_str(Kind::Entity.name()) {
        Some(Kind::Entity)
    } else if *name == String::from_str(Kind::Attribute.name()) {
        Some(Kind::Attribute)
    } else if *name == String::from_str(Kind::Relation.name()) {
        Some(Kind::Relation)
    } else if *name == String::from_str(Kind::Role.name()) {
        Some(Kind::Role)
    } else {
        None
    }
}

fn text_of_member(json: &JSON, name: &str) -> (text: Option<String>)
    ensures
        match text {
            Some(found) => text_member(json@, name@) == Some(found@),
            None => text_member(json@, name@) is None,
        },
{
    match json.get(name) {
        Some(member) => match member.as_text() {
            Some(text) => Some(text.clone()),
            None => None,
        },
        None => None,
    }
}

/// Reads what a document says of a type.
pub fn read_type(json: &JSON) -> (descriptor: Option<TypeDescriptor>)
    ensures
        match descriptor {
            Some(found) => read_type_fields(json@) == Some(found@),
            None => read_type_fields(json@) is None,
        },
{
    let kind_text = text_of_member(json, "kind");
    let label = text_of_member(json, "label");
    match (kind_text, label) {
        (Some(kind_text), Some(label)) => match kind_of_name(&kind_text) {
            Some(kind) => {
                let value_type = text_of_member(json, "value_type");
                Some(TypeDescriptor { kind, label, value_type })
            },
            None => None,
        },
        _ => None,
    }
}

} // verus!
