//! Concepts: the types of a schema, their instances, and free-standing values.

pub mod temporal;
pub mod value;

use vstd::prelude::*;
use crate::concept::value::Value;
use crate::concept::value::ValueType;
use crate::concept::value::ValueTypeView;
use crate::concept::value::ValueView;

verus! {

/// The four kinds of type that a schema holds.
#[derive(Clone, Copy, Debug, PartialEq, Eq, Structural)]
pub enum Kind {
    Entity,
    Attribute,
    Relation,
    Role,
}

/// The name of a kind, as documents spell it.
pub open spec fn kind_name(kind: Kind) -> Seq<char> {
    match kind {
        Kind::Entity => "entity"@,
        Kind::Attribute => "attribute"@,
        Kind::Relation => "relation"@,
        Kind::Role => "role"@,
    }
}

impl Kind {
    /// The name of this kind.
    pub fn name(&self) -> (name: &'static str)
        ensures
            name@ == kind_name(*self),
    {
        match self {
            Kind::Entity => "entity",
            Kind::Attribute => "attribute",
            Kind::Relation => "relation",
            Kind::Role => "role",
        }
    }
}

/// The four names differ from each other, so a name tells the kind.
pub proof fn lemma_kind_names_differ(left: Kind, right: Kind)
    ensures
        kind_name(left) == kind_name(right) <==> left == right,
{
    reveal_strlit("entity");
    reveal_strlit("attribute");
    reveal_strlit("relation");
    reveal_strlit("role");
    if left != right {
        assert(kind_name(left).len() != kind_name(right).len() || kind_name(left)[0] != kind_name(
            right,
        )[0]);
    }
}

/// The type of an entity.
#[derive(Debug, PartialEq, Eq)]
pub struct EntityType {
    pub label: String,
}

/// The type of a relation.
#[derive(Debug, PartialEq, Eq)]
pub struct RelationType {
    pub label: String,
}

/// The type of an attribute, with the type of its values where that is known.
#[derive(Debug, PartialEq, Eq)]
pub struct AttributeType {
    pub label: String,
    pub value_type: Option<ValueType>,
}

/// The name of a role together with the relation type that it belongs to.
#[derive(Debug, PartialEq, Eq)]
pub struct ScopedLabel {
    pub scope: String,
    pub name: String,
}

/// The type of a role.
#[derive(Debug, PartialEq, Eq)]
pub struct RoleType {
    pub label: ScopedLabel,
}

/// An entity, with its type where the answer carries it.
#[derive(Debug, PartialEq, Eq)]
pub struct Entity {
    pub iid: Vec<u8>,
    pub type_: Option<EntityType>,
}

/// A relation, with its type where the answer carries it.
#[derive(Debug, PartialEq, Eq)]
pub struct Relation {
    pub iid: Vec<u8>,
    pub type_: Option<RelationType>,
}

/// An attribute: a value, with the attribute's type where the answer carries
/// it.
#[derive(Debug, PartialEq)]
pub struct Attribute {
    pub iid: Vec<u8>,
    pub value: Value,
    pub type_: Option<AttributeType>,
}

/// Anything that a query can answer with.
#[derive(Debug, PartialEq)]
pub enum Concept {
    EntityType(EntityType),
    RelationType(RelationType),
    RoleType(RoleType),
    AttributeType(AttributeType),
    Entity(Entity),
    Relation(Relation),
    Attribute(Attribute),
    Value(Value),
}

/// What an `AttributeType` stands for.
pub struct AttributeTypeView {
    pub label: Seq<char>,
    pub value_type: Option<ValueTypeView>,
}

/// What a `ScopedLabel` stands for.
pub struct ScopedLabelView {
    pub scope: Seq<char>,
    pub name: Seq<char>,
}

/// What an `Attribute` stands for.
pub struct AttributeView {
    pub iid: Seq<u8>,
    pub value: ValueView,
    pub type_: Option<AttributeTypeView>,
}

/// What a `Concept` stands for. A type of entities or relations is its label;
/// an entity or a relation is its identifier and, where known, the label of
/// its type.
pub enum ConceptView {
    EntityType(Seq<char>),
    RelationType(Seq<char>),
    RoleType(ScopedLabelView),
    AttributeType(AttributeTypeView),
    Entity(Seq<u8>, Option<Seq<char>>),
    Relation(Seq<u8>, Option<Seq<char>>),
    Attribute(AttributeView),
    Value(ValueView),
}

/// The text of a scoped label: the scope, a colon, the name.
pub open spec fn scoped_label_text(label: ScopedLabelView) -> Seq<char> {
    label.scope + seq![':'] + label.name
}

/// What an optional value type stands for.
pub open spec fn optional_value_type_view(value_type: Option<ValueType>) -> Option<ValueTypeView> {
    match value_type {
        Some(value_type) => Some(value_type@),
        None => None,
    }
}

impl View for EntityType {
    type V = Seq<char>;

    open spec fn view(&self) -> Seq<char> {
        self.label@
    }
}

impl View for RelationType {
    type V = Seq<char>;

    open spec fn view(&self) -> Seq<char> {
        self.label@
    }
}

impl View for AttributeType {
    type V = AttributeTypeView;

    open spec fn view(&self) -> AttributeTypeView {
        AttributeTypeView {
            label: self.label@,
            value_type: optional_value_type_view(self.value_type),
        }
    }
}

impl View for ScopedLabel {
    type V = ScopedLabelView;

    open spec fn view(&self) -> ScopedLabelView {
        ScopedLabelView { scope: self.scope@, name: self.name@ }
    }
}

impl View for RoleType {
    type V = ScopedLabelView;

    open spec fn view(&self) -> ScopedLabelView {
        self.label@
    }
}

impl View for Attribute {
    type V = AttributeView;

    open spec fn view(&self) -> AttributeView {
        AttributeView {
            iid: self.iid@,
            value: self.value@,
            type_: match self.type_ {
                Some(type_) => Some(type_@),
                None => None,
            },
        }
    }
}

impl View for Concept {
    type V = ConceptView;

    open spec fn view(&self) -> ConceptView {
        match self {
            Concept::EntityType(type_) => ConceptView::EntityType(type_@),
            Concept::RelationType(type_) => ConceptView::RelationType(type_@),
            Concept::RoleType(type_) => ConceptView::RoleType(type_@),
            Concept::AttributeType(type_) => ConceptView::AttributeType(type_@),
            Concept::Entity(entity) => ConceptView::Entity(
                entity.iid@,
                match entity.type_ {
                    Some(type_) => Some(type_@),
                    None => None,
                },
            ),
            Concept::Relation(relation) => ConceptView::Relation(
                relation.iid@,
                match relation.type_ {
                    Some(type_) => Some(type_@),
                    None => None,
                },
            ),
            Concept::Attribute(attribute) => ConceptView::Attribute(attribute@),
            Concept::Value(value) => ConceptView::Value(value@),
        }
    }
}

impl ScopedLabel {
    /// The text of this label: the scope, a colon, the name.
    pub fn to_text(&self) -> (text: String)
        ensures
            text@ == scoped_label_text(self@),
    {
        proof {
            reveal_strlit(":");
        }
        let mut text = self.scope.clone();
        text.append(":");
        text.append(self.name.as_str());
        assert(text@ =~= scoped_label_text(self@));
        text
    }
}

impl Clone for EntityType {
    fn clone(&self) -> (copy: EntityType)
        ensures
            copy@ == self@,
    {
        EntityType { label: self.label.clone() }
    }
}

impl Clone for RelationType {
    fn clone(&self) -> (copy: RelationType)
        ensures
            copy@ == self@,
    {
        RelationType { label: self.label.clone() }
    }
}

impl Clone for AttributeType {
    fn clone(&self) -> (copy: AttributeType)
        ensures
            copy@ == self@,
    {
        let value_type = match &self.value_type {
            Some(value_type) => Some(value_type.clone()),
            None => None,
        };
        AttributeType { label: self.label.clone(), value_type }
    }
}

impl Clone for ScopedLabel {
    fn clone(&self) -> (copy: ScopedLabel)
        ensures
            copy@ == self@,
    {
        ScopedLabel { scope: self.scope.clone(), name: self.name.clone() }
    }
}

impl Clone for RoleType {
    fn clone(&self) -> (copy: RoleType)
        ensures
            copy@ == self@,
    {
        RoleType { label: self.label.clone() }
    }
}

impl Clone for Entity {
    fn clone(&self) -> (copy: Entity)
        ensures
            Concept::Entity(copy)@ == Concept::Entity(*self)@,
    {
        let type_ = match &self.type_ {
            Some(type_) => Some(type_.clone()),
            None => None,
        };
        Entity { iid: self.iid.clone(), type_ }
    }
}

impl Clone for Relation {
    fn clone(&self) -> (copy: Relation)
        ensures
            Concept::Relation(copy)@ == Concept::Relation(*self)@,
    {
        let type_ = match &self.type_ {
            Some(type_) => Some(type_.clone()),
            None => None,
        };
        Relation { iid: self.iid.clone(), type_ }
    }
}

impl Clone for Attribute {
    fn clone(&self) -> (copy: Attribute)
        ensures
            copy@ == self@,
    {
        let type_ = match &self.type_ {
            Some(type_) => Some(type_.clone()),
            None => None,
        };
        Attribute { iid: self.iid.clone(), value: self.value.clone(), type_ }
    }
}

impl Clone for Concept {
    fn clone(&self) -> (copy: Concept)
        ensures
            copy@ == self@,
    {
        match self {
            Concept::EntityType(type_) => Concept::EntityType(type_.clone()),
            Concept::RelationType(type_) => Concept::RelationType(type_.clone()),
            Concept::RoleType(type_) => Concept::RoleType(type_.clone()),
            Concept::AttributeType(type_) => Concept::AttributeType(type_.clone()),
            Concept::Entity(entity) => Concept::Entity(entity.clone()),
            Concept::Relation(relation) => Concept::Relation(relation.clone()),
            Concept::Attribute(attribute) => Concept::Attribute(attribute.clone()),
            Concept::Value(value) => Concept::Value(value.clone()),
        }
    }
}

} // verus!
