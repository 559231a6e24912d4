//! The generic document that answers are handed out as: objects, arrays,
//! strings, numbers, booleans and null.

use vstd::prelude::*;

verus! {

/// A number of a document: a whole number kept exactly, or a double held by
/// its IEEE 754 bit pattern.
#[derive(Clone, Copy, Debug, PartialEq, Eq, Structural)]
pub enum Number {
    Integer(i64),
    Double(u64),
}

/// A document. An object holds its members in the order in which they were
/// written; the order carries no meaning, and where a name occurs twice the
/// later member counts.
#[derive(Debug, PartialEq)]
pub enum JSON {
    Object(Vec<(String, JSON)>),
    Array(Vec<JSON>),
    String(String),
    Number(Number),
    Boolean(bool),
    Null,
}

/// What a document stands for: an object is a map from names to documents.
pub enum JsonView {
    Object(Map<Seq<char>, JsonView>),
    Array(Seq<JsonView>),
    String(Seq<char>),
    Number(Number),
    Boolean(bool),
    Null,
}

/// What the first `count` members of an object stand for.
pub open spec fn members_view(members: Vec<(String, JSON)>, count: nat) -> Map<Seq<char>, JsonView>
    decreases members, count,
{
    if count == 0 || count > members.len() {
        Map::empty()
    } else {
        members_view(members, (count - 1) as nat).insert(
            members[count - 1].0@,
            members[count - 1].1.view(),
        )
    }
}

/// What the elements of an array stand for.
pub open spec fn elements_view(elements: Vec<JSON>) -> Seq<JsonView>
    decreases elements, 0nat,
{
    Seq::new(
        elements.len() as nat,
        |i: int|
            if 0 <= i < elements.len() {
                elements[i].view()
            } else {
                JsonView::Null
            },
    )
}

impl View for JSON {
    type V = JsonView;

    open spec fn view(&self) -> JsonView
        decreases self,
    {
        match self {
            JSON::Object(members) => JsonView::Object(members_view(*members, members.len() as nat)),
            JSON::Array(elements) => JsonView::Array(elements_view(*elements)),
            JSON::String(text) => JsonView::String(text@),
            JSON::Number(number) => JsonView::Number(*number),
            JSON::Boolean(flag) => JsonView::Boolean(*flag),
            JSON::Null => JsonView::Null,
        }
    }
}

/// No members stand for the empty map, and each further member adds its name
/// with its value.
pub proof fn lemma_members_view_unfold(members: Vec<(String, JSON)>, count: nat)
    requires
        count <= members.len(),
    ensures
        count == 0 ==> members_view(members, count) == Map::<Seq<char>, JsonView>::empty(),
        count > 0 ==> members_view(members, count) == members_view(
            members,
            (count - 1) as nat,
        ).insert(members[count - 1].0@, members[count - 1].1@),
{
}

/// Whether one of the first `count` members has the name `key`.
pub open spec fn has_member(members: Vec<(String, JSON)>, count: nat, key: Seq<char>) -> bool {
    exists|i: int| 0 <= i < count && i < members.len() && (#[trigger] members[i]).0@ == key
}

/// The first `count` members stand for a map that holds exactly their names.
pub proof fn lemma_members_view_names(members: Vec<(String, JSON)>, count: nat, key: Seq<char>)
    requires
        count <= members.len(),
    ensures
        members_view(members, count).contains_key(key) == has_member(members, count, key),
    decreases count,
{
    if count > 0 {
        lemma_members_view_names(members, (count - 1) as nat, key);
        let last = count - 1;
        assert(members_view(members, count) == members_view(members, (count - 1) as nat).insert(
            members[last].0@,
            members[last].1@,
        ));
        if members[last].0@ == key {
            assert(has_member(members, count, key));
        } else if has_member(members, count, key) {
            let i = choose|i: int|
                0 <= i < count && i < members.len() && (#[trigger] members[i]).0@ == key;
            assert(0 <= i < count - 1 && members[i].0@ == key);
            assert(has_member(members, (count - 1) as nat, key));
        } else if has_member(members, (count - 1) as nat, key) {
            let i = choose|i: int|
                0 <= i < count - 1 && i < members.len() && (#[trigger] members[i]).0@ == key;
            assert(0 <= i < count && members[i].0@ == key);
            assert(has_member(members, count, key));
        }
    }
}

/// Among the first `count` members, the one at `index` gives the value of its
/// name where none after it has the same name.
pub proof fn lemma_members_view_value(members: Vec<(String, JSON)>, count: nat, index: int)
    requires
        0 <= index < count <= members.len(),
        forall|j: int| index < j < count ==> (#[trigger] members[j]).0@ != members[index].0@,
    ensures
        members_view(members, count).contains_key(members[index].0@),
        members_view(members, count)[members[index].0@] == members[index].1@,
    decreases count,
{
    let before = members_view(members, (count - 1) as nat);
    assert(members_view(members, count) == before.insert(
        members[count - 1].0@,
        members[count - 1].1@,
    ));
    if index < count - 1 {
        lemma_members_view_value(members, (count - 1) as nat, index);
        assert(members[count - 1].0@ != members[index].0@);
    }
}

/// Two lists of members that agree name by name and value by value stand for
/// the same map.
pub proof fn lemma_members_view_agree(
    left: Vec<(String, JSON)>,
    right: Vec<(String, JSON)>,
    count: nat,
)
    requires
        count <= left.len(),
        count <= right.len(),
        forall|i: int|
            0 <= i < count ==> (#[trigger] left[i]).0@ == right[i].0@ && left[i].1@ == right[i].1@,
    ensures
        members_view(left, count) == members_view(right, count),
    decreases count,
{
    if count > 0 {
        lemma_members_view_agree(left, right, (count - 1) as nat);
        assert(left[count - 1].0@ == right[count - 1].0@);
    }
}

impl JSON {
    /// The member of this object with the given name, if this is an object
    /// that has one.
    pub fn get(&self, key: &str) -> (member: Option<&JSON>)
        ensures
            member is Some <==> (self@ is Object && self@->Object_0.contains_key(key@)),
            member matches Some(found) ==> found@ == self@->Object_0[key@],
    {
        match self {
            JSON::Object(members) => {
                assert(self@ == JsonView::Object(members_view(*members, members.len() as nat)));
                let wanted = key.to_owned();
                let mut at: usize = members.len();
                while at > 0
                    invariant
                        at <= members.len(),
                        wanted@ == key@,
                        self@ == JsonView::Object(members_view(*members, members.len() as nat)),
                        forall|j: int| at <= j < members.len() ==> (#[trigger] members[j]).0@ != key@,
                    decreases at,
                {
                    at = at - 1;
                    if members[at].0 == wanted {
                        proof {
                            lemma_members_view_value(*members, members.len() as nat, at as int);
                        }
                        return Some(&members[at].1);
                    }
                }
                proof {
                    lemma_members_view_names(*members, members.len() as nat, key@);
                }
                None
            },
            _ => None,
        }
    }

    /// The element of this array at the given place, if this is an array that
    /// is long enough.
    pub fn at(&self, index: usize) -> (element: Option<&JSON>)
        ensures
            element is Some <==> (self@ is Array && index < self@->Array_0.len()),
            element matches Some(found) ==> found@ == self@->Array_0[index as int],
    {
        match self {
            JSON::Array(elements) => {
                assert(elements_view(*elements).len() == elements.len());
                if index < elements.len() {
                    assert(elements_view(*elements)[index as int] == elements[index as int]@);
                    Some(&elements[index])
                } else {
                    None
                }
            },
            _ => None,
        }
    }

    /// The text of this document, if it is a string.
    pub fn as_text(&self) -> (text: Option<&String>)
        ensures
            text is Some <==> self@ is String,
            text matches Some(found) ==> found@ == self@->String_0,
    {
        match self {
            JSON::String(text) => Some(text),
            _ => None,
        }
    }

    /// Whether this document is null.
    pub fn is_null(&self) -> (null: bool)
        ensures
            null == (self@ is Null),
    {
        match self {
            JSON::Null => true,
            _ => false,
        }
    }
}

impl Clone for JSON {
    fn clone(&self) -> (copy: JSON)
        ensures
            copy@ == self@,
        decreases self,
    {
        match self {
            JSON::Object(members) => {
                let mut copies: Vec<(String, JSON)> = Vec::new();
                let mut at: usize = 0;
                while at < members.len()
                    invariant
                        at <= members.len(),
                        copies.len() == at,
                        decreases_to!(self => members),
                        forall|i: int|
                            0 <= i < at ==> (#[trigger] copies[i]).0@ == members[i].0@
                                && copies[i].1@ == members[i].1@,
                    decreases members.len() - at,
                {
                    let member = &members[at];
                    copies.push((member.0.clone(), member.1.clone()));
                    at = at + 1;
                }
                proof {
                    lemma_members_view_agree(copies, *members, at as nat);
                }
                JSON::Object(copies)
            },
            JSON::Array(elements) => {
                let mut copies: Vec<JSON> = Vec::new();
                let mut at: usize = 0;
                while at < elements.len()
                    invariant
                        at <= elements.len(),
                        copies.len() == at,
                        decreases_to!(self => elements),
                        forall|i: int| 0 <= i < at ==> (#[trigger] copies[i])@ == elements[i]@,
                    decreases elements.len() - at,
                {
                    copies.push(elements[at].clone());
                    at = at + 1;
                }
                assert(elements_view(copies) =~= elements_view(*elements));
                JSON::Array(copies)
            },
            JSON::String(text) => JSON::String(text.clone()),
            JSON::Number(number) => JSON::Number(*number),
            JSON::Boolean(flag) => JSON::Boolean(*flag),
            JSON::Null => JSON::Null,
        }
    }
}

} // verus!
