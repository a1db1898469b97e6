//! The values that a packet section is written in, and their JSON form.

use vstd::prelude::*;
use crate::json::JsonModel;

pub mod builder;

pub use builder::{PacketBuilder, PacketData, PacketDataView};

verus! {

/// The data of a packet's input section.
pub type Input = PacketData;

/// The data of a packet's output section.
pub type Output = PacketData;

/// The data of a packet's read-only section.
pub type Readonly = PacketData;

/// A value of the `$i`, `$o` and `$r` sections of a transaction packet:
/// a string, an array of values, or an object of named values.
///
/// An object is written as a list of members. Where a name occurs twice the
/// later member stands, so the list denotes a map from names to values.
#[derive(Debug)]
pub enum PacketValue {
    String(String),
    Array(Vec<PacketValue>),
    Object(Vec<(String, PacketValue)>),
}

/// The JSON value that a packet value denotes: a string is a JSON string, an
/// array is the JSON array of its elements in order, an object is the JSON
/// object of its members.
pub open spec fn value_model(value: PacketValue) -> JsonModel
    decreases value,
{
    match value {
        PacketValue::String(text) => JsonModel::String(text@),
        PacketValue::Array(items) => JsonModel::Array(
            Seq::new(
                items@.len(),
                |i: int|
                    if 0 <= i < items@.len() {
                        value_model(items@[i])
                    } else {
                        JsonModel::Null
                    },
            ),
        ),
        PacketValue::Object(members) => JsonModel::Object(members_model(members@, members@.len())),
    }
}

/// The map that the first `n` members of a list denote.
pub open spec fn members_model(members: Seq<(String, PacketValue)>, n: nat) -> Map<
    Seq<char>,
    JsonModel,
>
    decreases members, n,
{
    if n == 0 || n > members.len() {
        Map::empty()
    } else {
        members_model(members, (n - 1) as nat).insert(
            members[n - 1].0@,
            value_model(members[n - 1].1),
        )
    }
}

impl View for PacketValue {
    type V = JsonModel;

    open spec fn view(&self) -> JsonModel {
        value_model(*self)
    }
}

impl Clone for PacketValue {
    /// A copy denotes the same JSON value.
    fn clone(&self) -> (copy: Self)
        ensures
            copy@ == self@,
        decreases self,
    {
        match self {
            PacketValue::String(text) => PacketValue::String(text.clone()),
            PacketValue::Array(items) => {
                let mut copies: Vec<PacketValue> = Vec::new();
                let mut i: usize = 0;
                while i < items.len()
                    invariant
                        i <= items.len(),
                        copies.len() == i,
                        forall|j: int| 0 <= j < i ==> copies@[j]@ == items@[j]@,
                        *self == PacketValue::Array(*items),
                    decreases items.len() - i,
                {
                    assert(decreases_to!(self->Array_0 => self->Array_0[i as int]));
                    copies.push(items[i].clone());
                    i += 1;
                }
                let copy = PacketValue::Array(copies);
                assert(copy@->Array_0 =~= self@->Array_0);
                copy
            },
            PacketValue::Object(members) => {
                let mut copies: Vec<(String, PacketValue)> = Vec::new();
                let mut i: usize = 0;
                while i < members.len()
                    invariant
                        i <= members.len(),
                        copies.len() == i,
                        members_model(copies@, i as nat) == members_model(members@, i as nat),
                        *self == PacketValue::Object(*members),
                    decreases members.len() - i,
                {
                    assert(decreases_to!(self->Object_0 => self->Object_0[i as int]));
                    let name = members[i].0.clone();
                    let member = members[i].1.clone();
                    proof {
                        lemma_members_push(copies@, (name, member));
                    }
                    copies.push((name, member));
                    i += 1;
                    assert(members_model(copies@, (i - 1) as nat) == members_model(
                        members@,
                        (i - 1) as nat,
                    ));
                }
                PacketValue::Object(copies)
            },
        }
    }
}

/// A name is in the map that the first `n` members denote exactly where one
/// of them has that name.
pub proof fn lemma_members_names(members: Seq<(String, PacketValue)>, n: nat, name: Seq<char>)
    requires
        n <= members.len(),
    ensures
        members_model(members, n).dom().contains(name) <==> exists|i: int|
            0 <= i < n && (#[trigger] members[i]).0@ == name,
    decreases n,
{
    if n > 0 {
        lemma_members_names(members, (n - 1) as nat, name);
        if members[n - 1].0@ != name && members_model(members, n).dom().contains(name) {
            let i = choose|i: int| 0 <= i < n - 1 && (#[trigger] members[i]).0@ == name;
            assert(0 <= i < n && members[i].0@ == name);
        }
    }
}

/// A member stands in the map under its name with what it denotes, unless a
/// later member has the same name.
pub proof fn lemma_members_value(members: Seq<(String, PacketValue)>, n: nat, i: int)
    requires
        0 <= i < n <= members.len(),
        forall|j: int| i < j < n ==> (#[trigger] members[j]).0@ != members[i].0@,
    ensures
        members_model(members, n).dom().contains(members[i].0@),
        members_model(members, n)[members[i].0@] == value_model(members[i].1),
    decreases n,
{
    if i < n - 1 {
        lemma_members_value(members, (n - 1) as nat, i);
        assert(members[n - 1].0@ != members[i].0@);
    }
}

/// Conversion to JSON keeps the shape of a value. A string stays a string
/// with the same characters. An array stays an array of the same length whose
/// elements are the converted elements, in the same order. An object stays an
/// object that has exactly the members' names as keys, and under each name
/// the converted value of the last member of that name.
pub proof fn lemma_model_keeps_shape(value: PacketValue)
    ensures
        match value {
            PacketValue::String(text) => value@ == JsonModel::String(text@),
            PacketValue::Array(items) => {
                &&& value@ matches JsonModel::Array(elements)
                &&& elements.len() == items@.len()
                &&& forall|i: int| 0 <= i < items@.len() ==> #[trigger] elements[i] == items@[i]@
            },
            PacketValue::Object(members) => {
                &&& value@ matches JsonModel::Object(map)
                &&& forall|name: Seq<char>| #[trigger]
                    map.dom().contains(name) <==> exists|i: int|
                        0 <= i < members@.len() && (#[trigger] members@[i]).0@ == name
                &&& forall|i: int|
                    0 <= i < members@.len() && (forall|j: int|
                        i < j < members@.len() ==> (#[trigger] members@[j]).0@ != members@[i].0@)
                        ==> map.dom().contains((#[trigger] members@[i]).0@) && map[members@[i].0@]
                        == members@[i].1@
            },
        },
{
    match value {
        PacketValue::String(_) => {},
        PacketValue::Array(_) => {},
        PacketValue::Object(members) => {
            let map = members_model(members@, members@.len());
            assert forall|name: Seq<char>| #[trigger]
                map.dom().contains(name) <==> exists|i: int|
                    0 <= i < members@.len() && (#[trigger] members@[i]).0@ == name by {
                lemma_members_names(members@, members@.len(), name);
            }
            assert forall|i: int|
                0 <= i < members@.len() && (forall|j: int|
                    i < j < members@.len() ==> (#[trigger] members@[j]).0@
                        != members@[i].0@) implies map.dom().contains(
                (#[trigger] members@[i]).0@,
            ) && map[members@[i].0@] == members@[i].1@ by {
                lemma_members_value(members@, members@.len(), i);
            }
        },
    }
}

/// Values of different kinds convert to different JSON values.
pub proof fn lemma_model_keeps_kind(value: PacketValue)
    ensures
        value is String <==> value@ is String,
        value is Array <==> value@ is Array,
        value is Object <==> value@ is Object,
{
}

/// Adding a member at the end of a list leaves what the members before it
/// denote unchanged.
pub proof fn lemma_members_push(members: Seq<(String, PacketValue)>, last: (String, PacketValue))
    ensures
        forall|n: nat|
            n <= members.len() ==> #[trigger] members_model(members.push(last), n)
                == members_model(members, n),
{
    assert forall|n: nat| n <= members.len() implies #[trigger] members_model(
        members.push(last),
        n,
    ) == members_model(members, n) by {
        lemma_members_prefix(members, members.push(last), n);
    }
}

/// Two lists that agree on their first `n` members denote the same map there.
pub proof fn lemma_members_prefix(
    a: Seq<(String, PacketValue)>,
    b: Seq<(String, PacketValue)>,
    n: nat,
)
    requires
        n <= a.len(),
        n <= b.len(),
        forall|i: int| 0 <= i < n ==> a[i] == b[i],
    ensures
        members_model(a, n) == members_model(b, n),
    decreases n,
{
    if n > 0 {
        lemma_members_prefix(a, b, (n - 1) as nat);
    }
}

} // verus!
