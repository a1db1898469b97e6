//! Turns a packet value, or JSON handed in as it is, into built packet data.

use vstd::prelude::*;
use serde_json::Value;
use super::{members_model, value_model, PacketValue};
use crate::error::{TxBuilderError, TxBuilderResult};
use crate::json::{
    json_array, json_insert, json_model, json_object, json_string, json_text, json_to_string,
    JsonModel,
};

verus! {

/// Builds [`PacketData`] from the value it was made with.
pub struct PacketBuilder {
    data: PacketData,
}

/// One section of a packet: what it was made from and, once built, its JSON
/// value and that value's text.
#[derive(Debug)]
pub struct PacketData {
    data: Option<PacketValue>,
    json: Option<Value>,
    is_json: bool,
    built: Option<String>,
}

/// What a [`PacketData`] holds.
pub struct PacketDataView {
    /// The packet value it was made from, as the JSON that the value denotes.
    pub data: Option<JsonModel>,
    /// The JSON value: handed in, or produced by building.
    pub json: Option<JsonModel>,
    /// Whether the JSON value, and not the packet value, is what counts.
    pub is_json: bool,
    /// The text of the JSON value, taken when the data was built.
    pub built: Option<Seq<char>>,
}

impl PacketDataView {
    /// Data made from a packet value, not built yet.
    pub open spec fn of_value(value: JsonModel) -> PacketDataView {
        PacketDataView { data: Some(value), json: None, is_json: false, built: None }
    }

    /// Data made from JSON that is taken as it is, not built yet.
    pub open spec fn of_json(json: JsonModel) -> PacketDataView {
        PacketDataView { data: None, json: Some(json), is_json: true, built: None }
    }

    /// The data once `json` has been settled as its JSON value.
    pub open spec fn finished(self, json: JsonModel) -> PacketDataView {
        PacketDataView {
            data: self.data,
            json: Some(json),
            is_json: true,
            built: Some(json_text(json)),
        }
    }

    /// What building makes of the data. JSON that was handed in is kept as it
    /// is. A packet value is converted, and it has to be an object.
    pub open spec fn build(self) -> Result<PacketDataView, TxBuilderError> {
        if self.is_json {
            match self.json {
                Some(json) => Ok(self.finished(json)),
                None => Err(TxBuilderError::PacketError(3001)),
            }
        } else {
            match self.data {
                Some(JsonModel::Object(members)) => Ok(self.finished(JsonModel::Object(members))),
                _ => Err(TxBuilderError::BuildError(1000)),
            }
        }
    }
}

/// A packet value builds exactly where its root is an object. The built data
/// then holds the JSON that the value denotes, with its text. A string or an
/// array at the root fails with `BuildError(1000)`.
pub proof fn lemma_build_needs_object_root(value: PacketValue)
    ensures
        value is Object ==> PacketDataView::of_value(value@).build() == Ok::<
            PacketDataView,
            TxBuilderError,
        >(
            PacketDataView {
                data: Some(value@),
                json: Some(value@),
                is_json: true,
                built: Some(json_text(value@)),
            },
        ),
        !(value is Object) ==> PacketDataView::of_value(value@).build() == Err::<
            PacketDataView,
            TxBuilderError,
        >(TxBuilderError::BuildError(1000)),
{
}

/// JSON that is taken as it is always builds, and is kept unchanged.
pub proof fn lemma_build_keeps_json(json: JsonModel)
    ensures
        PacketDataView::of_json(json).build() == Ok::<PacketDataView, TxBuilderError>(
            PacketDataView {
                data: None,
                json: Some(json),
                is_json: true,
                built: Some(json_text(json)),
            },
        ),
{
}

/// Building data that is built already changes nothing.
pub proof fn lemma_build_again(data: PacketDataView)
    requires
        data.build() is Ok,
    ensures
        data.build()->Ok_0.build() == data.build(),
{
}

impl View for PacketData {
    type V = PacketDataView;

    closed spec fn view(&self) -> PacketDataView {
        PacketDataView {
            data: match self.data {
                Some(value) => Some(value@),
                None => None,
            },
            json: match self.json {
                Some(json) => Some(json_model(json)),
                None => None,
            },
            is_json: self.is_json,
            built: match self.built {
                Some(text) => Some(text@),
                None => None,
            },
        }
    }
}

impl View for PacketBuilder {
    type V = PacketDataView;

    closed spec fn view(&self) -> PacketDataView {
        self.data@
    }
}

impl Clone for PacketData {
    /// The copy holds what `self` holds.
    fn clone(&self) -> (copy: Self)
        ensures
            copy@ == self@,
    {
        PacketData {
            data: match &self.data {
                Some(value) => Some(value.clone()),
                None => None,
            },
            json: match &self.json {
                Some(json) => Some(json.clone()),
                None => None,
            },
            is_json: self.is_json,
            built: match &self.built {
                Some(text) => Some(text.clone()),
                None => None,
            },
        }
    }
}

impl Clone for PacketBuilder {
    /// The copy holds what `self` holds.
    fn clone(&self) -> (copy: Self)
        ensures
            copy@ == self@,
    {
        PacketBuilder { data: self.data.clone() }
    }
}

impl PacketBuilder {
    /// A builder for the given packet value.
    pub fn new(data: PacketValue) -> (builder: PacketBuilder)
        ensures
            builder@ == PacketDataView::of_value(data@),
    {
        let mut ior_data = PacketData::new();
        if let PacketValue::Object(members) = data {
            ior_data.add_map(members);
        } else {
            ior_data.add(data);
        }
        PacketBuilder { data: ior_data }
    }

    /// A builder for JSON that is taken as it is.
    pub fn new_json(data: Value) -> (builder: PacketBuilder)
        ensures
            builder@ == PacketDataView::of_json(json_model(data)),
    {
        let mut ior_data = PacketData::new();
        ior_data.add_json(data);
        PacketBuilder { data: ior_data }
    }

    /// Builds the data and returns a copy of it. JSON that was handed in is
    /// kept; a packet value is converted to JSON and has to be an object.
    /// A failed build changes nothing.
    pub fn build(&mut self) -> (result: TxBuilderResult<PacketData>)
        ensures
            match old(self)@.build() {
                Ok(built) => result matches Ok(data) && data@ == built && final(self)@ == built,
                Err(error) => result matches Err(e) && e == error && final(self)@ == old(self)@,
            },
    {
        if self.data.is_json() {
            let json = self.data.get()?;
            self.data.set_built(json);
        } else {
            let serialized = match self.data.get_map() {
                Some(map) => PacketBuilder::to_json(map)?,
                None => return Err(TxBuilderError::BuildError(1000)),
            };
            self.data.set_built(serialized);
        }
        Ok(self.data.clone())
    }

    /// The packet value that is the string `data`.
    pub fn from_string(data: &str) -> (value: PacketValue)
        ensures
            value matches PacketValue::String(text) && text@ == data@,
    {
        PacketValue::String(data.to_owned())
    }

    /// Converts an array, element by element and in order.
    fn array_tojson(array: &PacketValue) -> (result: TxBuilderResult<Value>)
        ensures
            match *array {
                PacketValue::Array(_) => result matches Ok(json) && json_model(json) == array@,
                _ => result matches Err(e) && e == TxBuilderError::JsonError(2000),
            },
        decreases array,
    {
        let mut holder: Vec<Value> = Vec::new();
        match array {
            PacketValue::Array(items) => {
                let mut i: usize = 0;
                while i < items.len()
                    invariant
                        i <= items.len(),
                        holder.len() == i,
                        forall|j: int| 0 <= j < i ==> json_model(holder@[j]) == items@[j]@,
                        *array == PacketValue::Array(*items),
                    decreases items.len() - i,
                {
                    assert(decreases_to!(array->Array_0 => array->Array_0[i as int]));
                    let elem = &items[i];
                    let data = match elem {
                        PacketValue::String(text) => json_string(text.as_str()),
                        PacketValue::Object(members) => PacketBuilder::object_tojson(members)?,
                        PacketValue::Array(_) => PacketBuilder::array_tojson(elem)?,
                    };
                    holder.push(data);
                    i += 1;
                }
                let json = json_array(holder);
                assert(json_model(json)->Array_0 =~= array@->Array_0);
                Ok(json)
            },
            _ => Err(TxBuilderError::JsonError(2000)),
        }
    }

    /// Converts the members of an object. A later member replaces an earlier
    /// one of the same name.
    fn object_tojson(map: &Vec<(String, PacketValue)>) -> (result: TxBuilderResult<Value>)
        ensures
            result matches Ok(json) && json_model(json) == JsonModel::Object(
                members_model(map@, map@.len()),
            ),
        decreases map,
    {
        let mut json = json_object();
        let mut i: usize = 0;
        while i < map.len()
            invariant
                i <= map.len(),
                json_model(json) == JsonModel::Object(members_model(map@, i as nat)),
            decreases map.len() - i,
        {
            assert(decreases_to!(map => map[i as int]));
            let key = &map[i].0;
            let value = &map[i].1;
            let data = match value {
                PacketValue::String(text) => json_string(text.as_str()),
                PacketValue::Object(members) => {
                    match PacketBuilder::object_tojson(members) {
                        Ok(data) => data,
                        Err(_) => return Err(TxBuilderError::JsonError(2001)),
                    }
                },
                PacketValue::Array(_) => PacketBuilder::array_tojson(value)?,
            };
            assert(json_model(data) == value_model(map@[i as int].1));
            json_insert(&mut json, key.as_str(), data);
            i += 1;
            assert(members_model(map@, i as nat) == members_model(map@, (i - 1) as nat).insert(
                map@[i - 1].0@,
                value_model(map@[i - 1].1),
            ));
        }
        Ok(json)
    }

    /// Converts the value at the root of a section, which has to be an object.
    fn to_json(map: &PacketValue) -> (result: TxBuilderResult<Value>)
        ensures
            match *map {
                PacketValue::Object(_) => result matches Ok(json) && json_model(json) == map@,
                _ => result matches Err(e) && e == TxBuilderError::BuildError(1000),
            },
    {
        match map {
            PacketValue::Object(members) => PacketBuilder::object_tojson(members),
            _ => Err(TxBuilderError::BuildError(1000)),
        }
    }
}

impl PacketData {
    /// The text of the built data. Fails with `PacketError(3000)` before the
    /// data has been built.
    pub fn get_string(&self) -> (result: TxBuilderResult<&str>)
        ensures
            match self@.built {
                Some(text) => result matches Ok(s) && s@ == text,
                None => result matches Err(e) && e == TxBuilderError::PacketError(3000),
            },
    {
        match &self.built {
            Some(data) => Ok(data.as_str()),
            None => Err(TxBuilderError::PacketError(3000)),
        }
    }

    /// The JSON value of the data. Fails with `PacketError(3001)` where there
    /// is none yet.
    pub fn get(&self) -> (result: TxBuilderResult<Value>)
        ensures
            match self@.json {
                Some(json) => result matches Ok(value) && json_model(value) == json,
                None => result matches Err(e) && e == TxBuilderError::PacketError(3001),
            },
    {
        if let Some(json) = &self.json {
            Ok(json.clone())
        } else {
            Err(TxBuilderError::PacketError(3001))
        }
    }

    fn new() -> (data: PacketData)
        ensures
            data@ == (PacketDataView { data: None, json: None, is_json: false, built: None }),
    {
        PacketData { data: None, json: None, is_json: false, built: None }
    }

    fn add(&mut self, object: PacketValue)
        ensures
            final(self)@ == (PacketDataView { data: Some(object@), ..old(self)@ }),
    {
        self.data = Some(object);
    }

    fn add_map(&mut self, map: Vec<(String, PacketValue)>)
        ensures
            final(self)@ == (PacketDataView {
                data: Some(PacketValue::Object(map)@),
                ..old(self)@
            }),
    {
        self.data = Some(PacketValue::Object(map));
    }

    fn add_json(&mut self, json: Value)
        ensures
            final(self)@ == (PacketDataView {
                json: Some(json_model(json)),
                is_json: true,
                ..old(self)@
            }),
    {
        self.json = Some(json);
        self.is_json = true;
    }

    fn is_json(&self) -> (flag: bool)
        ensures
            flag == self@.is_json,
    {
        self.is_json
    }

    fn get_map(&self) -> (value: &Option<PacketValue>)
        ensures
            *value == self.data,
    {
        &self.data
    }

    fn set_built(&mut self, data: Value)
        ensures
            final(self)@ == old(self)@.finished(json_model(data)),
    {
        self.built = Some(json_to_string(&data));
        self.json = Some(data);
        self.is_json = true;
    }
}

} // verus!
