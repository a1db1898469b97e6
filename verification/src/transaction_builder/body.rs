//! The body of a transaction: the `$tx` object that gets signed.

use vstd::prelude::*;
use serde_json::Value;
use crate::error::{TxBuilderError, TxBuilderResult};
use crate::json::{json_insert, json_model, json_object, JsonModel};

verus! {

/// The fields of a transaction body and, once built, its JSON object.
#[derive(Debug)]
pub struct TransactionBody {
    entry: Option<Value>,
    contract: Value,
    namespace: Value,
    input: Value,
    output: Option<Value>,
    readonly: Option<Value>,
    json: Option<Value>,
}

/// What a [`TransactionBody`] holds.
pub struct TransactionBodyView {
    pub entry: Option<JsonModel>,
    pub contract: JsonModel,
    pub namespace: JsonModel,
    pub input: JsonModel,
    pub output: Option<JsonModel>,
    pub readonly: Option<JsonModel>,
    /// The object made by the last build, if there was one.
    pub json: Option<JsonModel>,
}

/// `members` with `member` under `key`, where there is a member to add.
pub open spec fn with_optional(
    members: Map<Seq<char>, JsonModel>,
    key: Seq<char>,
    member: Option<JsonModel>,
) -> Map<Seq<char>, JsonModel> {
    match member {
        Some(member) => members.insert(key, member),
        None => members,
    }
}

impl TransactionBodyView {
    /// The body with the optional field that `key` names set to `data`.
    pub open spec fn add(self, key: Seq<char>, data: JsonModel) -> TransactionBodyView {
        if key == "entry"@ {
            TransactionBodyView { entry: Some(data), ..self }
        } else if key == "output"@ {
            TransactionBodyView { output: Some(data), ..self }
        } else {
            TransactionBodyView { readonly: Some(data), ..self }
        }
    }

    /// The members of the `$tx` object: `$contract`, `$namespace` and `$i`
    /// always, and `$entry`, `$o` and `$r` for the optional fields that are
    /// set.
    pub open spec fn members(self) -> Map<Seq<char>, JsonModel> {
        with_optional(
            with_optional(
                with_optional(
                    Map::<Seq<char>, JsonModel>::empty().insert("$contract"@, self.contract).insert(
                        "$namespace"@,
                        self.namespace,
                    ).insert("$i"@, self.input),
                    "$entry"@,
                    self.entry,
                ),
                "$o"@,
                self.output,
            ),
            "$r"@,
            self.readonly,
        )
    }

    /// The `$tx` object.
    pub open spec fn packet(self) -> JsonModel {
        JsonModel::Object(self.members())
    }
}

/// The six keys of a `$tx` object differ from each other.
pub proof fn lemma_packet_keys()
    ensures
        "$contract"@ != "$namespace"@,
        "$contract"@ != "$i"@,
        "$contract"@ != "$entry"@,
        "$contract"@ != "$o"@,
        "$contract"@ != "$r"@,
        "$namespace"@ != "$i"@,
        "$namespace"@ != "$entry"@,
        "$namespace"@ != "$o"@,
        "$namespace"@ != "$r"@,
        "$i"@ != "$entry"@,
        "$i"@ != "$o"@,
        "$i"@ != "$r"@,
        "$entry"@ != "$o"@,
        "$entry"@ != "$r"@,
        "$o"@ != "$r"@,
{
    reveal_strlit("$contract");
    reveal_strlit("$namespace");
    reveal_strlit("$i");
    reveal_strlit("$entry");
    reveal_strlit("$o");
    reveal_strlit("$r");
    assert("$contract"@.len() == 9);
    assert("$namespace"@.len() == 10);
    assert("$entry"@.len() == 6);
    assert("$i"@.len() == 2 && "$i"@[1] == 'i');
    assert("$o"@.len() == 2 && "$o"@[1] == 'o');
    assert("$r"@.len() == 2 && "$r"@[1] == 'r');
}

/// The layout of the `$tx` object. It always has `$contract`, `$namespace`
/// and `$i`, with the values of the three required fields. It has `$entry`,
/// `$o` and `$r` exactly where the entry, the output and the read-only
/// section are set, with their values. It has no other key.
pub proof fn lemma_packet_layout(body: TransactionBodyView)
    ensures
        body.packet() is Object,
        body.members().dom().contains("$contract"@) && body.members()["$contract"@]
            == body.contract,
        body.members().dom().contains("$namespace"@) && body.members()["$namespace"@]
            == body.namespace,
        body.members().dom().contains("$i"@) && body.members()["$i"@] == body.input,
        body.members().dom().contains("$entry"@) <==> body.entry is Some,
        body.entry matches Some(entry) ==> body.members()["$entry"@] == entry,
        body.members().dom().contains("$o"@) <==> body.output is Some,
        body.output matches Some(output) ==> body.members()["$o"@] == output,
        body.members().dom().contains("$r"@) <==> body.readonly is Some,
        body.readonly matches Some(readonly) ==> body.members()["$r"@] == readonly,
        forall|key: Seq<char>| #[trigger]
            body.members().dom().contains(key) ==> key == "$contract"@ || key == "$namespace"@
                || key == "$i"@ || key == "$entry"@ || key == "$o"@ || key == "$r"@,
{
    lemma_packet_keys();
}

impl View for TransactionBody {
    type V = TransactionBodyView;

    closed spec fn view(&self) -> TransactionBodyView {
        TransactionBodyView {
            entry: match self.entry {
                Some(value) => Some(json_model(value)),
                None => None,
            },
            contract: json_model(self.contract),
            namespace: json_model(self.namespace),
            input: json_model(self.input),
            output: match self.output {
                Some(value) => Some(json_model(value)),
                None => None,
            },
            readonly: match self.readonly {
                Some(value) => Some(json_model(value)),
                None => None,
            },
            json: match self.json {
                Some(value) => Some(json_model(value)),
                None => None,
            },
        }
    }
}

fn copy_optional(value: &Option<Value>) -> (copy: Option<Value>)
    ensures
        match *value {
            Some(v) => copy matches Some(c) && json_model(c) == json_model(v),
            None => copy is None,
        },
{
    match value {
        Some(v) => Some(v.clone()),
        None => None,
    }
}

impl Clone for TransactionBody {
    /// The copy holds what `self` holds.
    fn clone(&self) -> (copy: Self)
        ensures
            copy@ == self@,
    {
        TransactionBody {
            entry: copy_optional(&self.entry),
            contract: self.contract.clone(),
            namespace: self.namespace.clone(),
            input: self.input.clone(),
            output: copy_optional(&self.output),
            readonly: copy_optional(&self.readonly),
            json: copy_optional(&self.json),
        }
    }
}

impl TransactionBody {
    /// A body with the three required fields. Their shape is not looked at.
    pub fn new(contract: Value, namespace: Value, input: Value) -> (body: TransactionBody)
        ensures
            body@ == (TransactionBodyView {
                entry: None,
                contract: json_model(contract),
                namespace: json_model(namespace),
                input: json_model(input),
                output: None,
                readonly: None,
                json: None,
            }),
    {
        TransactionBody {
            entry: None,
            contract,
            namespace,
            input,
            output: None,
            readonly: None,
            json: None,
        }
    }

    /// Sets one of the optional fields. `key` names it: `entry`, `output` or
    /// `readonly`.
    pub fn add(&mut self, key: &str, data: Value) -> (this: &mut Self)
        requires
            key@ == "entry"@ || key@ == "output"@ || key@ == "readonly"@,
        ensures
            this@ == old(self)@.add(key@, json_model(data)),
            *final(self) == *final(this),
    {
        let name = key.to_owned();
        if name == "entry".to_owned() {
            self.entry = Some(data);
        } else if name == "output".to_owned() {
            self.output = Some(data);
        } else {
            self.readonly = Some(data);
        }
        self
    }

    /// Makes the `$tx` object from the fields, keeps it and returns it.
    pub fn build(&mut self) -> (json: Value)
        ensures
            json_model(json) == old(self)@.packet(),
            final(self)@ == (TransactionBodyView {
                json: Some(old(self)@.packet()),
                ..old(self)@
            }),
    {
        let mut json = json_object();
        json_insert(&mut json, "$contract", self.contract.clone());
        json_insert(&mut json, "$namespace", self.namespace.clone());
        json_insert(&mut json, "$i", self.input.clone());
        if let Some(entry) = &self.entry {
            json_insert(&mut json, "$entry", entry.clone());
        }
        if let Some(output) = &self.output {
            json_insert(&mut json, "$o", output.clone());
        }
        if let Some(readonly) = &self.readonly {
            json_insert(&mut json, "$r", readonly.clone());
        }
        self.json = Some(json.clone());
        json
    }

    /// The `$tx` object of the last build. Fails with `TxBodyError(4000)`
    /// where the body has not been built. The body is left as it is.
    pub fn get(&mut self) -> (result: TxBuilderResult<Value>)
        ensures
            match old(self)@.json {
                Some(json) => result matches Ok(value) && json_model(value) == json,
                None => result matches Err(e) && e == TxBuilderError::TxBodyError(4000),
            },
            *final(self) == *old(self),
    {
        match &self.json {
            Some(json) => Ok(json.clone()),
            None => Err(TxBuilderError::TxBodyError(4000)),
        }
    }
}

} // verus!
