//! The transaction builder: collects the fields of a transaction, builds its
//! body, has it signed and keeps the finished envelope.

use vstd::prelude::*;
use serde_json::Value;
use super::body::TransactionBody;
use super::model::{
    envelope, member_signatures, merged, onboarded, onboarding_input, onboarding_text,
    signature_members, signature_pairs, signed_by, TransactionBuilderView,
};
use crate::error::{TxBuilderError, TxBuilderResult};
use crate::json::{
    json_insert, json_model, json_object, json_string, json_text, json_to_string, JsonModel,
};
use crate::packet_builder::{
    members_model, value_model, Input, Output, PacketBuilder, PacketValue, Readonly,
};
use super::key::{
    ec_generate, ec_key_signs, ec_name, ec_public_pem, ec_sign, rsa_generate, rsa_key_signs,
    rsa_name, rsa_public_pem, rsa_sign, Key, KeyType,
};
use super::signee::{signee_pairs, Signees};
use activeledger::key::{EllipticCurve, RSA};

verus! {

/// Collects what a transaction is made of, builds and signs it.
///
/// The fields `namespace`, `contract`, `entry`, `input`, `output` and
/// `readonly` make up the packet, the `$tx` object. `territoriality` and
/// `selfsign` stand beside it in the envelope. Building fills in the body,
/// the signatures and the envelope.
pub struct TransactionBuilder {
    namespace: Option<Value>,
    contract: Option<Value>,
    entry: Option<Value>,
    input: Option<Value>,
    output: Option<Value>,
    readonly: Option<Value>,
    territoriality: Option<Value>,
    selfsign: Option<Value>,
    packet: Option<TransactionBody>,
    tx: Option<Value>,
    sigs: Value,
}

spec fn optional_model(value: Option<Value>) -> Option<JsonModel> {
    match value {
        Some(value) => Some(json_model(value)),
        None => None,
    }
}

proof fn lemma_signature_members(sigs: Map<Seq<char>, Seq<char>>)
    ensures
        member_signatures(signature_members(sigs)) == sigs,
{
    assert(member_signatures(signature_members(sigs)) =~= sigs);
}

proof fn lemma_signature_members_insert(
    sigs: Map<Seq<char>, Seq<char>>,
    id: Seq<char>,
    signature: Seq<char>,
)
    ensures
        signature_members(sigs).insert(id, JsonModel::String(signature)) == signature_members(
            sigs.insert(id, signature),
        ),
{
    assert(signature_members(sigs).insert(id, JsonModel::String(signature))
        =~= signature_members(sigs.insert(id, signature)));
}

impl View for TransactionBuilder {
    type V = TransactionBuilderView;

    closed spec fn view(&self) -> TransactionBuilderView {
        TransactionBuilderView {
            namespace: optional_model(self.namespace),
            contract: optional_model(self.contract),
            entry: optional_model(self.entry),
            input: optional_model(self.input),
            output: optional_model(self.output),
            readonly: optional_model(self.readonly),
            territoriality: optional_model(self.territoriality),
            selfsign: optional_model(self.selfsign),
            packet: match self.packet {
                Some(body) => Some(body@),
                None => None,
            },
            tx: optional_model(self.tx),
            sigs: member_signatures(json_model(self.sigs)->Object_0),
        }
    }
}

impl TransactionBuilder {
    /// The signatures are kept as a JSON object of strings, and an envelope,
    /// once there is one, is a JSON object.
    #[verifier::type_invariant]
    spec fn well_formed(&self) -> bool {
        &&& json_model(self.sigs) == JsonModel::Object(signature_members(self@.sigs))
        &&& match self.tx {
            Some(tx) => json_model(tx) is Object,
            None => true,
        }
    }

    /// A builder with the namespace and the contract set.
    pub fn new(namespace: &str, contract: &str) -> (builder: TransactionBuilder)
        ensures
            builder@ == (TransactionBuilderView {
                namespace: Some(JsonModel::String(namespace@)),
                contract: Some(JsonModel::String(contract@)),
                ..TransactionBuilderView::blank()
            }),
    {
        let sigs = json_object();
        proof {
            lemma_blank_signatures();
        }
        TransactionBuilder {
            namespace: Some(json_string(namespace)),
            contract: Some(json_string(contract)),
            entry: None,
            input: None,
            output: None,
            readonly: None,
            territoriality: None,
            selfsign: None,
            packet: None,
            tx: None,
            sigs,
        }
    }

    /// A builder with nothing set.
    pub fn new_blank() -> (builder: TransactionBuilder)
        ensures
            builder@ == TransactionBuilderView::blank(),
    {
        let sigs = json_object();
        proof {
            lemma_blank_signatures();
        }
        TransactionBuilder {
            namespace: None,
            contract: None,
            entry: None,
            input: None,
            output: None,
            readonly: None,
            territoriality: None,
            selfsign: None,
            packet: None,
            tx: None,
            sigs,
        }
    }

    /// The text of the envelope. Fails with `TxBuildError(5000)` before the
    /// first build. Reading changes nothing, and the text depends on the
    /// envelope alone.
    pub fn get(&self) -> (result: TxBuilderResult<String>)
        ensures
            match self@.tx {
                Some(tx) => result matches Ok(text) && text@ == json_text(tx),
                None => result matches Err(e) && e == TxBuilderError::TxBuildError(5000),
            },
    {
        match &self.tx {
            Some(tx) => Ok(json_to_string(tx)),
            None => Err(TxBuilderError::TxBuildError(5000)),
        }
    }

    /// The envelope as a JSON value. Fails with `TxBuildError(5000)` before
    /// the first build. Reading changes nothing.
    pub fn get_json(&self) -> (result: TxBuilderResult<Value>)
        ensures
            match self@.tx {
                Some(tx) => result matches Ok(value) && json_model(value) == tx,
                None => result matches Err(e) && e == TxBuilderError::TxBuildError(5000),
            },
    {
        match &self.tx {
            Some(tx) => Ok(tx.clone()),
            None => Err(TxBuilderError::TxBuildError(5000)),
        }
    }

    /// Sets the territoriality, replacing an earlier one.
    pub fn territoriality(&mut self, territoriality: &str) -> (this: &mut Self)
        ensures
            this@ == (TransactionBuilderView {
                territoriality: Some(JsonModel::String(territoriality@)),
                ..old(self)@
            }),
            *final(self) == *final(this),
    {
        proof {
            use_type_invariant(&*self);
        }
        self.territoriality = Some(json_string(territoriality));
        self
    }

    /// Sets the entry point, replacing an earlier one.
    pub fn entry(&mut self, entry: &str) -> (this: &mut Self)
        ensures
            this@ == (TransactionBuilderView {
                entry: Some(JsonModel::String(entry@)),
                ..old(self)@
            }),
            *final(self) == *final(this),
    {
        proof {
            use_type_invariant(&*self);
        }
        self.entry = Some(json_string(entry));
        self
    }

    /// Sets the contract, replacing an earlier one.
    pub fn contract(&mut self, contract: &str) -> (this: &mut Self)
        ensures
            this@ == (TransactionBuilderView {
                contract: Some(JsonModel::String(contract@)),
                ..old(self)@
            }),
            *final(self) == *final(this),
    {
        proof {
            use_type_invariant(&*self);
        }
        self.contract = Some(json_string(contract));
        self
    }

    /// Sets the namespace, replacing an earlier one.
    pub fn namespace(&mut self, namespace: &str) -> (this: &mut Self)
        ensures
            this@ == (TransactionBuilderView {
                namespace: Some(JsonModel::String(namespace@)),
                ..old(self)@
            }),
            *final(self) == *final(this),
    {
        proof {
            use_type_invariant(&*self);
        }
        self.namespace = Some(json_string(namespace));
        self
    }

    /// Sets the input section to the JSON of `input`, which has to be built.
    /// Fails with `TxBuildError(5001)`, and changes nothing, where it is not.
    pub fn input(&mut self, input: Input) -> (result: TxBuilderResult<&mut Self>)
        ensures
            match input@.json {
                Some(json) => result matches Ok(this) && this@ == (TransactionBuilderView {
                    input: Some(json),
                    ..old(self)@
                }) && *final(self) == *final(this),
                None => result matches Err(e) && e == TxBuilderError::TxBuildError(5001)
                    && *final(self) == *old(self),
            },
    {
        proof {
            use_type_invariant(&*self);
        }
        match input.get() {
            Ok(data) => {
                self.input = Some(data);
            },
            Err(_) => return Err(TxBuilderError::TxBuildError(5001)),
        };
        Ok(self)
    }

    /// Sets the output section to the JSON of `output`, which has to be
    /// built. Fails with `TxBuildError(5002)`, and changes nothing, where it
    /// is not.
    pub fn output(&mut self, output: Output) -> (result: TxBuilderResult<&mut Self>)
        ensures
            match output@.json {
                Some(json) => result matches Ok(this) && this@ == (TransactionBuilderView {
                    output: Some(json),
                    ..old(self)@
                }) && *final(self) == *final(this),
                None => result matches Err(e) && e == TxBuilderError::TxBuildError(5002)
                    && *final(self) == *old(self),
            },
    {
        proof {
            use_type_invariant(&*self);
        }
        match output.get() {
            Ok(data) => {
                self.output = Some(data);
            },
            Err(_) => return Err(TxBuilderError::TxBuildError(5002)),
        };
        Ok(self)
    }

    /// Sets the read-only section to the JSON of `readonly`, which has to be
    /// built. Fails with `TxBuildError(5003)`, and changes nothing, where it
    /// is not.
    pub fn readonly(&mut self, readonly: Readonly) -> (result: TxBuilderResult<&mut Self>)
        ensures
            match readonly@.json {
                Some(json) => result matches Ok(this) && this@ == (TransactionBuilderView {
                    readonly: Some(json),
                    ..old(self)@
                }) && *final(self) == *final(this),
                None => result matches Err(e) && e == TxBuilderError::TxBuildError(5003)
                    && *final(self) == *old(self),
            },
    {
        proof {
            use_type_invariant(&*self);
        }
        match readonly.get() {
            Ok(data) => {
                self.readonly = Some(data);
            },
            Err(_) => return Err(TxBuilderError::TxBuildError(5003)),
        };
        Ok(self)
    }

    /// Marks the transaction as self-signed: the flag becomes the string
    /// `true`.
    pub fn selfsign(&mut self) -> (this: &mut Self)
        ensures
            this@ == (TransactionBuilderView {
                selfsign: Some(JsonModel::String("true"@)),
                ..old(self)@
            }),
            *final(self) == *final(this),
    {
        proof {
            use_type_invariant(&*self);
        }
        self.selfsign = Some(json_string("true"));
        self
    }

    /// Checks the required fields and builds the body of the packet. Returns
    /// the body with the `$tx` object that it built.
    fn assemble(&self) -> (result: TxBuilderResult<(TransactionBody, Value)>)
        ensures
            match self@.missing() {
                Some(error) => result matches Err(e) && e == error,
                None => result matches Ok(built) && built.0@ == self@.body() && json_model(built.1)
                    == self@.body().packet(),
            },
    {
        let contract = match &self.contract {
            Some(contract) => contract.clone(),
            None => return Err(TxBuilderError::TxBuildError(5006)),
        };
        let namespace = match &self.namespace {
            Some(namespace) => namespace.clone(),
            None => return Err(TxBuilderError::TxBuildError(5007)),
        };
        let input = match &self.input {
            Some(input) => input.clone(),
            None => return Err(TxBuilderError::TxBuildError(5008)),
        };
        let mut tx = TransactionBody::new(contract, namespace, input);
        proof {
            lemma_field_names();
        }
        if let Some(entry) = &self.entry {
            tx.add("entry", entry.clone());
        }
        if let Some(output) = &self.output {
            tx.add("output", output.clone());
        }
        if let Some(readonly) = &self.readonly {
            tx.add("readonly", readonly.clone());
        }
        let built_packet = tx.build();
        Ok((tx, built_packet))
    }

    /// Takes over a built body with its `$tx` object, files the signatures
    /// and makes the envelope.
    fn seal(
        &mut self,
        body: TransactionBody,
        built_packet: Value,
        signatures: &Vec<(String, String)>,
    ) -> (text: String)
        requires
            body@.json == Some(json_model(built_packet)),
        ensures
            final(self)@ == (TransactionBuilderView {
                packet: Some(body@),
                sigs: merged(old(self)@.sigs, signature_pairs(signatures@)),
                tx: Some(
                    envelope(
                        body@.json->0,
                        merged(old(self)@.sigs, signature_pairs(signatures@)),
                        old(self)@.territoriality,
                        old(self)@.selfsign,
                    ),
                ),
                ..old(self)@
            }),
            text@ == json_text(final(self)@.tx->0),
    {
        proof {
            use_type_invariant(&*self);
        }
        let sigs = merge(&self.sigs, signatures);
        let mut json = json_object();
        json_insert(&mut json, "$tx", built_packet);
        json_insert(&mut json, "$sigs", sigs.clone());
        if let Some(territoriality) = &self.territoriality {
            json_insert(&mut json, "$territoriality", territoriality.clone());
        }
        if let Some(selfsign) = &self.selfsign {
            json_insert(&mut json, "$selfsign", selfsign.clone());
        }
        let text = json_to_string(&json);
        self.packet = Some(body);
        self.sigs = sigs;
        self.tx = Some(json);
        text
    }

    /// Builds the transaction with signatures that were made elsewhere, each
    /// given with the stream id it is filed under. The required fields are
    /// checked, the body is built, the signatures are filed in the order
    /// given and the envelope is made and returned as text. A failed build
    /// changes nothing.
    pub fn build_with(&mut self, signatures: &Vec<(String, String)>) -> (result: TxBuilderResult<
        String,
    >)
        ensures
            match old(self)@.build_with(signature_pairs(signatures@)) {
                Ok(built) => result matches Ok(text) && text@ == json_text(built.tx->0)
                    && final(self)@ == built,
                Err(error) => result matches Err(e) && e == error && final(self)@ == old(self)@,
            },
    {
        let (tx, built_packet) = self.assemble()?;
        Ok(self.seal(tx, built_packet, signatures))
    }

    /// Adds signatures that were made elsewhere to a built transaction. They
    /// are filed with those already there and the envelope's `$sigs` is
    /// replaced. Fails, and changes nothing, where nothing was built.
    pub fn sign_with(&mut self, signatures: &Vec<(String, String)>) -> (result: TxBuilderResult<
        &mut Self,
    >)
        ensures
            match old(self)@.sign_with(signature_pairs(signatures@)) {
                Ok(signed) => result matches Ok(this) && this@ == signed
                    && *final(self) == *final(this),
                Err(error) => result matches Err(e) && e == error && *final(self) == *old(self),
            },
    {
        proof {
            use_type_invariant(&*self);
        }
        match &self.packet {
            Some(body) => {
                let mut body = body.clone();
                body.get()?;
            },
            None => return Err(TxBuilderError::TxBuildError(5000)),
        };
        let mut json = match &self.tx {
            Some(json) => json.clone(),
            None => return Err(TxBuilderError::TxBuildError(5005)),
        };
        let sigs = merge(&self.sigs, signatures);
        json_insert(&mut json, "$sigs", sigs.clone());
        self.sigs = sigs;
        self.tx = Some(json);
        Ok(self)
    }

    /// Has every signee sign `data`, in order, and pairs each signature with
    /// the signee's stream id. The first key that fails ends the round with
    /// that key's error.
    fn sign_all(data: &str, signees: &Signees) -> (result: TxBuilderResult<Vec<(String, String)>>)
        ensures
            match result {
                Ok(signatures) => signed_by(signature_pairs(signatures@), signees@, data@),
                Err(error) => exists|i: int|
                    0 <= i < signees@.len() && error == (#[trigger] signees@[i]).1.sign_error(),
            },
    {
        let signees_array = signees.get();
        let mut signatures: Vec<(String, String)> = Vec::new();
        let mut i: usize = 0;
        while i < signees_array.len()
            invariant
                i <= signees_array.len(),
                signatures.len() == i,
                signee_pairs(signees_array@) == signees@,
                forall|j: int|
                    0 <= j < i ==> (#[trigger] signatures@[j]).0@ == signees_array@[j].streamid@
                        && signees_array@[j].key.signs(data@, signatures@[j].1@),
            decreases signees_array.len() - i,
        {
            let signee = &signees_array[i];
            let signature = match TransactionBuilder::sign_internal(data, &signee.key) {
                Ok(signature) => signature,
                Err(error) => {
                    assert(signees@[i as int].1 == signee.key);
                    return Err(error);
                },
            };
            signatures.push((signee.streamid.clone(), signature));
            i += 1;
        }
        assert(signed_by(signature_pairs(signatures@), signees@, data@)) by {
            assert forall|j: int| 0 <= j < signees@.len() implies (#[trigger] signature_pairs(
                signatures@,
            )[j]).0 == signees@[j].0 && signees@[j].1.signs(
                data@,
                signature_pairs(signatures@)[j].1,
            ) by {
                assert(signatures@[j].0@ == signees_array@[j].streamid@);
            }
        }
        Ok(signatures)
    }

    /// Builds the transaction and has every signee sign the text of its
    /// body.
    ///
    /// A required field that is not set fails the build with its own error:
    /// the contract with `TxBuildError(5006)`, the namespace with `5007`, the
    /// input with `5008`. Otherwise the body is built from the packet fields
    /// and each signee signs its text. Where a key fails to sign, the build
    /// fails with that key's error. Where all have signed, the signatures
    /// are filed under the signees' stream ids, in order, the envelope is
    /// made and its text returned. A failed build changes nothing.
    pub fn build(&mut self, signees: Signees) -> (result: TxBuilderResult<String>)
        ensures
            match old(self)@.missing() {
                Some(error) => result matches Err(e) && e == error && final(self)@ == old(self)@,
                None => match result {
                    Ok(text) => exists|signatures: Seq<(Seq<char>, Seq<char>)>|
                        {
                            &&& signed_by(
                                signatures,
                                signees@,
                                json_text(old(self)@.body().packet()),
                            )
                            &&& final(self)@ == #[trigger] old(self)@.built(signatures)
                            &&& text@ == json_text(final(self)@.tx->0)
                        },
                    Err(error) => {
                        &&& final(self)@ == old(self)@
                        &&& exists|i: int|
                            0 <= i < signees@.len() && error == (#[trigger] signees@[i]).1.sign_error()
                    },
                },
            },
    {
        let (tx, built_packet) = self.assemble()?;
        let data = json_to_string(&built_packet);
        let signatures = TransactionBuilder::sign_all(data.as_str(), &signees)?;
        let text = self.seal(tx, built_packet, &signatures);
        assert(final(self)@ == old(self)@.built(signature_pairs(signatures@)));
        Ok(text)
    }

    /// Has every signee sign the text of the body that was built, and adds
    /// the signatures to the transaction.
    ///
    /// Fails with `TxBuildError(5000)` where nothing was built. The body is
    /// the one of the last build: it is not built again. Where a key fails
    /// to sign, the call fails with that key's error. Where all have signed,
    /// the signatures are filed with those already there and the envelope's
    /// `$sigs` is replaced. A failed call changes nothing.
    pub fn sign(&mut self, signees: Signees) -> (result: TxBuilderResult<&mut Self>)
        ensures
            match old(self)@.signing_text() {
                Err(error) => result matches Err(e) && e == error && *final(self) == *old(self),
                Ok(data) => match result {
                    Ok(this) => exists|signatures: Seq<(Seq<char>, Seq<char>)>|
                        {
                            &&& signed_by(signatures, signees@, data)
                            &&& #[trigger] old(self)@.sign_with(signatures) == Ok::<
                                TransactionBuilderView,
                                TxBuilderError,
                            >(this@)
                            &&& *final(self) == *final(this)
                        },
                    Err(error) => {
                        &&& *final(self) == *old(self)
                        &&& {
                            ||| exists|i: int|
                                0 <= i < signees@.len() && error == (
                                #[trigger] signees@[i]).1.sign_error()
                            ||| old(self)@.tx is None && error == TxBuilderError::TxBuildError(
                                5005,
                            )
                        }
                    },
                },
            },
    {
        let packet = match &self.packet {
            Some(body) => {
                let mut body = body.clone();
                body.get()?
            },
            None => return Err(TxBuilderError::TxBuildError(5000)),
        };
        let data = json_to_string(&packet);
        let signatures = TransactionBuilder::sign_all(data.as_str(), &signees)?;
        self.sign_with(&signatures)
    }

    /// A builder for the transaction that onboards a key: namespace
    /// `default`, contract `onboard`, self-signed, and as input the key's
    /// kind and public PEM under the key's name.
    pub fn onboarding(key_name: &str, key_type: &str, public_key: &str) -> (result:
        TxBuilderResult<TransactionBuilder>)
        ensures
            result matches Ok(builder) && builder@ == TransactionBuilderView::onboarding(
                key_name@,
                key_type@,
                public_key@,
            ),
    {
        let mut description: Vec<(String, PacketValue)> = Vec::new();
        description.push(("type".to_owned(), PacketBuilder::from_string(key_type)));
        description.push(("publicKey".to_owned(), PacketBuilder::from_string(public_key)));
        let mut members: Vec<(String, PacketValue)> = Vec::new();
        let ghost inner = members_model(description@, 2);
        proof {
            reveal_with_fuel(members_model, 3);
            assert(value_model(description@[0].1) == JsonModel::String(key_type@));
            assert(value_model(description@[1].1) == JsonModel::String(public_key@));
            assert(inner == Map::<Seq<char>, JsonModel>::empty().insert(
                "type"@,
                JsonModel::String(key_type@),
            ).insert("publicKey"@, JsonModel::String(public_key@)));
        }
        members.push((key_name.to_owned(), PacketValue::Object(description)));
        let input = PacketValue::Object(members);
        proof {
            reveal_with_fuel(members_model, 3);
            assert(value_model(members@[0].1) == JsonModel::Object(inner));
            assert(members_model(members@, 1) == Map::<Seq<char>, JsonModel>::empty().insert(
                key_name@,
                JsonModel::Object(inner),
            ));
            assert(input@ == onboarding_input(key_name@, key_type@, public_key@));
        }
        let mut input_builder = PacketBuilder::new(input);
        let input = input_builder.build()?;
        let mut tx_builder = TransactionBuilder::new("default", "onboard");
        tx_builder.selfsign().input(input)?;
        Ok(tx_builder)
    }

    /// Builds the transaction that onboards `key`, signed by the key itself
    /// under its own name.
    ///
    /// Fails with `KeyError(7002)` where the key's PEM cannot be had, and
    /// with the key's signing error where it fails to sign.
    pub fn onboard_tx(key: Key) -> (result: TxBuilderResult<String>)
        ensures
            match key.public_pem() {
                None => result matches Err(e) && e == TxBuilderError::KeyError(7002),
                Some(pem) => match result {
                    Ok(text) => exists|signature: Seq<char>|
                        {
                            &&& key.signs(
                                onboarding_text(key.name(), key.label(), pem),
                                signature,
                            )
                            &&& text@ == json_text(
                                #[trigger] onboarded(key.name(), key.label(), pem, signature),
                            )
                        },
                    Err(error) => error == key.sign_error(),
                },
            },
    {
        let (key_name, key_type) = match &key {
            Key::Rsa(key) => (rsa_name(key), "rsa"),
            Key::Ec(key) => (ec_name(key), "secp256k1"),
        };
        let pem = TransactionBuilder::get_pem(&key)?;
        let mut tx_builder = TransactionBuilder::onboarding(
            key_name.as_str(),
            key_type,
            pem.as_str(),
        )?;
        let mut signees = Signees::new();
        signees.add_selfsign(key);
        let ghost before = tx_builder@;
        match tx_builder.build(signees) {
            Ok(text) => {
                proof {
                    let signatures = choose|signatures: Seq<(Seq<char>, Seq<char>)>|
                        {
                            &&& signed_by(signatures, signees@, json_text(before.body().packet()))
                            &&& tx_builder@ == #[trigger] before.built(signatures)
                            &&& text@ == json_text(tx_builder@.tx->0)
                        };
                    assert(signatures =~= seq![(key.name(), signatures[0].1)]);
                    assert(signees@[0].1 == key);
                    assert(key.signs(
                        onboarding_text(key.name(), key.label(), pem@),
                        signatures[0].1,
                    ));
                    assert(text@ == json_text(
                        onboarded(key.name(), key.label(), pem@, signatures[0].1),
                    ));
                }
                Ok(text)
            },
            Err(error) => Err(error),
        }
    }

    /// Generates a key of the given kind and name and builds the transaction
    /// that onboards it. Returns the key with the transaction's text.
    ///
    /// Fails with `TxGenerateError(6000)` where no RSA key could be made and
    /// with `TxGenerateError(6001)` where no elliptic-curve key could be
    /// made; after that as [`TransactionBuilder::onboard_tx`] does.
    pub fn generate_onboard_tx(key_type: KeyType, key_name: &str) -> (result: TxBuilderResult<
        (Key, String),
    >)
        ensures
            match result {
                Ok((key, text)) => {
                    &&& key.name() == key_name@
                    &&& key is Rsa <==> key_type is RSA
                    &&& key.public_pem() matches Some(pem) && exists|signature: Seq<char>|
                        {
                            &&& key.signs(onboarding_text(key_name@, key.label(), pem), signature)
                            &&& text@ == json_text(
                                #[trigger] onboarded(key_name@, key.label(), pem, signature),
                            )
                        }
                },
                Err(error) => match key_type {
                    KeyType::RSA => error == TxBuilderError::TxGenerateError(6000) || error
                        == TxBuilderError::KeyError(7002) || error == TxBuilderError::KeyError(
                        7001,
                    ),
                    KeyType::EC => error == TxBuilderError::TxGenerateError(6001) || error
                        == TxBuilderError::KeyError(7002) || error == TxBuilderError::KeyError(
                        7000,
                    ),
                },
            },
    {
        let key = match key_type {
            KeyType::RSA => {
                let key = match rsa_generate(key_name) {
                    Ok(key) => key,
                    Err(_) => return Err(TxBuilderError::TxGenerateError(6000)),
                };
                Key::Rsa(key)
            },
            KeyType::EC => {
                let key = match ec_generate(key_name) {
                    Ok(key) => key,
                    Err(_) => return Err(TxBuilderError::TxGenerateError(6001)),
                };
                Key::Ec(key)
            },
        };
        let tx = TransactionBuilder::onboard_tx(key.clone())?;
        Ok((key, tx))
    }

    /// Signs `data` with the key, whatever its kind.
    fn sign_internal(data: &str, key: &Key) -> (result: TxBuilderResult<String>)
        ensures
            match result {
                Ok(signature) => key.signs(data@, signature@),
                Err(error) => error == key.sign_error(),
            },
    {
        match key {
            Key::Rsa(key) => TransactionBuilder::sign_rsa(data, key),
            Key::Ec(key) => TransactionBuilder::sign_ec(data, key),
        }
    }

    /// Signs `tx` with an elliptic-curve key.
    fn sign_ec(tx: &str, key: &EllipticCurve) -> (result: TxBuilderResult<String>)
        ensures
            match result {
                Ok(signature) => ec_key_signs(*key, tx@, signature@),
                Err(error) => error == TxBuilderError::KeyError(7000),
            },
    {
        match ec_sign(key, tx) {
            Ok(signature) => Ok(signature),
            Err(_) => Err(TxBuilderError::KeyError(7000)),
        }
    }

    /// Signs `tx` with an RSA key.
    fn sign_rsa(tx: &str, key: &RSA) -> (result: TxBuilderResult<String>)
        ensures
            match result {
                Ok(signature) => rsa_key_signs(*key, tx@, signature@),
                Err(error) => error == TxBuilderError::KeyError(7001),
            },
    {
        match rsa_sign(key, tx) {
            Ok(signature) => Ok(signature),
            Err(_) => Err(TxBuilderError::KeyError(7001)),
        }
    }

    /// The key's public PEM.
    fn get_pem(key: &Key) -> (result: TxBuilderResult<String>)
        ensures
            match key.public_pem() {
                Some(pem) => result matches Ok(text) && text@ == pem,
                None => result matches Err(e) && e == TxBuilderError::KeyError(7002),
            },
    {
        let pkcs8pem = match key {
            Key::Rsa(key) => rsa_public_pem(key),
            Key::Ec(key) => ec_public_pem(key),
        };
        match pkcs8pem {
            Ok(pem) => Ok(pem),
            Err(_) => Err(TxBuilderError::KeyError(7002)),
        }
    }
}

spec fn signatures_of(value: Value) -> Map<Seq<char>, Seq<char>> {
    member_signatures(json_model(value)->Object_0)
}

spec fn holds_signatures(value: Value) -> bool {
    json_model(value) == JsonModel::Object(signature_members(signatures_of(value)))
}

/// Files each signature under its stream id in a copy of `sigs`.
fn merge(sigs: &Value, signatures: &Vec<(String, String)>) -> (all: Value)
    requires
        holds_signatures(*sigs),
    ensures
        holds_signatures(all),
        signatures_of(all) == merged(signatures_of(*sigs), signature_pairs(signatures@)),
{
    let mut all = sigs.clone();
    let ghost pairs = signature_pairs(signatures@);
    let mut i: usize = 0;
    assert(pairs.take(0) =~= Seq::empty());
    while i < signatures.len()
        invariant
            i <= signatures.len(),
            pairs == signature_pairs(signatures@),
            holds_signatures(all),
            signatures_of(all) == merged(signatures_of(*sigs), pairs.take(i as int)),
        decreases signatures.len() - i,
    {
        let ghost before = signatures_of(all);
        let id = &signatures[i].0;
        let signature = &signatures[i].1;
        json_insert(&mut all, id.as_str(), json_string(signature.as_str()));
        proof {
            lemma_signature_members_insert(before, id@, signature@);
            lemma_signature_members(before.insert(id@, signature@));
            assert(pairs.take(i + 1).drop_last() =~= pairs.take(i as int));
            assert(pairs.take(i + 1).last() == (id@, signature@));
        }
        i += 1;
    }
    assert(pairs.take(i as int) =~= pairs);
    all
}

/// The names of the optional packet fields differ from each other.
proof fn lemma_field_names()
    ensures
        "entry"@ != "output"@,
        "entry"@ != "readonly"@,
        "output"@ != "readonly"@,
{
    reveal_strlit("entry");
    reveal_strlit("output");
    reveal_strlit("readonly");
    assert("entry"@.len() == 5);
    assert("output"@.len() == 6);
    assert("readonly"@.len() == 8);
}

proof fn lemma_blank_signatures()
    ensures
        member_signatures(Map::<Seq<char>, JsonModel>::empty()) == Map::<
            Seq<char>,
            Seq<char>,
        >::empty(),
        signature_members(Map::<Seq<char>, Seq<char>>::empty()) == Map::<
            Seq<char>,
            JsonModel,
        >::empty(),
{
    assert(member_signatures(Map::<Seq<char>, JsonModel>::empty()) =~= Map::<
        Seq<char>,
        Seq<char>,
    >::empty());
    assert(signature_members(Map::<Seq<char>, Seq<char>>::empty()) =~= Map::<
        Seq<char>,
        JsonModel,
    >::empty());
}

} // verus!
