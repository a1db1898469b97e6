//! What a transaction builder holds, and what building and signing make of
//! it, as plain mathematics.

use vstd::prelude::*;
use super::body::{with_optional, TransactionBodyView};
use super::key::Key;
use crate::error::TxBuilderError;
use crate::json::{json_text, JsonModel};

verus! {

/// What a [`TransactionBuilder`] holds.
pub struct TransactionBuilderView {
    pub namespace: Option<JsonModel>,
    pub contract: Option<JsonModel>,
    pub entry: Option<JsonModel>,
    pub input: Option<JsonModel>,
    pub output: Option<JsonModel>,
    pub readonly: Option<JsonModel>,
    pub territoriality: Option<JsonModel>,
    pub selfsign: Option<JsonModel>,
    /// The body of the last build, which later signatures are made over.
    pub packet: Option<TransactionBodyView>,
    /// The envelope of the last build, with the signatures added since.
    pub tx: Option<JsonModel>,
    /// The signatures so far, by stream id.
    pub sigs: Map<Seq<char>, Seq<char>>,
}

/// The members of the `$sigs` object: each signature as a JSON string under
/// its stream id.
pub open spec fn signature_members(sigs: Map<Seq<char>, Seq<char>>) -> Map<Seq<char>, JsonModel> {
    sigs.map_values(|signature: Seq<char>| JsonModel::String(signature))
}

/// The signatures that the members of a `$sigs` object stand for.
pub open spec fn member_signatures(members: Map<Seq<char>, JsonModel>) -> Map<
    Seq<char>,
    Seq<char>,
> {
    members.map_values(|member: JsonModel| member->String_0)
}

/// Whether the signatures are those of the signees over `data`, one each and
/// in order: each is filed under its signee's stream id and was made by its
/// signee's key for `data`.
pub open spec fn signed_by(
    signatures: Seq<(Seq<char>, Seq<char>)>,
    signees: Seq<(Seq<char>, Key)>,
    data: Seq<char>,
) -> bool {
    &&& signatures.len() == signees.len()
    &&& forall|i: int|
        0 <= i < signees.len() ==> (#[trigger] signatures[i]).0 == signees[i].0
            && signees[i].1.signs(data, signatures[i].1)
}

/// The input section of an onboarding transaction: under the key's name, the
/// key's kind and its public PEM.
pub open spec fn onboarding_input(name: Seq<char>, label: Seq<char>, pem: Seq<char>) -> JsonModel {
    JsonModel::Object(
        Map::<Seq<char>, JsonModel>::empty().insert(
            name,
            JsonModel::Object(
                Map::<Seq<char>, JsonModel>::empty().insert("type"@, JsonModel::String(label)).insert(
                    "publicKey"@,
                    JsonModel::String(pem),
                ),
            ),
        ),
    )
}

/// The text that the key of an onboarding transaction signs: that of the
/// transaction's `$tx` object.
pub open spec fn onboarding_text(name: Seq<char>, label: Seq<char>, pem: Seq<char>) -> Seq<char> {
    json_text(TransactionBuilderView::onboarding(name, label, pem).body().packet())
}

/// The envelope of the transaction that onboards a key of the given name,
/// kind and public PEM, self-signed with `signature`.
pub open spec fn onboarded(
    name: Seq<char>,
    label: Seq<char>,
    pem: Seq<char>,
    signature: Seq<char>,
) -> JsonModel {
    TransactionBuilderView::onboarding(name, label, pem).built(seq![(name, signature)]).tx->0
}

/// The pairs of stream id and signature, as plain text.
pub open spec fn signature_pairs(signatures: Seq<(String, String)>) -> Seq<
    (Seq<char>, Seq<char>),
> {
    Seq::new(signatures.len(), |i: int| (signatures[i].0@, signatures[i].1@))
}

/// `sigs` after the given signatures have been filed under their stream
/// ids, one after the other. A later signature replaces an earlier one with
/// the same stream id.
pub open spec fn merged(
    sigs: Map<Seq<char>, Seq<char>>,
    signatures: Seq<(Seq<char>, Seq<char>)>,
) -> Map<Seq<char>, Seq<char>>
    decreases signatures.len(),
{
    if signatures.len() == 0 {
        sigs
    } else {
        merged(sigs, signatures.drop_last()).insert(signatures.last().0, signatures.last().1)
    }
}

/// The envelope: `$tx` and `$sigs` always, `$territoriality` and
/// `$selfsign` where they are set.
pub open spec fn envelope(
    packet: JsonModel,
    sigs: Map<Seq<char>, Seq<char>>,
    territoriality: Option<JsonModel>,
    selfsign: Option<JsonModel>,
) -> JsonModel {
    JsonModel::Object(
        with_optional(
            with_optional(
                Map::<Seq<char>, JsonModel>::empty().insert("$tx"@, packet).insert(
                    "$sigs"@,
                    JsonModel::Object(signature_members(sigs)),
                ),
                "$territoriality"@,
                territoriality,
            ),
            "$selfsign"@,
            selfsign,
        ),
    )
}

impl TransactionBuilderView {
    /// A builder with nothing set, nothing built and no signatures.
    pub open spec fn blank() -> TransactionBuilderView {
        TransactionBuilderView {
            namespace: None,
            contract: None,
            entry: None,
            input: None,
            output: None,
            readonly: None,
            territoriality: None,
            selfsign: None,
            packet: None,
            tx: None,
            sigs: Map::empty(),
        }
    }

    /// The builder that an onboarding transaction is built from.
    pub open spec fn onboarding(
        name: Seq<char>,
        label: Seq<char>,
        pem: Seq<char>,
    ) -> TransactionBuilderView {
        TransactionBuilderView {
            namespace: Some(JsonModel::String("default"@)),
            contract: Some(JsonModel::String("onboard"@)),
            input: Some(onboarding_input(name, label, pem)),
            selfsign: Some(JsonModel::String("true"@)),
            ..TransactionBuilderView::blank()
        }
    }

    /// The error for the first required field that is not set: the contract,
    /// then the namespace, then the input.
    pub open spec fn missing(self) -> Option<TxBuilderError> {
        if self.contract is None {
            Some(TxBuilderError::TxBuildError(5006))
        } else if self.namespace is None {
            Some(TxBuilderError::TxBuildError(5007))
        } else if self.input is None {
            Some(TxBuilderError::TxBuildError(5008))
        } else {
            None
        }
    }

    /// The body that a build makes of the packet fields, built.
    pub open spec fn body(self) -> TransactionBodyView {
        let fields = TransactionBodyView {
            entry: self.entry,
            contract: self.contract->0,
            namespace: self.namespace->0,
            input: self.input->0,
            output: self.output,
            readonly: self.readonly,
            json: None,
        };
        TransactionBodyView { json: Some(fields.packet()), ..fields }
    }

    /// The builder after a build in which the given signatures were made.
    pub open spec fn built(self, signatures: Seq<(Seq<char>, Seq<char>)>) -> TransactionBuilderView {
        let sigs = merged(self.sigs, signatures);
        TransactionBuilderView {
            packet: Some(self.body()),
            sigs,
            tx: Some(envelope(self.body().packet(), sigs, self.territoriality, self.selfsign)),
            ..self
        }
    }

    /// What a build with the given signatures comes to: the builder after it,
    /// or the error for a required field that is missing.
    pub open spec fn build_with(self, signatures: Seq<(Seq<char>, Seq<char>)>) -> Result<
        TransactionBuilderView,
        TxBuilderError,
    > {
        match self.missing() {
            Some(error) => Err(error),
            None => Ok(self.built(signatures)),
        }
    }

    /// The text that further signatures are made over: that of the body of
    /// the last build.
    pub open spec fn signing_text(self) -> Result<Seq<char>, TxBuilderError> {
        match self.packet {
            None => Err(TxBuilderError::TxBuildError(5000)),
            Some(body) => match body.json {
                None => Err(TxBuilderError::TxBodyError(4000)),
                Some(json) => Ok(json_text(json)),
            },
        }
    }

    /// What adding the given signatures to a built transaction comes to: the
    /// signatures are filed with those already there and the envelope's
    /// `$sigs` is replaced; nothing else changes.
    pub open spec fn sign_with(self, signatures: Seq<(Seq<char>, Seq<char>)>) -> Result<
        TransactionBuilderView,
        TxBuilderError,
    > {
        match self.signing_text() {
            Err(error) => Err(error),
            Ok(_) => match self.tx {
                None => Err(TxBuilderError::TxBuildError(5005)),
                Some(tx) => {
                    let sigs = merged(self.sigs, signatures);
                    Ok(
                        TransactionBuilderView {
                            sigs,
                            tx: Some(
                                JsonModel::Object(
                                    tx->Object_0.insert(
                                        "$sigs"@,
                                        JsonModel::Object(signature_members(sigs)),
                                    ),
                                ),
                            ),
                            ..self
                        },
                    )
                },
            },
        }
    }
}

} // verus!
