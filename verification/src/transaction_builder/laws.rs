//! Laws of building and signing, proved of the builder's model.

use vstd::prelude::*;
use super::model::{
    envelope, merged, onboarded, onboarding_input, signature_members, TransactionBuilderView,
};
use crate::error::TxBuilderError;
use crate::json::{json_text, JsonModel};

verus! {

/// The four keys of an envelope differ from each other.
pub proof fn lemma_envelope_keys()
    ensures
        "$tx"@ != "$sigs"@,
        "$tx"@ != "$territoriality"@,
        "$tx"@ != "$selfsign"@,
        "$sigs"@ != "$territoriality"@,
        "$sigs"@ != "$selfsign"@,
        "$territoriality"@ != "$selfsign"@,
{
    reveal_strlit("$tx");
    reveal_strlit("$sigs");
    reveal_strlit("$territoriality");
    reveal_strlit("$selfsign");
    assert("$tx"@.len() == 3);
    assert("$sigs"@.len() == 5);
    assert("$territoriality"@.len() == 15);
    assert("$selfsign"@.len() == 9);
}

/// The layout of an envelope. It always has `$tx`, the packet, and `$sigs`,
/// the object of the signatures. It has `$territoriality` and `$selfsign`
/// exactly where they are set, with their values. It has no other key.
pub proof fn lemma_envelope_layout(
    packet: JsonModel,
    sigs: Map<Seq<char>, Seq<char>>,
    territoriality: Option<JsonModel>,
    selfsign: Option<JsonModel>,
)
    ensures
        envelope(packet, sigs, territoriality, selfsign) matches JsonModel::Object(members) && {
            &&& members.dom().contains("$tx"@) && members["$tx"@] == packet
            &&& members.dom().contains("$sigs"@) && members["$sigs"@] == JsonModel::Object(
                signature_members(sigs),
            )
            &&& members.dom().contains("$territoriality"@) <==> territoriality is Some
            &&& territoriality matches Some(value) ==> members["$territoriality"@] == value
            &&& members.dom().contains("$selfsign"@) <==> selfsign is Some
            &&& selfsign matches Some(value) ==> members["$selfsign"@] == value
            &&& forall|key: Seq<char>| #[trigger]
                members.dom().contains(key) ==> key == "$tx"@ || key == "$sigs"@ || key
                    == "$territoriality"@ || key == "$selfsign"@
        },
{
    lemma_envelope_keys();
}

/// The `$sigs` object has a member for each stream id that has a signature,
/// and that member is the signature as a JSON string.
pub proof fn lemma_signature_layout(sigs: Map<Seq<char>, Seq<char>>, id: Seq<char>)
    ensures
        signature_members(sigs).dom().contains(id) <==> sigs.dom().contains(id),
        sigs.dom().contains(id) ==> signature_members(sigs)[id] == JsonModel::String(sigs[id]),
{
}

/// Filing signatures leaves alone every stream id that none of them is for:
/// it has a signature afterwards exactly where it had one before, and the
/// same one.
pub proof fn lemma_merged_keeps_others(
    sigs: Map<Seq<char>, Seq<char>>,
    signatures: Seq<(Seq<char>, Seq<char>)>,
    id: Seq<char>,
)
    requires
        forall|i: int| 0 <= i < signatures.len() ==> (#[trigger] signatures[i]).0 != id,
    ensures
        merged(sigs, signatures).dom().contains(id) <==> sigs.dom().contains(id),
        sigs.dom().contains(id) ==> merged(sigs, signatures)[id] == sigs[id],
    decreases signatures.len(),
{
    if signatures.len() > 0 {
        let rest = signatures.drop_last();
        assert forall|i: int| 0 <= i < rest.len() implies (#[trigger] rest[i]).0 != id by {
            assert(rest[i] == signatures[i]);
        }
        lemma_merged_keeps_others(sigs, rest, id);
        assert(signatures.last() == signatures[signatures.len() - 1]);
    }
}

/// Filing signatures gives every stream id among them a signature: the last
/// one that was given for it.
pub proof fn lemma_merged_files_last(
    sigs: Map<Seq<char>, Seq<char>>,
    signatures: Seq<(Seq<char>, Seq<char>)>,
    i: int,
)
    requires
        0 <= i < signatures.len(),
        forall|j: int| i < j < signatures.len() ==> (#[trigger] signatures[j]).0 != signatures[i].0,
    ensures
        merged(sigs, signatures).dom().contains(signatures[i].0),
        merged(sigs, signatures)[signatures[i].0] == signatures[i].1,
    decreases signatures.len(),
{
    if i < signatures.len() - 1 {
        let rest = signatures.drop_last();
        assert forall|j: int| i < j < rest.len() implies (#[trigger] rest[j]).0 != rest[i].0 by {
            assert(rest[j] == signatures[j]);
        }
        lemma_merged_files_last(sigs, rest, i);
        assert(signatures.last() == signatures[signatures.len() - 1]);
        assert(signatures.last().0 != signatures[i].0);
    }
}

/// Filing signatures never takes one away: a stream id that had a signature
/// has one afterwards.
pub proof fn lemma_merged_grows(
    sigs: Map<Seq<char>, Seq<char>>,
    signatures: Seq<(Seq<char>, Seq<char>)>,
    id: Seq<char>,
)
    requires
        sigs.dom().contains(id),
    ensures
        merged(sigs, signatures).dom().contains(id),
    decreases signatures.len(),
{
    if signatures.len() > 0 {
        lemma_merged_grows(sigs, signatures.drop_last(), id);
    }
}

/// A build succeeds exactly where the contract, the namespace and the input
/// are set. Where one of them is missing and the other two are there, the
/// build fails with the error of that field: `TxBuildError(5006)` for the
/// contract, `5007` for the namespace, `5008` for the input.
pub proof fn lemma_build_needs_required_fields(
    builder: TransactionBuilderView,
    signatures: Seq<(Seq<char>, Seq<char>)>,
)
    ensures
        builder.build_with(signatures) is Ok <==> builder.contract is Some && builder.namespace
            is Some && builder.input is Some,
        builder.contract is None && builder.namespace is Some && builder.input is Some
            ==> builder.build_with(signatures) == Err::<TransactionBuilderView, TxBuilderError>(
            TxBuilderError::TxBuildError(5006),
        ),
        builder.contract is Some && builder.namespace is None && builder.input is Some
            ==> builder.build_with(signatures) == Err::<TransactionBuilderView, TxBuilderError>(
            TxBuilderError::TxBuildError(5007),
        ),
        builder.contract is Some && builder.namespace is Some && builder.input is None
            ==> builder.build_with(signatures) == Err::<TransactionBuilderView, TxBuilderError>(
            TxBuilderError::TxBuildError(5008),
        ),
{
}

/// After a build the envelope is there, so the transaction can be read and
/// signed further, and the body holds the packet fields as they were.
pub proof fn lemma_built_can_be_signed(
    builder: TransactionBuilderView,
    signatures: Seq<(Seq<char>, Seq<char>)>,
    more: Seq<(Seq<char>, Seq<char>)>,
)
    requires
        builder.build_with(signatures) is Ok,
    ensures
        builder.build_with(signatures)->Ok_0.tx is Some,
        builder.build_with(signatures)->Ok_0.sign_with(more) is Ok,
        builder.build_with(signatures)->Ok_0.signing_text() == Ok::<Seq<char>, TxBuilderError>(
            json_text(builder.body().packet()),
        ),
{
}

/// Signing before any build fails with `TxBuildError(5000)`.
pub proof fn lemma_sign_needs_a_build(
    builder: TransactionBuilderView,
    signatures: Seq<(Seq<char>, Seq<char>)>,
)
    requires
        builder.packet is None,
    ensures
        builder.sign_with(signatures) == Err::<TransactionBuilderView, TxBuilderError>(
            TxBuilderError::TxBuildError(5000),
        ),
{
}

/// Adding signatures to a built transaction changes the signatures and the
/// envelope's `$sigs`, and nothing else. The fields and the body stay. In the
/// envelope `$sigs` becomes the object of all signatures and every other
/// member stays. A signature that was there under a stream id for which none
/// is added stays as it was.
pub proof fn lemma_sign_keeps_the_rest(
    builder: TransactionBuilderView,
    signatures: Seq<(Seq<char>, Seq<char>)>,
)
    requires
        builder.sign_with(signatures) is Ok,
    ensures
        ({
            let after = builder.sign_with(signatures)->Ok_0;
            let before_members = builder.tx->0->Object_0;
            let after_members = after.tx->0->Object_0;
            &&& after == (TransactionBuilderView { sigs: after.sigs, tx: after.tx, ..builder })
            &&& after.sigs == merged(builder.sigs, signatures)
            &&& after.tx->0 is Object
            &&& after_members.dom().contains("$sigs"@)
            &&& after_members["$sigs"@] == JsonModel::Object(signature_members(after.sigs))
            &&& forall|key: Seq<char>|
                key != "$sigs"@ ==> (#[trigger] after_members.dom().contains(key)
                    <==> before_members.dom().contains(key))
            &&& forall|key: Seq<char>|
                key != "$sigs"@ && before_members.dom().contains(key) ==> #[trigger] after_members[key]
                    == before_members[key]
            &&& forall|id: Seq<char>|
                (forall|i: int| 0 <= i < signatures.len() ==> (#[trigger] signatures[i]).0 != id)
                    && builder.sigs.dom().contains(id) ==> #[trigger] after.sigs.dom().contains(id)
                    && after.sigs[id] == builder.sigs[id]
        }),
{
    assert forall|id: Seq<char>|
        (forall|i: int| 0 <= i < signatures.len() ==> (#[trigger] signatures[i]).0 != id)
            && builder.sigs.dom().contains(id) implies #[trigger] merged(
        builder.sigs,
        signatures,
    ).dom().contains(id) && merged(builder.sigs, signatures)[id] == builder.sigs[id] by {
        lemma_merged_keeps_others(builder.sigs, signatures, id);
    }
}

/// Signing a built transaction gives the envelope that the build would have
/// made with the signatures of the build and the added ones together: the
/// packet and the flags are those of the build, and `$sigs` holds all the
/// signatures.
pub proof fn lemma_sign_after_build(
    builder: TransactionBuilderView,
    signatures: Seq<(Seq<char>, Seq<char>)>,
    more: Seq<(Seq<char>, Seq<char>)>,
)
    requires
        builder.build_with(signatures) is Ok,
    ensures
        ({
            let built = builder.build_with(signatures)->Ok_0;
            let all = merged(merged(builder.sigs, signatures), more);
            built.sign_with(more) == Ok::<TransactionBuilderView, TxBuilderError>(
                TransactionBuilderView {
                    sigs: all,
                    tx: Some(
                        envelope(
                            builder.body().packet(),
                            all,
                            builder.territoriality,
                            builder.selfsign,
                        ),
                    ),
                    ..built
                },
            )
        }),
{
    lemma_envelope_keys();
    let built = builder.build_with(signatures)->Ok_0;
    let all = merged(merged(builder.sigs, signatures), more);
    let signed = built.sign_with(more)->Ok_0;
    assert(signed.tx->0->Object_0 =~= envelope(
        builder.body().packet(),
        all,
        builder.territoriality,
        builder.selfsign,
    )->Object_0);
}

/// The transaction that onboards a key. Its packet has the contract
/// `onboard`, the namespace `default`, no entry, no output and no read-only
/// section, and an input with one member, under the key's name. Its envelope
/// is self-signed, has no territoriality, and has one signature, under the
/// key's name.
pub proof fn lemma_onboarded_layout(
    name: Seq<char>,
    label: Seq<char>,
    pem: Seq<char>,
    signature: Seq<char>,
)
    ensures
        ({
            let body = TransactionBuilderView::onboarding(name, label, pem).body();
            let sigs = Map::<Seq<char>, Seq<char>>::empty().insert(name, signature);
            &&& body.contract == JsonModel::String("onboard"@)
            &&& body.namespace == JsonModel::String("default"@)
            &&& body.input == onboarding_input(name, label, pem)
            &&& body.entry is None && body.output is None && body.readonly is None
            &&& body.input->Object_0.dom() == Set::<Seq<char>>::empty().insert(name)
            &&& sigs.dom() == Set::<Seq<char>>::empty().insert(name)
            &&& onboarded(name, label, pem, signature) == envelope(
                body.packet(),
                sigs,
                None,
                Some(JsonModel::String("true"@)),
            )
        }),
{
    let signatures = seq![(name, signature)];
    assert(signatures.drop_last() =~= Seq::<(Seq<char>, Seq<char>)>::empty());
    reveal_with_fuel(merged, 2);
    let body = TransactionBuilderView::onboarding(name, label, pem).body();
    assert(body.input->Object_0.dom() =~= Set::<Seq<char>>::empty().insert(name));
    assert(Map::<Seq<char>, Seq<char>>::empty().insert(name, signature).dom()
        =~= Set::<Seq<char>>::empty().insert(name));
}

} // verus!
