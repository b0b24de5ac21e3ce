use vstd::prelude::*;

use crate::types::{clone_bytes, DecodedTx, TxHashEntry, TxHashEntryV, TxSummary, TxSummaryV};

verus! {

/// The raw kind tag that marks an entry as an inner, decodable transaction;
/// any other tag is treated as an outer "Wrapper" envelope.
pub open spec fn decrypted_tag() -> Seq<char> {
    "Decrypted"@
}

/// The label given to entries that keep their outer envelope.
pub open spec fn wrapper_label() -> Seq<char> {
    "Wrapper"@
}

/// Whether a raw kind tag sends the entry down the record-fetch-and-decode
/// path.
pub open spec fn is_decrypted_kind(kind: Seq<char>) -> bool {
    kind == decrypted_tag()
}

/// The descriptive label for a decode outcome: the variant's own name, or
/// the generic "Decrypted" fallback when decoding failed (`None`) or the
/// variant was unrecognized.
pub open spec fn label_of(d: Option<DecodedTx>) -> Seq<char> {
    match d {
        Some(DecodedTx::Transfer) => "Transfer"@,
        Some(DecodedTx::Bond) => "Bond"@,
        Some(DecodedTx::RevealPK) => "RevealPK"@,
        Some(DecodedTx::VoteProposal) => "VoteProposal"@,
        Some(DecodedTx::BecomeValidator) => "BecomeValidator"@,
        Some(DecodedTx::InitValidator) => "InitValidator"@,
        Some(DecodedTx::Unbond) => "Unbond"@,
        Some(DecodedTx::Withdraw) => "Withdraw"@,
        Some(DecodedTx::InitAccount) => "InitAccount"@,
        Some(DecodedTx::UpdateAccount) => "UpdateAccount"@,
        Some(DecodedTx::ResignSteward) => "ResignSteward"@,
        Some(DecodedTx::UpdateStewardCommission) => "UpdateStewardCommission"@,
        Some(DecodedTx::EthPoolBridge) => "EthPoolBridge"@,
        Some(DecodedTx::Ibc) => "Ibc"@,
        Some(DecodedTx::ConsensusKeyChange) => "ConsensusKeyChange"@,
        Some(DecodedTx::CommissionChange) => "CommissionChange"@,
        Some(DecodedTx::MetaDataChange) => "MetaDataChange"@,
        Some(DecodedTx::ClaimRewards) => "ClaimRewards"@,
        Some(DecodedTx::DeactivateValidator) => "DeactivateValidator"@,
        Some(DecodedTx::ReactivateValidator) => "ReactivateValidator"@,
        Some(DecodedTx::UnjailValidator) => "UnjailValidator"@,
        Some(DecodedTx::InitProposal) => "InitProposal"@,
        Some(DecodedTx::Unrecognized) => "Decrypted"@,
        None => "Decrypted"@,
    }
}

/// The summary an entry gets when its tag is not "Decrypted": the hash kept,
/// the label fixed to "Wrapper", whatever else the entry holds.
pub open spec fn wrapper_summary(e: TxHashEntryV) -> TxSummaryV {
    TxSummaryV { hash: e.hash, label: wrapper_label() }
}

/// The summary a "Decrypted" entry gets for a given decode outcome.
pub open spec fn decoded_summary(e: TxHashEntryV, d: Option<DecodedTx>) -> TxSummaryV {
    TxSummaryV { hash: e.hash, label: label_of(d) }
}

/// Whether this entry takes the record-fetch path.
pub fn kind_is_decrypted(e: &TxHashEntry) -> (r: bool)
    ensures
        r == is_decrypted_kind(e.raw_kind@),
{
    let tag: String = "Decrypted".to_owned();
    e.raw_kind == tag
}

/// Builds the summary of an entry that keeps its outer envelope.
pub fn make_wrapper_summary(e: &TxHashEntry) -> (r: TxSummary)
    ensures
        r@ == wrapper_summary(e@),
{
    TxSummary { hash: clone_bytes(&e.hash), label: "Wrapper".to_owned() }
}

/// Builds the summary of a "Decrypted" entry from its decode outcome.
pub fn make_decoded_summary(e: &TxHashEntry, d: &Option<DecodedTx>) -> (r: TxSummary)
    ensures
        r@ == decoded_summary(e@, *d),
{
    TxSummary { hash: clone_bytes(&e.hash), label: label_for(d) }
}

/// Maps a decode outcome to its descriptive label.
pub fn label_for(d: &Option<DecodedTx>) -> (r: String)
    ensures
        r@ == label_of(*d),
{
    match d {
        Some(DecodedTx::Transfer) => "Transfer".to_owned(),
        Some(DecodedTx::Bond) => "Bond".to_owned(),
        Some(DecodedTx::RevealPK) => "RevealPK".to_owned(),
        Some(DecodedTx::VoteProposal) => "VoteProposal".to_owned(),
        Some(DecodedTx::BecomeValidator) => "BecomeValidator".to_owned(),
        Some(DecodedTx::InitValidator) => "InitValidator".to_owned(),
        Some(DecodedTx::Unbond) => "Unbond".to_owned(),
        Some(DecodedTx::Withdraw) => "Withdraw".to_owned(),
        Some(DecodedTx::InitAccount) => "InitAccount".to_owned(),
        Some(DecodedTx::UpdateAccount) => "UpdateAccount".to_owned(),
        Some(DecodedTx::ResignSteward) => "ResignSteward".to_owned(),
        Some(DecodedTx::UpdateStewardCommission) => "UpdateStewardCommission".to_owned(),
        Some(DecodedTx::EthPoolBridge) => "EthPoolBridge".to_owned(),
        Some(DecodedTx::Ibc) => "Ibc".to_owned(),
        Some(DecodedTx::ConsensusKeyChange) => "ConsensusKeyChange".to_owned(),
        Some(DecodedTx::CommissionChange) => "CommissionChange".to_owned(),
        Some(DecodedTx::MetaDataChange) => "MetaDataChange".to_owned(),
        Some(DecodedTx::ClaimRewards) => "ClaimRewards".to_owned(),
        Some(DecodedTx::DeactivateValidator) => "DeactivateValidator".to_owned(),
        Some(DecodedTx::ReactivateValidator) => "ReactivateValidator".to_owned(),
        Some(DecodedTx::UnjailValidator) => "UnjailValidator".to_owned(),
        Some(DecodedTx::InitProposal) => "InitProposal".to_owned(),
        _ => "Decrypted".to_owned(),
    }
}

/// An entry whose tag is not "Decrypted" is labeled exactly "Wrapper",
/// regardless of anything else it holds, and keeps its hash.
pub proof fn lemma_wrapper_entry_label(e: TxHashEntryV)
    requires
        !is_decrypted_kind(e.raw_kind),
    ensures
        wrapper_summary(e).label == "Wrapper"@,
        wrapper_summary(e).hash == e.hash,
{
}

/// A "Decrypted" entry decoded to `Bond` is labeled exactly "Bond"; a decode
/// failure or an unrecognized variant is labeled exactly "Decrypted", which
/// is a different label.
pub proof fn lemma_decrypted_entry_label(e: TxHashEntryV)
    ensures
        decoded_summary(e, Some(DecodedTx::Bond)).label == "Bond"@,
        decoded_summary(e, None).label == "Decrypted"@,
        decoded_summary(e, Some(DecodedTx::Unrecognized)).label == "Decrypted"@,
        decoded_summary(e, Some(DecodedTx::Bond)).label != decoded_summary(e, None).label,
        decoded_summary(e, None).hash == e.hash,
{
    reveal_strlit("Bond");
    reveal_strlit("Decrypted");
}

} // verus!
