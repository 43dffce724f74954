use vstd::prelude::*;
use crate::dispatch::Decision;
use crate::dispatch::spec_decision;
use crate::registry::PacketRecord;
use crate::registry::accepted_codes;

verus! {

/// A matching scan of a barcode never pasted before is dispatched to the
/// paste action exactly once: the decision is to paste, recording the paste
/// puts the barcode in the ledger, and a further scan of the same barcode
/// is then rejected as already pasted.
pub proof fn lemma_fresh_match_pastes_once(
    registry: Set<Seq<u8>>,
    pasted: Set<Seq<u8>>,
    code: Seq<u8>,
)
    requires
        registry.contains(code),
        !pasted.contains(code),
    ensures
        spec_decision(registry, pasted, code) == Decision::Paste,
        pasted.insert(code).contains(code),
        spec_decision(registry, pasted.insert(code), code) == Decision::AlreadyPasted,
{
}

/// A scan of a barcode already in the ledger never reaches the paste
/// action again, whatever the registry holds.
pub proof fn lemma_repeat_scan_never_pastes(
    registry: Set<Seq<u8>>,
    pasted: Set<Seq<u8>>,
    code: Seq<u8>,
)
    requires
        pasted.contains(code),
    ensures
        spec_decision(registry, pasted, code) != Decision::Paste,
{
}

/// A refresh replaces the snapshot wholesale: a barcode present in the
/// earlier snapshot but not contributed by the replacing feed no longer
/// matches once the refresh completes.
pub proof fn lemma_refresh_supersedes(
    earlier: Set<Seq<u8>>,
    records: Seq<PacketRecord>,
    pasted: Set<Seq<u8>>,
    code: Seq<u8>,
)
    requires
        earlier.contains(code),
        !accepted_codes(records).contains(code),
    ensures
        spec_decision(accepted_codes(records), pasted, code) == Decision::NoMatch,
{
}

/// Re-running the refresh cycle on an unchanged feed yields an unchanged
/// registry: the replacement snapshot is a function of the feed records
/// alone, independent of what the registry held before.
pub proof fn lemma_refresh_idempotent(
    first_feed: Seq<PacketRecord>,
    second_feed: Seq<PacketRecord>,
)
    requires
        first_feed == second_feed,
    ensures
        accepted_codes(first_feed) == accepted_codes(second_feed),
{
}

} // verus!
