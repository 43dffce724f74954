use vstd::prelude::*;
use crate::ledger::Ledger;
use crate::registry::Registry;

verus! {

/// What the dispatcher decides for one framed token.
#[derive(Clone, Copy, PartialEq, Eq, Structural, Debug)]
pub enum Decision {
    /// The token matches the registry and was never pasted: perform the
    /// paste side effect, then record it in the ledger.
    Paste,
    /// The token matches the registry but was pasted before: emit the
    /// already-pasted cue and perform no side effect.
    AlreadyPasted,
    /// The token is not in the current registry snapshot: emit the
    /// no-match cue and perform no side effect.
    NoMatch,
}

/// The dispatch rule: the registry is consulted first, and only a match is
/// held against the ledger.
pub open spec fn spec_decision(registry: Set<Seq<u8>>, pasted: Set<Seq<u8>>, code: Seq<u8>) -> Decision {
    if !registry.contains(code) {
        Decision::NoMatch
    } else if pasted.contains(code) {
        Decision::AlreadyPasted
    } else {
        Decision::Paste
    }
}

/// Decides what to do with one framed token: look it up in the current
/// registry snapshot, and on a hit consult the paste-history ledger.
///
/// The caller performs the paste side effect only on [`Decision::Paste`],
/// and calls [`Ledger::record`] only after that side effect succeeded, so a
/// failed side effect leaves the barcode eligible for a retry scan.
pub fn dispatch(registry: &Registry, ledger: &Ledger, code: &Vec<u8>) -> (d: Decision)
    ensures
        d == spec_decision(registry.snapshot(), ledger.pasted(), code@),
{
    if !registry.contains(code) {
        Decision::NoMatch
    } else if ledger.contains(code) {
        Decision::AlreadyPasted
    } else {
        Decision::Paste
    }
}

} // verus!
