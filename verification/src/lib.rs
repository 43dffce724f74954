//! The barcode reconciliation engine.
//!
//! The engine bridges a serial barcode scanner and a remote packing
//! service: it keeps a continuously refreshed registry of the barcodes the
//! backend currently reports as valid, frames raw serial bytes into
//! candidate barcode tokens, matches each token against the registry, and
//! enforces an at-most-once-paste guarantee through a ledger of barcodes
//! already pasted.
//!
//! Everything with real state lives here, verified: the registry and its
//! full-replace refresh ([`registry`]), the paste-history ledger
//! ([`ledger`]), the resynchronizing serial framer ([`framer`]), the
//! dispatch rule ([`dispatch`]), and the connection supervisor's
//! transitions ([`supervisor`]). The engine-wide guarantees are stated and
//! proved in [`laws`]. The surrounding process — serial and network I/O,
//! clipboard and keystroke injection, audio cues — performs the actions
//! these components decide on.

use vstd::prelude::*;

pub mod dispatch;
pub mod framer;
pub mod laws;
pub mod ledger;
pub mod registry;
pub mod store;
pub mod supervisor;

verus! {

/// A well-formed barcode token is exactly 18 bytes long; shorter or longer
/// byte strings are treated as noise everywhere in the engine.
pub open spec fn is_barcode(code: Seq<u8>) -> bool {
    code.len() == 18
}

/// Checks whether a byte string has the exact length of a barcode.
pub fn barcode_len_ok(code: &Vec<u8>) -> (r: bool)
    ensures
        r == is_barcode(code@),
{
    code.len() == 18
}

} // verus!
