use vstd::prelude::*;
use crate::store::CodeSet;
use crate::store::code_set_contents;

verus! {

/// The paste-history ledger: the set of barcodes already pasted during this
/// process lifetime.
///
/// The ledger only ever grows — an entry is never removed — which is what
/// enforces the at-most-once-paste guarantee per barcode.
pub struct Ledger {
    codes: CodeSet,
}

impl Ledger {
    /// The set of barcodes recorded as pasted.
    pub closed spec fn pasted(&self) -> Set<Seq<u8>> {
        code_set_contents(self.codes)
    }

    /// Creates the ledger the process starts with: nothing pasted yet.
    pub fn new() -> (r: Ledger)
        ensures
            r.pasted() == Set::<Seq<u8>>::empty(),
    {
        Ledger { codes: CodeSet::new() }
    }

    /// Reports whether a barcode has already been pasted.
    pub fn contains(&self, code: &Vec<u8>) -> (r: bool)
        ensures
            r == self.pasted().contains(code@),
    {
        self.codes.contains(code)
    }

    /// Records that a barcode has been pasted: everything recorded before
    /// stays recorded, and the given barcode is recorded from now on.
    pub fn record(&mut self, code: Vec<u8>)
        ensures
            final(self).pasted() == old(self).pasted().insert(code@),
    {
        self.codes.insert(code);
    }
}

} // verus!
