use vstd::prelude::*;

verus! {

/// A hash set of barcode byte strings.
///
/// The engine keeps its two shared sets — the registry of server-validated
/// barcodes and the ledger of already-pasted barcodes — in this container.
/// The container itself comes from the `hashbrown` crate; all that verified
/// code knows of it is the abstract set of byte strings it holds, given by
/// [`code_set_contents`], and the contracts of the methods below.
#[verifier::external_body]
pub struct CodeSet {
    codes: hashbrown::HashSet<Vec<u8>>,
}

/// The set of byte strings that a [`CodeSet`] currently holds.
pub uninterp spec fn code_set_contents(s: CodeSet) -> Set<Seq<u8>>;

impl CodeSet {
    /// Relies on `hashbrown::HashSet::new`: a freshly created set is empty.
    #[verifier::external_body]
    pub fn new() -> (r: CodeSet)
        ensures
            code_set_contents(r) == Set::<Seq<u8>>::empty(),
    {
        CodeSet { codes: hashbrown::HashSet::new() }
    }

    /// Relies on `hashbrown::HashSet::contains`: membership is decided by
    /// equality of the stored byte strings.
    #[verifier::external_body]
    pub fn contains(&self, code: &Vec<u8>) -> (r: bool)
        ensures
            r == code_set_contents(*self).contains(code@),
    {
        self.codes.contains(code)
    }

    /// Relies on `hashbrown::HashSet::insert`: afterwards the set holds the
    /// given value together with everything it held before.
    #[verifier::external_body]
    pub fn insert(&mut self, code: Vec<u8>)
        ensures
            code_set_contents(*final(self)) == code_set_contents(*old(self)).insert(code@),
    {
        self.codes.insert(code);
    }

    /// Relies on `hashbrown::HashSet::clear`: afterwards the set is empty.
    #[verifier::external_body]
    pub fn clear(&mut self)
        ensures
            code_set_contents(*final(self)) == Set::<Seq<u8>>::empty(),
    {
        self.codes.clear();
    }
}

} // verus!
