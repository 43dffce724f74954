use vstd::prelude::*;
use crate::is_barcode;
use crate::store::CodeSet;
use crate::store::code_set_contents;

verus! {

/// One record of the remote packet feed, reduced to the two fields the
/// engine reads: the reported barcode and the reported status, both as the
/// raw bytes of the original text.
pub struct PacketRecord {
    pub barcode: Vec<u8>,
    pub status: Vec<u8>,
}

/// The status text that qualifies a record for the registry: exactly the
/// two ASCII letters `OK`.
pub open spec fn status_ok(s: Seq<u8>) -> bool {
    s.len() == 2 && s[0] == 79 && s[1] == 75
}

/// A record enters the registry exactly when its status is `OK` and its
/// barcode has the exact barcode length.
pub open spec fn record_accepted(r: PacketRecord) -> bool {
    status_ok(r.status@) && is_barcode(r.barcode@)
}

/// The set of barcodes that a feed snapshot contributes to the registry:
/// the barcodes of its accepted records, and nothing else.
pub open spec fn accepted_codes(records: Seq<PacketRecord>) -> Set<Seq<u8>>
    decreases records.len(),
{
    if records.len() == 0 {
        Set::<Seq<u8>>::empty()
    } else {
        let rest = accepted_codes(records.drop_last());
        if record_accepted(records.last()) {
            rest.insert(records.last().barcode@)
        } else {
            rest
        }
    }
}

/// A barcode is in the accepted set of a feed snapshot exactly when some
/// record of the snapshot is accepted and carries that barcode.
pub proof fn lemma_accepted_codes_contains(records: Seq<PacketRecord>, code: Seq<u8>)
    ensures
        accepted_codes(records).contains(code) <==> (exists|i: int|
            0 <= i < records.len() && record_accepted(records[i]) && records[i].barcode@
                == code),
    decreases records.len(),
{
    if records.len() > 0 {
        lemma_accepted_codes_contains(records.drop_last(), code);
        let n = records.len() - 1;
        if exists|i: int|
            0 <= i < records.drop_last().len() && record_accepted(records.drop_last()[i])
                && records.drop_last()[i].barcode@ == code {
            let i = choose|i: int|
                0 <= i < records.drop_last().len() && record_accepted(records.drop_last()[i])
                    && records.drop_last()[i].barcode@ == code;
            assert(records[i] == records.drop_last()[i]);
        }
        if accepted_codes(records).contains(code) {
            if !(record_accepted(records.last()) && records.last().barcode@ == code) {
                assert(accepted_codes(records.drop_last()).contains(code));
            } else {
                assert(records[n] == records.last());
            }
        }
        if exists|i: int|
            0 <= i < records.len() && record_accepted(records[i]) && records[i].barcode@
                == code {
            let i = choose|i: int|
                0 <= i < records.len() && record_accepted(records[i]) && records[i].barcode@
                    == code;
            if i < n {
                assert(records.drop_last()[i] == records[i]);
            } else {
                assert(records.last() == records[i]);
            }
        }
    }
}

/// The validated-barcode registry: the set of barcodes the backend
/// currently reports as valid.
///
/// Each refresh replaces the contents wholesale with the accepted records
/// of the newest feed snapshot; nothing of the previous snapshot survives a
/// refresh.
pub struct Registry {
    codes: CodeSet,
}

impl Registry {
    /// The current snapshot: the set of barcodes that match.
    pub closed spec fn snapshot(&self) -> Set<Seq<u8>> {
        code_set_contents(self.codes)
    }

    /// Creates the registry the process starts with: empty until the first
    /// successful refresh.
    pub fn new() -> (r: Registry)
        ensures
            r.snapshot() == Set::<Seq<u8>>::empty(),
    {
        Registry { codes: CodeSet::new() }
    }

    /// Reports whether a barcode is in the current snapshot.
    pub fn contains(&self, code: &Vec<u8>) -> (r: bool)
        ensures
            r == self.snapshot().contains(code@),
    {
        self.codes.contains(code)
    }

    /// Replaces the snapshot with the accepted records of a freshly fetched
    /// feed. The new snapshot is a function of the feed alone: whatever the
    /// registry held before is gone, so barcodes the backend no longer
    /// reports stop matching.
    pub fn refresh(&mut self, records: &Vec<PacketRecord>)
        ensures
            final(self).snapshot() == accepted_codes(records@),
    {
        self.codes.clear();
        let n = records.len();
        let mut i: usize = 0;
        while i < n
            invariant
                0 <= i <= n,
                n == records@.len(),
                code_set_contents(self.codes) == accepted_codes(records@.take(i as int)),
            decreases n - i,
        {
            let rec = &records[i];
            if rec.status.len() == 2 && rec.status[0] == 79 && rec.status[1] == 75
                && rec.barcode.len() == 18 {
                let code = rec.barcode.clone();
                proof {
                    assert(code@ =~= rec.barcode@);
                }
                self.codes.insert(code);
            }
            proof {
                let taken = records@.take(i as int + 1);
                assert(taken.drop_last() =~= records@.take(i as int));
                assert(taken.last() == records@[i as int]);
            }
            i = i + 1;
        }
        proof {
            assert(records@.take(n as int) =~= records@);
        }
    }

    /// Applies the outcome of one refresh tick. A successful fetch hands
    /// over its records and the snapshot is replaced; a failed fetch hands
    /// over nothing and the registry keeps its previous snapshot, to be
    /// retried at the next tick.
    pub fn apply_fetch(&mut self, fetched: Option<Vec<PacketRecord>>)
        ensures
            (match fetched {
                Some(records) => final(self).snapshot() == accepted_codes(records@),
                None => final(self).snapshot() == old(self).snapshot(),
            }),
    {
        match fetched {
            Some(records) => self.refresh(&records),
            None => (),
        }
    }
}

} // verus!
