//! The record of submitted transfers: it only ever grows.

use vstd::prelude::*;
use vstd::string::*;
use crate::registry::same_text;
use crate::uint::U256;

verus! {

/// One submitted transfer.
#[derive(Debug)]
pub struct TransactionRecord {
    /// The hash under which the chain knows the transfer.
    pub hash: String,
    pub from_address: String,
    pub to_address: String,
    /// The amount, in the smallest unit of the asset that moved.
    pub value: U256,
    /// The token that moved; `None` for the native asset.
    pub token_symbol: Option<String>,
    /// Seconds since the epoch at which the transfer was submitted.
    pub timestamp: u64,
    pub submitted: bool,
}

/// A copy of an optional string.
pub fn clone_optional_text(text: &Option<String>) -> (r: Option<String>)
    ensures
        r == *text,
{
    match text {
        Some(s) => Some(s.clone()),
        None => None,
    }
}

impl Clone for TransactionRecord {
    fn clone(&self) -> (r: Self)
        ensures
            r == *self,
    {
        TransactionRecord {
            hash: self.hash.clone(),
            from_address: self.from_address.clone(),
            to_address: self.to_address.clone(),
            value: self.value,
            token_symbol: clone_optional_text(&self.token_symbol),
            timestamp: self.timestamp,
            submitted: self.submitted,
        }
    }
}

/// Whether the record is a transfer from or to the address. Addresses are
/// compared as text.
pub open spec fn involves(record: TransactionRecord, address: Seq<char>) -> bool {
    record.from_address@ == address || record.to_address@ == address
}

/// The records that involve the address, in the order in which they stand.
pub open spec fn records_of(records: Seq<TransactionRecord>, address: Seq<char>) -> Seq<
    TransactionRecord,
>
    decreases records.len(),
{
    if records.len() == 0 {
        Seq::empty()
    } else if involves(records.last(), address) {
        records_of(records.drop_last(), address).push(records.last())
    } else {
        records_of(records.drop_last(), address)
    }
}

/// The submitted transfers, oldest first.
pub struct TransactionLedger {
    records: Vec<TransactionRecord>,
}

impl View for TransactionLedger {
    type V = Seq<TransactionRecord>;

    closed spec fn view(&self) -> Seq<TransactionRecord> {
        self.records@
    }
}

impl TransactionLedger {
    /// A ledger without records.
    pub fn new() -> (r: TransactionLedger)
        ensures
            r@.len() == 0,
    {
        TransactionLedger { records: Vec::new() }
    }

    /// Adds a record behind all others.
    pub fn append(&mut self, record: TransactionRecord)
        ensures
            final(self)@ == old(self)@.push(record),
    {
        self.records.push(record);
    }

    /// The number of records.
    pub fn len(&self) -> (r: usize)
        ensures
            r == self@.len(),
    {
        self.records.len()
    }

    /// All records, in the order of their submission.
    pub fn all(&self) -> (r: &Vec<TransactionRecord>)
        ensures
            r@ == self@,
    {
        &self.records
    }

    /// The records that involve the address, in the order of their
    /// submission.
    pub fn by_account(&self, address: &str) -> (r: Vec<TransactionRecord>)
        ensures
            r@ == records_of(self@, address@),
    {
        let mut out: Vec<TransactionRecord> = Vec::new();
        let mut i: usize = 0;
        assert(self@.take(0) =~= Seq::<TransactionRecord>::empty());
        while i < self.records.len()
            invariant
                i <= self.records.len(),
                out@ == records_of(self@.take(i as int), address@),
            decreases self.records.len() - i,
        {
            let record = &self.records[i];
            proof {
                let next = self@.take(i + 1);
                assert(next.drop_last() =~= self@.take(i as int));
                assert(next.last() == *record);
            }
            if same_text(&record.from_address, address) || same_text(&record.to_address, address) {
                out.push(record.clone());
            }
            i = i + 1;
        }
        assert(self@.take(i as int) =~= self@);
        out
    }
}

/// Records that were in the ledger stay where they are when one is added,
/// and the added one comes last.
pub proof fn lemma_append_keeps_records(
    before: Seq<TransactionRecord>,
    record: TransactionRecord,
    position: int,
)
    requires
        0 <= position < before.len(),
    ensures
        before.push(record)[position] == before[position],
        before.push(record).last() == record,
        before.push(record).len() == before.len() + 1,
{
}

/// Every record listed for an address involves it.
pub proof fn lemma_records_of_involve(records: Seq<TransactionRecord>, address: Seq<char>)
    ensures
        forall|i: int|
            0 <= i < records_of(records, address).len() ==> involves(
                #[trigger] records_of(records, address)[i],
                address,
            ),
        records_of(records, address).len() <= records.len(),
    decreases records.len(),
{
    if records.len() > 0 {
        lemma_records_of_involve(records.drop_last(), address);
    }
}

} // verus!
