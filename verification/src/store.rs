use vstd::prelude::*;

use crate::convert::StreamRecord;
use aws_sdk_kinesis::types::PutRecordsRequestEntry;

verus! {

/// The streaming store's client handle, opaque here: the forwarder only
/// holds it, and the integration layer issues the bulk-write call on it.
#[verifier::external_type_specification]
#[verifier::external_body]
pub struct ExClient(aws_sdk_kinesis::Client);

/// The store's own record type for a bulk write, opaque but for the data
/// bytes it carries, named by `entry_data`.
#[verifier::external_type_specification]
#[verifier::external_body]
pub struct ExPutRecordsRequestEntry(PutRecordsRequestEntry);

/// The byte sequence that a store record entry carries as its data blob.
pub uninterp spec fn entry_data(e: PutRecordsRequestEntry) -> Seq<u8>;

/// Relies on aws_sdk_kinesis::types::PutRecordsRequestEntry::builder and
/// aws_smithy_types::Blob::new: the blob holds exactly the bytes it is given,
/// the builder stores it as the entry's data, and build() succeeds whenever
/// the data field — its only required field — is set.
#[verifier::external_body]
fn make_entry(payload: &[u8]) -> (r: PutRecordsRequestEntry)
    ensures
        entry_data(r) == payload@,
{
    PutRecordsRequestEntry::builder()
        .data(aws_sdk_kinesis::primitives::Blob::new(payload))
        .build()
        .expect("data is set, and it is the only required field")
}

/// Realises a list of stream records as the store's record entries, one per
/// record, carrying the same data bytes in the same order.
pub fn build_entries(records: &Vec<StreamRecord>) -> (entries: Vec<PutRecordsRequestEntry>)
    ensures
        entries@.len() == records@.len(),
        forall|j: int|
            0 <= j < records@.len() ==> entry_data(#[trigger] entries@[j]) == records@[j].data@,
{
    let mut entries: Vec<PutRecordsRequestEntry> = Vec::new();
    for i in 0..records.len()
        invariant
            entries@.len() == i,
            forall|j: int|
                0 <= j < i ==> entry_data(#[trigger] entries@[j]) == records@[j].data@,
    {
        let entry = make_entry(records[i].data.as_slice());
        entries.push(entry);
    }
    entries
}

} // verus!
