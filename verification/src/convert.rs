use vstd::prelude::*;

use crate::LogCategory;
use crate::LogEntry;

verus! {

/// The unit submitted to the streaming store: an opaque byte payload copied
/// from a log entry's message body.
pub struct StreamRecord {
    pub data: Vec<u8>,
}

/// What one log entry contributes to a bulk write: entries of the
/// `Function` category yield their payload bytes, all others yield nothing.
pub open spec fn spec_convert(e: LogEntry) -> Option<Seq<u8>> {
    match e.category {
        LogCategory::Function => Some(e.payload@),
        LogCategory::Other => None,
    }
}

/// The ordered data payloads that a whole batch contributes: the payloads of
/// its `Function`-category entries, in delivery order.
pub open spec fn record_datas(batch: Seq<LogEntry>) -> Seq<Seq<u8>> {
    batch.filter_map(|e: LogEntry| spec_convert(e))
}

/// Pure leaf component: maps one host log entry to zero or one stream record.
pub struct StreamRecordConverter;

impl StreamRecordConverter {
    /// Converts one log entry. A `Function`-category entry yields exactly one
    /// record whose data equals the entry's payload, unmodified; an entry of
    /// any other category yields none.
    pub fn convert(&self, entry: &LogEntry) -> (r: Option<StreamRecord>)
        ensures
            r is Some <==> entry.category is Function,
            (r matches Some(rec) ==> rec.data@ == entry.payload@),
    {
        match entry.category {
            LogCategory::Function => {
                let data = entry.payload.clone();
                assert(data@ =~= entry.payload@);
                Some(StreamRecord { data })
            },
            LogCategory::Other => None,
        }
    }

    /// Converts a whole batch in order: the result holds one record per
    /// `Function`-category entry, carrying that entry's payload, in the
    /// batch's delivery order.
    pub fn convert_batch(&self, batch: &Vec<LogEntry>) -> (records: Vec<StreamRecord>)
        ensures
            records@.map_values(|rec: StreamRecord| rec.data@) == record_datas(batch@),
    {
        let ghost f = |e: LogEntry| spec_convert(e);
        let mut records: Vec<StreamRecord> = Vec::new();
        assert(batch@.take(0int).filter_map(f) =~= Seq::<Seq<u8>>::empty());
        assert(records@.map_values(|rec: StreamRecord| rec.data@) =~= Seq::<Seq<u8>>::empty());
        for i in 0..batch.len()
            invariant
                records@.map_values(|rec: StreamRecord| rec.data@) == batch@.take(
                    i as int,
                ).filter_map(f),
                f == (|e: LogEntry| spec_convert(e)),
        {
            let ghost before = records@;
            match self.convert(&batch[i]) {
                Some(rec) => {
                    records.push(rec);
                    assert(records@ =~= before.push(records@.last()));
                },
                None => {},
            }
            proof {
                batch@.lemma_filter_map_take_succ(f, i as int);
                assert(records@.map_values(|rec: StreamRecord| rec.data@) =~= batch@.take(
                    i + 1,
                ).filter_map(f));
            }
        }
        proof {
            assert(batch@.take(batch@.len() as int) =~= batch@);
        }
        records
    }
}

/// For a batch whose entries are all of the `Function` category, the batch
/// contributes exactly one record per entry, carrying that entry's payload
/// bytes, in delivery order.
pub proof fn lemma_all_function_batch(batch: Seq<LogEntry>)
    requires
        forall|i: int| 0 <= i < batch.len() ==> (#[trigger] batch[i].category) is Function,
    ensures
        record_datas(batch).len() == batch.len(),
        forall|i: int|
            0 <= i < batch.len() ==> #[trigger] record_datas(batch)[i] == batch[i].payload@,
    decreases batch.len(),
{
    let f = |e: LogEntry| spec_convert(e);
    if batch.len() == 0 {
        assert(record_datas(batch) =~= Seq::<Seq<u8>>::empty());
    } else {
        let rest = batch.drop_last();
        assert(forall|i: int|
            0 <= i < rest.len() ==> (#[trigger] rest[i].category) is Function) by {
            assert(forall|i: int| 0 <= i < rest.len() ==> rest[i] == batch[i]);
        }
        lemma_all_function_batch(rest);
        assert(batch.filter_map(f) == rest.filter_map(f) + seq![batch.last().payload@]);
        assert(forall|i: int|
            0 <= i < batch.len() ==> #[trigger] record_datas(batch)[i] == batch[i].payload@) by {
            assert(forall|i: int| 0 <= i < rest.len() ==> rest[i] == batch[i]);
            assert(forall|i: int|
                0 <= i < rest.len() ==> #[trigger] record_datas(batch)[i] == record_datas(rest)[i]);
            assert(record_datas(batch)[batch.len() - 1] == batch[batch.len() - 1].payload@);
        }
    }
}

/// Entries of a category other than `Function` never reach the store: every
/// data payload a batch contributes comes from some `Function`-category entry
/// of that batch.
pub proof fn lemma_only_function_reaches_store(batch: Seq<LogEntry>, d: Seq<u8>)
    requires
        record_datas(batch).contains(d),
    ensures
        exists|i: int|
            0 <= i < batch.len() && (#[trigger] batch[i].category) is Function
                && batch[i].payload@ == d,
{
    let f = |e: LogEntry| spec_convert(e);
    batch.lemma_filter_map_contains(f, d);
    let t = choose|t: LogEntry| #[trigger] batch.contains(t) && f(t) == Some(d);
    let i = choose|i: int| 0 <= i < batch.len() && batch[i] == t;
    assert(0 <= i < batch.len() && batch[i].category is Function && batch[i].payload@ == d);
}

} // verus!
