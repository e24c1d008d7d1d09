use vstd::prelude::*;

use crate::LogEntry;
use crate::convert::StreamRecordConverter;
use crate::convert::record_datas;
use crate::store::build_entries;
use crate::store::entry_data;
use aws_sdk_kinesis::Client;
use aws_sdk_kinesis::types::PutRecordsRequestEntry;

verus! {

/// How one forwarding call can fail.
#[derive(Debug)]
pub enum ForwardError {
    /// The required stream-name setting was absent when the forwarder was
    /// configured.
    MissingStreamName,
    /// The store rejected the bulk write; carries the store's own error
    /// description. The whole batch is considered failed: no partial result
    /// is reported.
    Store(String),
}

/// The outcome of one bulk-write network call, as observed by the integration
/// layer that awaits it: the store either accepted the whole call or rejected
/// it with a single error.
pub enum StoreOutcome {
    Accepted,
    Failed(String),
}

/// One bulk write ready for submission: the target stream's name and the
/// record entries, one per `Function`-category entry of the batch, in
/// delivery order.
pub struct BulkWriteRequest {
    pub stream_name: String,
    pub records: Vec<PutRecordsRequestEntry>,
}

/// Process-scoped forwarder: holds the streaming-store client handle and the
/// stream name, both resolved once at startup and immutable afterwards, and
/// drives each batch through conversion towards a single bulk write.
///
/// One forwarding call is `prepare`, then — only when a request came back —
/// exactly one bulk-write network call by the integration layer, then
/// `complete` on the store's outcome. The network call is the only step that
/// cannot stand here.
pub struct KinesisLogsProcessor {
    pub client: Client,
    pub stream_name: String,
    pub converter: StreamRecordConverter,
}

impl KinesisLogsProcessor {
    /// Creates the forwarder around an already-configured store client and
    /// the resolved stream name.
    pub fn new(client: Client, stream_name: String) -> (r: Self)
        ensures
            r.stream_name == stream_name,
    {
        KinesisLogsProcessor { client, stream_name, converter: StreamRecordConverter }
    }

    /// Startup-time constructor: the stream name comes from process
    /// configuration and may be absent, which is a fatal configuration error —
    /// no forwarder exists and no batch is ever processed.
    pub fn from_config(client: Client, stream_name: Option<String>) -> (r: Result<
        Self,
        ForwardError,
    >)
        ensures
            stream_name matches Some(name) ==> (r matches Ok(p) && p.stream_name == name),
            stream_name is None ==> (r matches Err(e) && e is MissingStreamName),
    {
        match stream_name {
            Some(name) => Ok(Self::new(client, name)),
            None => Err(ForwardError::MissingStreamName),
        }
    }

    /// The shared store client handle, for the integration layer that issues
    /// the network call.
    pub fn client(&self) -> &Client {
        &self.client
    }

    /// Non-blocking readiness check: the forwarder keeps no queue, no
    /// concurrency limit and no mutable state, so it is always ready to
    /// accept a batch, whatever earlier calls returned.
    pub fn poll_ready(&self) -> (r: bool)
        ensures
            r,
    {
        true
    }

    /// Builds the one bulk-write request for a batch: converts every entry in
    /// order and names the configured stream. Returns `None` — no network
    /// call is to be issued — exactly when the batch contributes no record.
    pub fn prepare(&self, batch: &Vec<LogEntry>) -> (r: Option<BulkWriteRequest>)
        ensures
            r is Some <==> record_datas(batch@).len() > 0,
            r matches Some(req) ==> {
                &&& req.stream_name == self.stream_name
                &&& req.records@.map_values(|e: PutRecordsRequestEntry| entry_data(e))
                    == record_datas(batch@)
                &&& req.records@.len() > 0
            },
    {
        let records = self.converter.convert_batch(batch);
        if records.len() == 0 {
            None
        } else {
            let entries = build_entries(&records);
            proof {
                assert(entries@.map_values(|e: PutRecordsRequestEntry| entry_data(e))
                    =~= records@.map_values(|rec: crate::convert::StreamRecord| rec.data@));
            }
            Some(BulkWriteRequest { stream_name: self.stream_name.clone(), records: entries })
        }
    }

    /// Maps the store's outcome back to the host-facing contract: acceptance
    /// is success with no payload; any store error fails the whole batch,
    /// wrapped unchanged — there is no partial-success reporting.
    pub fn complete(&self, outcome: StoreOutcome) -> (r: Result<(), ForwardError>)
        ensures
            outcome is Accepted <==> r is Ok,
            outcome matches StoreOutcome::Failed(m) ==> (r matches Err(e) && e matches ForwardError::Store(w) && w == m),
    {
        match outcome {
            StoreOutcome::Accepted => Ok(()),
            StoreOutcome::Failed(message) => Err(ForwardError::Store(message)),
        }
    }
}

/// The submitted stream name is invariant across calls within a process
/// lifetime: any two requests prepared by the same forwarder name the same
/// stream, the configured one.
pub proof fn lemma_stream_name_invariant(
    p: KinesisLogsProcessor,
    r1: BulkWriteRequest,
    r2: BulkWriteRequest,
)
    requires
        r1.stream_name == p.stream_name,
        r2.stream_name == p.stream_name,
    ensures
        r1.stream_name == r2.stream_name,
{
}

} // verus!
