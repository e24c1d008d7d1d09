use kinesis_log_forwarder::LogCategory;
use kinesis_log_forwarder::LogEntry;
use kinesis_log_forwarder::convert::StreamRecordConverter;
use kinesis_log_forwarder::forward::ForwardError;
use kinesis_log_forwarder::forward::KinesisLogsProcessor;
use kinesis_log_forwarder::forward::StoreOutcome;

fn test_client() -> aws_sdk_kinesis::Client {
    let conf = aws_sdk_kinesis::Config::builder()
        .behavior_version(aws_sdk_kinesis::config::BehaviorVersion::latest())
        .build();
    aws_sdk_kinesis::Client::from_conf(conf)
}

fn function_entry(payload: &[u8]) -> LogEntry {
    LogEntry { category: LogCategory::Function, payload: payload.to_vec() }
}

fn other_entry() -> LogEntry {
    LogEntry { category: LogCategory::Other, payload: Vec::new() }
}

#[test]
fn two_function_entries_one_bulk_write() {
    let processor = KinesisLogsProcessor::new(test_client(), String::from("logs-stream"));
    let batch = vec![function_entry(b"a"), function_entry(b"b")];
    let request = processor.prepare(&batch).expect("a non-empty batch must yield a request");
    assert_eq!(request.stream_name, "logs-stream");
    assert_eq!(request.records.len(), 2);
    assert_eq!(request.records[0].data().as_ref(), b"a");
    assert_eq!(request.records[1].data().as_ref(), b"b");
}

#[test]
fn empty_batch_issues_no_store_call() {
    let processor = KinesisLogsProcessor::new(test_client(), String::from("logs-stream"));
    let batch: Vec<LogEntry> = Vec::new();
    assert!(processor.prepare(&batch).is_none());
}

#[test]
fn batch_of_only_other_entries_issues_no_store_call() {
    let processor = KinesisLogsProcessor::new(test_client(), String::from("logs-stream"));
    let batch = vec![other_entry(), other_entry()];
    assert!(processor.prepare(&batch).is_none());
}

#[test]
fn store_error_fails_batch_and_next_call_still_succeeds() {
    let processor = KinesisLogsProcessor::new(test_client(), String::from("logs-stream"));
    let failed = processor.complete(StoreOutcome::Failed(String::from("service unavailable")));
    match failed {
        Err(ForwardError::Store(message)) => assert_eq!(message, "service unavailable"),
        _ => panic!("a store error must fail the whole batch"),
    }
    let batch = vec![function_entry(b"later")];
    let request = processor.prepare(&batch).expect("the forwarder keeps no state across calls");
    assert_eq!(request.records.len(), 1);
    assert!(processor.complete(StoreOutcome::Accepted).is_ok());
}

#[test]
fn store_acceptance_is_success() {
    let processor = KinesisLogsProcessor::new(test_client(), String::from("logs-stream"));
    assert!(processor.complete(StoreOutcome::Accepted).is_ok());
}

#[test]
fn missing_stream_name_is_a_startup_error() {
    let result = KinesisLogsProcessor::from_config(test_client(), None);
    assert!(matches!(result, Err(ForwardError::MissingStreamName)));
}

#[test]
fn present_stream_name_configures_the_forwarder() {
    let processor = KinesisLogsProcessor::from_config(test_client(), Some(String::from("named")))
        .expect("a present stream name must configure the forwarder");
    assert_eq!(processor.stream_name, "named");
}

#[test]
fn readiness_is_immediate_and_unconditional() {
    let processor = KinesisLogsProcessor::new(test_client(), String::from("logs-stream"));
    assert!(processor.poll_ready());
    let _ = processor.complete(StoreOutcome::Failed(String::from("outage")));
    assert!(processor.poll_ready());
}

#[test]
fn stream_name_is_constant_across_calls() {
    let processor = KinesisLogsProcessor::new(test_client(), String::from("fixed-stream"));
    let first = processor.prepare(&vec![function_entry(b"one")]).unwrap();
    let second = processor.prepare(&vec![function_entry(b"two")]).unwrap();
    assert_eq!(first.stream_name, "fixed-stream");
    assert_eq!(second.stream_name, first.stream_name);
}

#[test]
fn converter_copies_function_payload_unmodified() {
    let converter = StreamRecordConverter;
    let record = converter
        .convert(&function_entry(b"payload bytes"))
        .expect("a function entry yields exactly one record");
    assert_eq!(record.data, b"payload bytes".to_vec());
}

#[test]
fn converter_skips_other_categories() {
    let converter = StreamRecordConverter;
    assert!(converter.convert(&other_entry()).is_none());
}

#[test]
fn conversion_filters_and_preserves_order() {
    let converter = StreamRecordConverter;
    let batch = vec![function_entry(b"x"), other_entry(), function_entry(b"y")];
    let records = converter.convert_batch(&batch);
    assert_eq!(records.len(), 2);
    assert_eq!(records[0].data, b"x".to_vec());
    assert_eq!(records[1].data, b"y".to_vec());
}
