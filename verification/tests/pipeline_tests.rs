use std::cell::RefCell;
use std::rc::Rc;

use data_ingestion::consumer::EcsService;
use data_ingestion::errors::IngestionError;
use data_ingestion::errors::QueueError;
use data_ingestion::ingestion_service::IngestionService;
use data_ingestion::models::FileToProcess;
use data_ingestion::models::IngestionConfigRule;
use data_ingestion::models::ParsedRecord;
use data_ingestion::models::QueueMessage;
use data_ingestion::models::S3Event;
use data_ingestion::models::S3EventRecord;
use data_ingestion::ports::ConfigRepository;
use data_ingestion::ports::DataRepository;
use data_ingestion::ports::FileFetcher;
use data_ingestion::ports::QueueClient;
use data_ingestion::ports::RecordSink;
use data_ingestion::storage::insert_one_by_one;
use data_ingestion::storage::store_records;

type Log = Rc<RefCell<Vec<String>>>;

fn rule(pattern: &str, target: &str) -> IngestionConfigRule {
    IngestionConfigRule {
        pattern: pattern.to_string(),
        target_table: target.to_string(),
        parser_config: None,
    }
}

struct FakeRules {
    rules: Vec<IngestionConfigRule>,
}

impl ConfigRepository for FakeRules {
    fn load_rules(&self) -> Result<Vec<IngestionConfigRule>, IngestionError> {
        Ok(self.rules.clone())
    }
}

struct FakeFetcher {
    bytes: Vec<u8>,
    log: Log,
}

impl FileFetcher for FakeFetcher {
    fn fetch_file(&self, bucket: &str, key: &str) -> Result<Vec<u8>, IngestionError> {
        self.log.borrow_mut().push(format!("fetch {}/{}", bucket, key));
        Ok(self.bytes.clone())
    }
}

struct FailingFetcher;

impl FileFetcher for FailingFetcher {
    fn fetch_file(&self, _bucket: &str, _key: &str) -> Result<Vec<u8>, IngestionError> {
        Err(IngestionError::Fetch("no such object".to_string()))
    }
}

struct FakeRepo {
    log: Log,
    stored: Rc<RefCell<Vec<(String, usize)>>>,
    fail: bool,
}

impl DataRepository for FakeRepo {
    fn insert_documents(
        &self,
        target_table: &str,
        documents: &Vec<ParsedRecord>,
    ) -> Result<Vec<String>, IngestionError> {
        self.log.borrow_mut().push(format!("insert {} {}", target_table, documents.len()));
        self.stored.borrow_mut().push((target_table.to_string(), documents.len()));
        if self.fail {
            Err(IngestionError::Database("write failed".to_string()))
        } else {
            Ok(Vec::new())
        }
    }
}

struct FakeQueue {
    pending: RefCell<Vec<QueueMessage>>,
    deleted: RefCell<Vec<String>>,
    log: Log,
}

impl QueueClient for FakeQueue {
    fn receive_messages(&self) -> Result<Vec<QueueMessage>, QueueError> {
        Ok(self.pending.borrow().clone())
    }

    fn delete_message(&self, receipt_handle: &str) -> Result<(), QueueError> {
        self.log.borrow_mut().push(format!("delete {}", receipt_handle));
        self.deleted.borrow_mut().push(receipt_handle.to_string());
        self.pending
            .borrow_mut()
            .retain(|m| m.receipt_handle.as_deref() != Some(receipt_handle));
        Ok(())
    }
}

struct FakeSink {
    puts: RefCell<usize>,
    fail_at: Option<usize>,
}

impl RecordSink for FakeSink {
    fn put_record(&self, _target_table: &str, _record: &ParsedRecord) -> Result<
        (),
        IngestionError,
    > {
        let n = *self.puts.borrow();
        *self.puts.borrow_mut() = n + 1;
        if self.fail_at == Some(n) {
            Err(IngestionError::Database("put refused".to_string()))
        } else {
            Ok(())
        }
    }
}

fn envelope(records: Vec<S3EventRecord>) -> S3Event {
    S3Event { records }
}

fn record(bucket: Option<&str>, key: Option<&str>) -> S3EventRecord {
    S3EventRecord {
        bucket: bucket.map(|b| b.to_string()),
        key: key.map(|k| k.to_string()),
    }
}

fn message(env: Option<S3Event>, receipt: &str) -> QueueMessage {
    QueueMessage { envelope: env, receipt_handle: Some(receipt.to_string()) }
}

#[test]
fn empty_batch_is_a_success_without_a_backend_call() {
    let log: Log = Rc::new(RefCell::new(Vec::new()));
    let repo = FakeRepo { log: log.clone(), stored: Rc::new(RefCell::new(Vec::new())), fail: false };
    let ids = store_records(&repo, "events", &Vec::new()).unwrap();
    assert!(ids.is_empty());
    assert!(log.borrow().is_empty());
}

#[test]
fn nonempty_batch_reaches_the_backend_once() {
    let log: Log = Rc::new(RefCell::new(Vec::new()));
    let repo = FakeRepo { log: log.clone(), stored: Rc::new(RefCell::new(Vec::new())), fail: false };
    let docs = vec![ParsedRecord { fields: vec![("a".to_string(), "1".to_string())] }];
    store_records(&repo, "events", &docs).unwrap();
    assert_eq!(*log.borrow(), vec!["insert events 1".to_string()]);
}

#[test]
fn per_record_insertion_generates_one_placeholder_per_record() {
    let sink = FakeSink { puts: RefCell::new(0), fail_at: None };
    let docs = vec![
        ParsedRecord { fields: Vec::new() },
        ParsedRecord { fields: Vec::new() },
        ParsedRecord { fields: Vec::new() },
    ];
    let ids = insert_one_by_one(&sink, "t", &docs).unwrap();
    assert_eq!(ids.len(), 3);
    assert!(ids.iter().all(|id| id.starts_with("dynamo-")));
    assert_eq!(*sink.puts.borrow(), 3);
}

#[test]
fn an_empty_batch_of_per_record_inserts_makes_no_put() {
    let sink = FakeSink { puts: RefCell::new(0), fail_at: Some(0) };
    let ids = insert_one_by_one(&sink, "t", &Vec::new()).unwrap();
    assert!(ids.is_empty());
    assert_eq!(*sink.puts.borrow(), 0);
}

#[test]
fn a_failed_put_aborts_the_remaining_records() {
    let sink = FakeSink { puts: RefCell::new(0), fail_at: Some(1) };
    let docs = vec![
        ParsedRecord { fields: Vec::new() },
        ParsedRecord { fields: Vec::new() },
        ParsedRecord { fields: Vec::new() },
    ];
    let err = insert_one_by_one(&sink, "t", &docs).unwrap_err();
    assert!(matches!(err, IngestionError::Database(_)));
    assert_eq!(*sink.puts.borrow(), 2);
}

#[test]
fn process_file_stores_the_parsed_records() {
    let log: Log = Rc::new(RefCell::new(Vec::new()));
    let stored = Rc::new(RefCell::new(Vec::new()));
    let service = IngestionService::new(
        FakeFetcher { bytes: b"id,name\n1,Alice\n2,Bob".to_vec(), log: log.clone() },
        FakeRules { rules: vec![rule("^incoming/.*\\.csv$", "events")] },
        FakeRepo { log: log.clone(), stored: stored.clone(), fail: false },
    );
    let file = FileToProcess {
        bucket: "b1".to_string(),
        key: "incoming/data.csv".to_string(),
    };
    let outcome = service.process_file(&file).unwrap();
    assert_eq!(outcome.target_table, "events");
    assert_eq!(outcome.records_stored, 2);
    assert_eq!(*stored.borrow(), vec![("events".to_string(), 2usize)]);
}

#[test]
fn process_file_without_a_rule_is_no_matching_rule() {
    let log: Log = Rc::new(RefCell::new(Vec::new()));
    let service = IngestionService::new(
        FakeFetcher { bytes: Vec::new(), log: log.clone() },
        FakeRules { rules: vec![rule("^other/.*", "t")] },
        FakeRepo { log: log.clone(), stored: Rc::new(RefCell::new(Vec::new())), fail: false },
    );
    let file = FileToProcess { bucket: "b".to_string(), key: "incoming/x.csv".to_string() };
    let err = service.process_file(&file).unwrap_err();
    assert!(matches!(err, IngestionError::NoMatchingRule(k) if k == "incoming/x.csv"));
    assert!(log.borrow().is_empty(), "no fetch may happen after a failed resolution");
}

#[test]
fn process_file_surfaces_a_fetch_failure() {
    let log: Log = Rc::new(RefCell::new(Vec::new()));
    let service = IngestionService::new(
        FailingFetcher,
        FakeRules { rules: vec![rule(".*", "t")] },
        FakeRepo { log: log.clone(), stored: Rc::new(RefCell::new(Vec::new())), fail: false },
    );
    let file = FileToProcess { bucket: "b".to_string(), key: "a.csv".to_string() };
    let err = service.process_file(&file).unwrap_err();
    assert!(matches!(err, IngestionError::Fetch(_)));
}

#[test]
fn process_file_rejects_an_unregistered_file_type() {
    let log: Log = Rc::new(RefCell::new(Vec::new()));
    let stored = Rc::new(RefCell::new(Vec::new()));
    let service = IngestionService::new(
        FakeFetcher { bytes: b"{}".to_vec(), log: log.clone() },
        FakeRules { rules: vec![rule(".*", "t")] },
        FakeRepo { log: log.clone(), stored: stored.clone(), fail: false },
    );
    let file = FileToProcess { bucket: "b".to_string(), key: "data.json".to_string() };
    let err = service.process_file(&file).unwrap_err();
    assert!(matches!(err, IngestionError::Parse(_)));
    assert!(stored.borrow().is_empty());
}

#[test]
fn process_file_with_a_header_only_file_stores_nothing() {
    let log: Log = Rc::new(RefCell::new(Vec::new()));
    let stored = Rc::new(RefCell::new(Vec::new()));
    let service = IngestionService::new(
        FakeFetcher { bytes: b"id,name\n".to_vec(), log: log.clone() },
        FakeRules { rules: vec![rule(".*", "events")] },
        FakeRepo { log: log.clone(), stored: stored.clone(), fail: false },
    );
    let file = FileToProcess { bucket: "b".to_string(), key: "empty.csv".to_string() };
    let outcome = service.process_file(&file).unwrap();
    assert_eq!(outcome.records_stored, 0);
    assert!(stored.borrow().is_empty(), "an empty batch performs no backend call");
}

fn end_to_end(fail_storage: bool) -> (EcsService<FakeQueue, FakeRules, FakeFetcher, FakeRepo>, Log, Rc<RefCell<Vec<(String, usize)>>>) {
    let log: Log = Rc::new(RefCell::new(Vec::new()));
    let stored = Rc::new(RefCell::new(Vec::new()));
    let service = IngestionService::new(
        FakeFetcher { bytes: b"id,name\n1,Alice\n2,Bob".to_vec(), log: log.clone() },
        FakeRules { rules: vec![rule("^incoming/.*\\.csv$", "events")] },
        FakeRepo { log: log.clone(), stored: stored.clone(), fail: fail_storage },
    );
    let env = envelope(vec![record(Some("b1"), Some("incoming/data.csv"))]);
    let queue = FakeQueue {
        pending: RefCell::new(vec![message(Some(env), "r1")]),
        deleted: RefCell::new(Vec::new()),
        log: log.clone(),
    };
    (EcsService::new(service, queue), log, stored)
}

#[test]
fn a_processed_message_is_deleted_exactly_once_after_storage() {
    let (consumer, log, stored) = end_to_end(false);
    let summary = consumer.poll_once().unwrap();
    assert_eq!(summary.received, 1);
    assert_eq!(summary.deleted, 1);
    assert_eq!(summary.retained, 0);
    assert_eq!(*stored.borrow(), vec![("events".to_string(), 2usize)]);
    assert_eq!(*consumer.queue.deleted.borrow(), vec!["r1".to_string()]);
    assert_eq!(
        *log.borrow(),
        vec![
            "fetch b1/incoming/data.csv".to_string(),
            "insert events 2".to_string(),
            "delete r1".to_string(),
        ],
        "the delete must come after the storage call, exactly once"
    );
}

#[test]
fn a_failed_message_is_redelivered_and_reprocessed() {
    let (consumer, log, stored) = end_to_end(true);
    let first = consumer.poll_once().unwrap();
    assert_eq!(first.deleted, 0);
    assert_eq!(first.retained, 1);
    let second = consumer.poll_once().unwrap();
    assert_eq!(second.received, 1, "the undeleted message is redelivered");
    assert_eq!(second.deleted, 0);
    assert_eq!(
        *stored.borrow(),
        vec![("events".to_string(), 2usize), ("events".to_string(), 2usize)],
        "records written before the failure are written again on redelivery"
    );
    assert!(consumer.queue.deleted.borrow().is_empty());
    assert!(log.borrow().iter().all(|l| !l.starts_with("delete")));
}

#[test]
fn a_record_without_a_bucket_is_skipped_not_fatal() {
    let log: Log = Rc::new(RefCell::new(Vec::new()));
    let stored = Rc::new(RefCell::new(Vec::new()));
    let service = IngestionService::new(
        FakeFetcher { bytes: b"id\n1".to_vec(), log: log.clone() },
        FakeRules { rules: vec![rule(".*", "events")] },
        FakeRepo { log: log.clone(), stored: stored.clone(), fail: false },
    );
    let env = envelope(vec![
        record(None, Some("incoming/a.csv")),
        record(Some("b1"), Some("incoming/b.csv")),
    ]);
    let queue = FakeQueue {
        pending: RefCell::new(vec![message(Some(env.clone()), "r9")]),
        deleted: RefCell::new(Vec::new()),
        log: log.clone(),
    };
    let consumer = EcsService::new(service, queue);
    let outcome = consumer.process_message(&Some(env));
    assert!(!outcome.malformed);
    assert_eq!(outcome.skipped, 1);
    assert_eq!(outcome.processed, 1);
    assert_eq!(outcome.failed, 0);
    let summary = consumer.poll_once().unwrap();
    assert_eq!(summary.deleted, 1, "skipped records do not hold a message back");
}

#[test]
fn a_malformed_envelope_is_kept_for_redelivery() {
    let (consumer, _log, _stored) = end_to_end(false);
    *consumer.queue.pending.borrow_mut() = vec![QueueMessage {
        envelope: None,
        receipt_handle: Some("r2".to_string()),
    }];
    let summary = consumer.poll_once().unwrap();
    assert_eq!(summary.deleted, 0);
    assert_eq!(summary.retained, 1);
    assert!(consumer.queue.deleted.borrow().is_empty());
}

#[test]
fn a_failed_record_blocks_deletion_of_its_whole_message() {
    let (consumer, _log, _stored) = end_to_end(true);
    let outcome = consumer.process_message(&Some(envelope(vec![record(
        Some("b1"),
        Some("incoming/data.csv"),
    )])));
    assert!(!outcome.malformed);
    assert_eq!(outcome.failed, 1);
    assert!(!outcome.should_delete());
}

#[test]
fn a_failed_record_stops_the_rest_of_its_message() {
    let (consumer, log, _stored) = end_to_end(true);
    let outcome = consumer.process_message(&Some(envelope(vec![
        record(None, Some("incoming/skipped.csv")),
        record(Some("b1"), Some("incoming/first.csv")),
        record(Some("b1"), Some("incoming/second.csv")),
    ])));
    assert_eq!(outcome.skipped, 1);
    assert_eq!(outcome.processed, 0);
    assert_eq!(outcome.failed, 1);
    assert_eq!(
        *log.borrow(),
        vec![
            "fetch b1/incoming/first.csv".to_string(),
            "insert events 2".to_string(),
        ],
        "nothing after the first failed record may be attempted"
    );
}
