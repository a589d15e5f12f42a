use vstd::prelude::*;
use crate::errors::IngestionError;
use crate::errors::QueueError;
use crate::models::IngestionConfigRule;
use crate::models::ParsedRecord;
use crate::models::QueueMessage;

verus! {

/// The rule store: holds an unordered collection of routing rules. It is
/// queried afresh on every resolution, so a mutation of the store takes
/// effect on the next message. The enumeration order of the returned list
/// is the order the resolver scans in.
pub trait ConfigRepository {
    fn load_rules(&self) -> Result<Vec<IngestionConfigRule>, IngestionError>;
}

/// The object store: retrieves the raw bytes of one bucket/key pair.
pub trait FileFetcher {
    fn fetch_file(&self, bucket: &str, key: &str) -> Result<Vec<u8>, IngestionError>;
}

/// A destination data store: persists a batch of records into a named
/// destination and returns whatever identifiers the backend echoes back
/// (possibly none).
pub trait DataRepository {
    fn insert_documents(
        &self,
        target_table: &str,
        documents: &Vec<ParsedRecord>,
    ) -> Result<Vec<String>, IngestionError>;
}

/// A destination store without a bulk primitive: one put-style call per
/// record. A failed put surfaces as an error; earlier puts are not undone.
pub trait RecordSink {
    fn put_record(&self, target_table: &str, record: &ParsedRecord) -> Result<
        (),
        IngestionError,
    >;
}

/// The notification channel: a blocking long-poll for a bounded batch of
/// messages, and deletion (acknowledgment) of one message by its receipt.
pub trait QueueClient {
    fn receive_messages(&self) -> Result<Vec<QueueMessage>, QueueError>;

    fn delete_message(&self, receipt_handle: &str) -> Result<(), QueueError>;
}

} // verus!
