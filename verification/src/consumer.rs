use vstd::prelude::*;
use crate::errors::QueueError;
use crate::models::FileToProcess;
use crate::models::S3Event;
use crate::models::S3EventRecordView;
use crate::ports::ConfigRepository;
use crate::ports::DataRepository;
use crate::ports::FileFetcher;
use crate::ports::QueueClient;
use crate::ingestion_service::IngestionService;

verus! {

/// A record that names both its bucket and its key; anything less is
/// skipped, not an error.
pub open spec fn record_complete(rec: S3EventRecordView) -> bool {
    rec.bucket is Some && rec.key is Some
}

/// How many records of an envelope are missing their bucket or their key.
pub open spec fn incomplete_count(recs: Seq<S3EventRecordView>) -> int
    decreases recs.len(),
{
    if recs.len() == 0 {
        0
    } else {
        incomplete_count(recs.drop_last()) + if record_complete(recs.last()) {
            0int
        } else {
            1int
        }
    }
}

/// What became of one message's records.
#[derive(Debug)]
pub struct MessageOutcome {
    /// Records the orchestrator ran to completion.
    pub processed: usize,
    /// Records skipped for want of a bucket or a key.
    pub skipped: usize,
    /// Whether a pipeline run failed; the first failure ends the message,
    /// so at most one record fails.
    pub failed: usize,
    /// The body was absent or was no envelope with a records array.
    pub malformed: bool,
}

/// The message's iteration stopped at a complete record: everything before
/// it was processed or skipped in order, and nothing after it was touched.
pub open spec fn stopped_at(
    recs: Seq<S3EventRecordView>,
    k: int,
    processed: usize,
    skipped: usize,
) -> bool {
    &&& 0 <= k < recs.len()
    &&& processed + skipped == k
    &&& skipped == incomplete_count(recs.take(k))
    &&& record_complete(recs[k])
}

/// Some complete record stopped the message's iteration.
pub open spec fn stopped_early(
    recs: Seq<S3EventRecordView>,
    processed: usize,
    skipped: usize,
) -> bool {
    exists|k: int| #[trigger] stopped_at(recs, k, processed, skipped)
}

/// The acknowledgment rule: only a well-formed message none of whose
/// records failed may be deleted from the channel.
pub open spec fn message_ack(o: MessageOutcome) -> bool {
    !o.malformed && o.failed == 0
}

impl MessageOutcome {
    pub fn should_delete(&self) -> (r: bool)
        ensures
            r == message_ack(*self),
    {
        !self.malformed && self.failed == 0
    }
}

/// Statistics of one poll-and-drain cycle.
#[derive(Debug)]
pub struct BatchSummary {
    pub received: usize,
    pub deleted: usize,
    pub retained: usize,
}

/// The notification consumer: long-polls the channel, drains each batch
/// message by message, and deletes a message only once every record in it
/// has been processed.
pub struct EcsService<
    Q: QueueClient,
    C: ConfigRepository,
    F: FileFetcher,
    D: DataRepository,
> {
    pub service: IngestionService<C, F, D>,
    pub queue: Q,
}

impl<Q: QueueClient, C: ConfigRepository, F: FileFetcher, D: DataRepository> EcsService<
    Q,
    C,
    F,
    D,
> {
    pub fn new(service: IngestionService<C, F, D>, queue: Q) -> (r: Self)
        ensures
            r.service == service,
            r.queue == queue,
    {
        EcsService { service, queue }
    }

    /// Work through one message's records in order. A record missing its
    /// bucket or key is skipped and counted, without aborting the rest. A
    /// failed pipeline run ends the message at that record: nothing after
    /// it is attempted, so a redelivery re-runs the earlier records. A
    /// missing or undecodable envelope marks the whole message malformed.
    pub fn process_message(&self, envelope: &Option<S3Event>) -> (r: MessageOutcome)
        ensures
            envelope is None ==> r.malformed && r.processed == 0 && r.skipped == 0 && r.failed
                == 0,
            envelope is Some ==> !r.malformed && r.failed <= 1,
            envelope matches Some(e) ==> (r.failed == 0 ==> r.processed + r.skipped
                == e.records@.len() && r.skipped == incomplete_count(e@)),
            envelope matches Some(e) ==> (r.failed == 1 ==> stopped_early(
                e@,
                r.processed,
                r.skipped,
            )),
    {
        let event = match envelope {
            Some(e) => e,
            None => {
                return MessageOutcome { processed: 0, skipped: 0, failed: 0, malformed: true };
            },
        };
        let mut processed: usize = 0;
        let mut skipped: usize = 0;
        let mut i: usize = 0;
        while i < event.records.len()
            invariant
                envelope is Some,
                event == envelope->Some_0,
                i <= event.records@.len(),
                processed + skipped == i,
                skipped == incomplete_count(event@.take(i as int)),
            decreases event.records@.len() - i,
        {
            let rec = &event.records[i];
            match (&rec.bucket, &rec.key) {
                (Some(b), Some(k)) => {
                    let file = FileToProcess { bucket: b.clone(), key: k.clone() };
                    match self.service.process_file(&file) {
                        Ok(_) => {
                            processed = processed + 1;
                        },
                        Err(_) => {
                            proof {
                                assert(stopped_at(event@, i as int, processed, skipped));
                                assert(stopped_early(event@, processed, skipped));
                            }
                            return MessageOutcome { processed, skipped, failed: 1, malformed: false };
                        },
                    }
                },
                _ => {
                    skipped = skipped + 1;
                },
            }
            proof {
                assert(event@.take(i + 1).drop_last() =~= event@.take(i as int));
                assert(event@.take(i + 1).last() == event@[i as int]);
            }
            i = i + 1;
        }
        proof {
            assert(event@.take(event.records@.len() as int) =~= event@);
        }
        MessageOutcome { processed, skipped, failed: 0, malformed: false }
    }

    /// One cycle of the consumer loop: a blocking poll, then the batch
    /// drained in order. A message is deleted from the channel only when
    /// its whole envelope was processed without failure; any other message
    /// is left for the channel's own redelivery. Per-message failures are
    /// contained; only the channel's own failures escape.
    pub fn poll_once(&self) -> (r: Result<BatchSummary, QueueError>)
        ensures
            r matches Ok(s) ==> s.deleted + s.retained == s.received,
    {
        let messages = match self.queue.receive_messages() {
            Ok(m) => m,
            Err(e) => {
                return Err(e);
            },
        };
        let received = messages.len();
        let mut deleted: usize = 0;
        let mut retained: usize = 0;
        let mut i: usize = 0;
        while i < messages.len()
            invariant
                i <= messages@.len(),
                deleted + retained == i,
            decreases messages@.len() - i,
        {
            let msg = &messages[i];
            let outcome = self.process_message(&msg.envelope);
            if outcome.should_delete() {
                match &msg.receipt_handle {
                    Some(receipt) => {
                        match self.queue.delete_message(receipt.as_str()) {
                            Ok(_) => {
                                deleted = deleted + 1;
                            },
                            Err(e) => {
                                return Err(e);
                            },
                        }
                    },
                    None => {
                        retained = retained + 1;
                    },
                }
            } else {
                retained = retained + 1;
            }
            i = i + 1;
        }
        Ok(BatchSummary { received, deleted, retained })
    }
}

} // verus!
