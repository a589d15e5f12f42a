use vstd::prelude::*;

verus! {

/// One object-store entry to ingest: a bucket name and an object key.
#[derive(Debug, Clone)]
pub struct FileToProcess {
    pub bucket: String,
    pub key: String,
}

/// A routing rule: keys matching `pattern` have their records stored in
/// `target_table`; `parser_config` is carried through unchanged.
#[derive(Debug, Clone)]
pub struct IngestionConfigRule {
    pub pattern: String,
    pub target_table: String,
    pub parser_config: Option<String>,
}

/// Ghost image of a routing rule: the fields as sequences of characters.
pub ghost struct RuleView {
    pub pattern: Seq<char>,
    pub target_table: Seq<char>,
    pub parser_config: Option<Seq<char>>,
}

impl View for IngestionConfigRule {
    type V = RuleView;

    open spec fn view(&self) -> RuleView {
        RuleView {
            pattern: self.pattern@,
            target_table: self.target_table@,
            parser_config: match self.parser_config {
                Some(ref c) => Some(c@),
                None => None,
            },
        }
    }
}

/// One parsed row: an ordered mapping from field name to string value, in
/// header order. All values are captured as strings; no type inference is
/// done at parse time.
#[derive(Debug, Clone)]
pub struct ParsedRecord {
    pub fields: Vec<(String, String)>,
}

impl View for ParsedRecord {
    type V = Seq<(Seq<char>, Seq<char>)>;

    open spec fn view(&self) -> Seq<(Seq<char>, Seq<char>)> {
        self.fields@.map_values(|p: (String, String)| (p.0@, p.1@))
    }
}

/// The successful result of one pipeline run: where the records went and
/// how many were handed to the destination store.
#[derive(Debug, Clone)]
pub struct IngestionOutcome {
    pub target_table: String,
    pub records_stored: usize,
}

/// One record of a notification envelope. Either coordinate may be absent
/// in the wire form; such a record is skipped, not an error.
#[derive(Debug, Clone)]
pub struct S3EventRecord {
    pub bucket: Option<String>,
    pub key: Option<String>,
}

/// Ghost image of an envelope record.
pub ghost struct S3EventRecordView {
    pub bucket: Option<Seq<char>>,
    pub key: Option<Seq<char>>,
}

impl View for S3EventRecord {
    type V = S3EventRecordView;

    open spec fn view(&self) -> S3EventRecordView {
        S3EventRecordView {
            bucket: match self.bucket {
                Some(ref b) => Some(b@),
                None => None,
            },
            key: match self.key {
                Some(ref k) => Some(k@),
                None => None,
            },
        }
    }
}

/// A decoded notification envelope: an ordered sequence of file references.
#[derive(Debug, Clone)]
pub struct S3Event {
    pub records: Vec<S3EventRecord>,
}

impl View for S3Event {
    type V = Seq<S3EventRecordView>;

    open spec fn view(&self) -> Seq<S3EventRecordView> {
        self.records@.map_values(|r: S3EventRecord| r@)
    }
}

/// One message taken from the notification channel. `envelope` is `None`
/// when the body was absent or not decodable as an envelope with a records
/// array; `receipt_handle` is what the channel wants back on deletion.
#[derive(Debug, Clone)]
pub struct QueueMessage {
    pub envelope: Option<S3Event>,
    pub receipt_handle: Option<String>,
}

} // verus!
