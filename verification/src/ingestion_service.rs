use vstd::prelude::*;
use crate::errors::IngestionError;
use crate::file_type::extract_file_type;
use crate::file_type::type_of_key;
use crate::models::FileToProcess;
use crate::models::IngestionConfigRule;
use crate::models::IngestionOutcome;
use crate::models::RuleView;
use crate::parser::csv_rows_of;
use crate::parser::parse;
use crate::parser::records_of;
use crate::ports::ConfigRepository;
use crate::ports::DataRepository;
use crate::ports::FileFetcher;
use crate::resolver::get_config_for_key;
use crate::resolver::rule_applies;
use crate::storage::store_records;

verus! {

/// The records the pipeline extracts from `bytes` under a given key: the
/// delimited-text records when the key's detected type is "csv" and the
/// stream is well formed; nothing otherwise.
pub open spec fn pipeline_records(key: Seq<char>, bytes: Seq<u8>) -> Option<
    Seq<Seq<(Seq<char>, Seq<char>)>>,
> {
    if type_of_key(key) == "csv"@ {
        match csv_rows_of(bytes) {
            Some(rows) => Some(records_of(rows)),
            None => None,
        }
    } else {
        None
    }
}

/// One fetched byte stream explains a stored-record count for this key.
pub open spec fn outcome_explained(key: Seq<char>, bytes: Seq<u8>, stored: usize) -> bool {
    match pipeline_records(key, bytes) {
        Some(recs) => recs.len() == stored,
        None => false,
    }
}

/// Some fetched byte stream explains a stored-record count for this key.
pub open spec fn some_bytes_explain(key: Seq<char>, stored: usize) -> bool {
    exists|bytes: Seq<u8>| #[trigger] outcome_explained(key, bytes, stored)
}

/// The ingestion orchestrator: resolves a rule, fetches the object, parses
/// it and stores the records, in that fixed order, failing fast at the
/// first stage that errs.
pub struct IngestionService<C: ConfigRepository, F: FileFetcher, D: DataRepository> {
    pub file_fetcher: F,
    pub config_repo: C,
    pub data_repo: D,
}

impl<C: ConfigRepository, F: FileFetcher, D: DataRepository> IngestionService<C, F, D> {
    pub fn new(file_fetcher: F, config_repo: C, data_repo: D) -> (r: Self)
        ensures
            r.file_fetcher == file_fetcher,
            r.config_repo == config_repo,
            r.data_repo == data_repo,
    {
        IngestionService { file_fetcher, config_repo, data_repo }
    }

    /// Resolve the key against the rule store; an absent match is this
    /// file's terminal failure, not a retried condition.
    fn find_matching_config(&self, s3_key: &str) -> (r: Result<
        IngestionConfigRule,
        IngestionError,
    >)
        ensures
            r matches Ok(rule) ==> rule_applies(rule@, s3_key@),
    {
        match get_config_for_key(&self.config_repo, s3_key) {
            Ok(Some(config)) => Ok(config),
            Ok(None) => Err(IngestionError::NoMatchingRule(s3_key.to_owned())),
            Err(e) => Err(e),
        }
    }

    /// Run the pipeline for one file reference: resolve config, fetch
    /// bytes, detect type, parse, store. Each stage's failure immediately
    /// aborts the remaining stages; there is no retry, skip or fallback.
    /// On success the outcome carries the destination and how many records
    /// were handed to it.
    pub fn process_file(&self, file: &FileToProcess) -> (r: Result<
        IngestionOutcome,
        IngestionError,
    >)
        ensures
            r matches Ok(o) ==> exists|rule: RuleView|
                #[trigger] rule_applies(rule, file.key@) && rule.target_table == o.target_table@,
            r matches Ok(o) ==> some_bytes_explain(file.key@, o.records_stored),
    {
        let config = match self.find_matching_config(file.key.as_str()) {
            Ok(c) => c,
            Err(e) => {
                return Err(e);
            },
        };
        let file_bytes = match self.file_fetcher.fetch_file(
            file.bucket.as_str(),
            file.key.as_str(),
        ) {
            Ok(b) => b,
            Err(e) => {
                return Err(e);
            },
        };
        let file_type = extract_file_type(file.key.as_str());
        let documents = match parse(file_bytes.as_slice(), file_type.as_str()) {
            Ok(d) => d,
            Err(e) => {
                return Err(e);
            },
        };
        let count = documents.len();
        match store_records(&self.data_repo, config.target_table.as_str(), &documents) {
            Ok(_) => {},
            Err(e) => {
                return Err(e);
            },
        }
        proof {
            assert(rule_applies(config@, file.key@));
            assert(outcome_explained(file.key@, file_bytes@, count));
            assert(some_bytes_explain(file.key@, count));
        }
        Ok(IngestionOutcome { target_table: config.target_table, records_stored: count })
    }
}

} // verus!
