use vstd::prelude::*;

verus! {

/// A terminal failure of one file reference, classified by the stage that
/// raised it. None of these is retried; each aborts the remaining stages.
#[derive(Debug, Clone)]
pub enum IngestionError {
    /// No routing rule matched the object key (the key is carried).
    NoMatchingRule(String),
    /// A stored rule is unusable, e.g. its pattern does not compile.
    Config(String),
    /// The object bytes could not be retrieved.
    Fetch(String),
    /// The object bytes could not be parsed into records.
    Parse(String),
    /// The destination store refused or failed the insertion.
    Database(String),
}

/// A failure of the notification channel itself (the poll or the delete
/// call). This is the only kind of error that escapes the consumer loop.
#[derive(Debug, Clone)]
pub struct QueueError {
    pub detail: String,
}

} // verus!
