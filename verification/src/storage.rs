use vstd::prelude::*;
use crate::errors::IngestionError;
use crate::models::ParsedRecord;
use crate::ports::DataRepository;
use crate::ports::RecordSink;

verus! {

/// Relies on uuid::Uuid::new_v4: a freshly generated random identifier in
/// its hyphenated text form. Nothing is assumed of its value.
#[verifier::external_body]
fn fresh_uuid() -> (r: String) {
    uuid::Uuid::new_v4().to_string()
}

/// An identifier carries the placeholder prefix that marks it as locally
/// generated rather than echoed back by the store.
pub open spec fn has_placeholder_prefix(id: Seq<char>) -> bool {
    id.len() >= "dynamo-"@.len() && id.subrange(0, "dynamo-"@.len() as int) == "dynamo-"@
}

/// A locally generated stand-in for an identifier the store does not echo
/// back: a fresh random identifier under the backend's prefix.
fn placeholder_id() -> (r: String)
    ensures
        has_placeholder_prefix(r@),
{
    let id = fresh_uuid();
    let r = String::from_str("dynamo-").concat(id.as_str());
    proof {
        assert(r@.subrange(0, "dynamo-"@.len() as int) =~= "dynamo-"@);
    }
    r
}

/// Hand a batch of records to a destination store. An empty batch is a
/// success and performs no backend call at all.
pub fn store_records<D: DataRepository>(
    repo: &D,
    target_table: &str,
    documents: &Vec<ParsedRecord>,
) -> (r: Result<Vec<String>, IngestionError>)
    ensures
        documents@.len() == 0 ==> (r matches Ok(ids) && ids@.len() == 0),
{
    if documents.len() == 0 {
        Ok(Vec::new())
    } else {
        repo.insert_documents(target_table, documents)
    }
}

/// Insert a batch one record at a time, in order, into a store without a
/// bulk primitive. An empty batch succeeds at once, without a put. The
/// first failed put aborts the remaining records and
/// surfaces as the batch's error; earlier puts are not undone. The store's
/// write path echoes no identifier back, so each stored record gets a
/// locally generated placeholder, one per record.
pub fn insert_one_by_one<S: RecordSink>(
    sink: &S,
    target_table: &str,
    documents: &Vec<ParsedRecord>,
) -> (r: Result<Vec<String>, IngestionError>)
    ensures
        documents@.len() == 0 ==> (r matches Ok(ids) && ids@.len() == 0),
        r matches Ok(ids) ==> ids@.len() == documents@.len() && forall|j: int|
            0 <= j < ids@.len() ==> has_placeholder_prefix((#[trigger] ids@[j])@),
{
    let mut ids: Vec<String> = Vec::new();
    let mut i: usize = 0;
    while i < documents.len()
        invariant
            i <= documents@.len(),
            ids@.len() == i,
            forall|j: int| 0 <= j < i ==> has_placeholder_prefix((#[trigger] ids@[j])@),
        decreases documents@.len() - i,
    {
        match sink.put_record(target_table, &documents[i]) {
            Ok(_) => {},
            Err(e) => {
                return Err(e);
            },
        }
        ids.push(placeholder_id());
        i = i + 1;
    }
    Ok(ids)
}

/// A destination store built from a per-record sink: the insertion
/// discipline of a backend that writes one record per call.
pub struct PerRecordRepository<S: RecordSink> {
    pub sink: S,
}

impl<S: RecordSink> DataRepository for PerRecordRepository<S> {
    fn insert_documents(&self, target_table: &str, documents: &Vec<ParsedRecord>) -> Result<
        Vec<String>,
        IngestionError,
    > {
        insert_one_by_one(&self.sink, target_table, documents)
    }
}

} // verus!
