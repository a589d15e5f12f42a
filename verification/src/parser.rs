use vstd::prelude::*;
use vstd::math::min;
use crate::errors::IngestionError;
use crate::models::ParsedRecord;

verus! {

/// What the delimited-text reader extracts from a byte stream: the rows in
/// order, each a list of string fields, or nothing when the stream is
/// malformed. Names the outcome of csv::Reader, which depends on the bytes
/// alone.
pub uninterp spec fn csv_rows_of(bytes: Seq<u8>) -> Option<Seq<Seq<Seq<char>>>>;

/// Relies on csv::Reader, with no implicit header row and varying row
/// widths allowed: splits the byte stream into rows of string fields, a
/// function of the bytes alone. `Err` carries the reader's message for a
/// malformed stream.
#[verifier::external_body]
fn read_delimited_rows(bytes: &[u8]) -> (r: Result<Vec<Vec<String>>, String>)
    ensures
        r matches Ok(rows) ==> csv_rows_of(bytes@) matches Some(m) && rows.deep_view() == m,
        r is Err ==> csv_rows_of(bytes@) is None,
{
    let mut reader = csv::ReaderBuilder::new().has_headers(false).flexible(true).from_reader(
        bytes,
    );
    let mut rows: Vec<Vec<String>> = Vec::new();
    for record in reader.records() {
        match record {
            Ok(rec) => rows.push(rec.iter().map(|f| f.to_string()).collect()),
            Err(e) => {
                return Err(e.to_string());
            },
        }
    }
    Ok(rows)
}

/// The record a header row and a data row make: header names paired with
/// the row's values by position. The record has min(header, row) many
/// fields: header names beyond the row's width are absent from the record,
/// and row fields beyond the header's width are dropped.
pub open spec fn record_of(header: Seq<Seq<char>>, row: Seq<Seq<char>>) -> Seq<
    (Seq<char>, Seq<char>),
> {
    Seq::new(min(header.len() as int, row.len() as int) as nat, |i: int| (header[i], row[i]))
}

/// The records of a row list: the first row is the header, every later row
/// becomes one record, in order. An empty list yields no records.
pub open spec fn records_of(rows: Seq<Seq<Seq<char>>>) -> Seq<Seq<(Seq<char>, Seq<char>)>> {
    if rows.len() == 0 {
        Seq::empty()
    } else {
        Seq::new((rows.len() - 1) as nat, |i: int| record_of(rows[0], rows[i + 1]))
    }
}

pub open spec fn records_view(docs: Seq<ParsedRecord>) -> Seq<Seq<(Seq<char>, Seq<char>)>> {
    docs.map_values(|d: ParsedRecord| d@)
}

/// Law: a record pairs header names with row values by position; header
/// names beyond the row's width are absent, and row fields beyond the
/// header's width are dropped.
pub proof fn lemma_record_shape(header: Seq<Seq<char>>, row: Seq<Seq<char>>)
    ensures
        record_of(header, row).len() == min(header.len() as int, row.len() as int),
        forall|i: int|
            0 <= i < record_of(header, row).len() ==> record_of(header, row)[i] == (
                header[i],
                row[i],
            ),
{
}

/// Pair one data row with the header, by position.
pub fn build_record(header: &Vec<String>, row: &Vec<String>) -> (r: ParsedRecord)
    ensures
        r@ == record_of(header.deep_view(), row.deep_view()),
{
    let n = if header.len() <= row.len() {
        header.len()
    } else {
        row.len()
    };
    let mut fields: Vec<(String, String)> = Vec::new();
    let mut i: usize = 0;
    while i < n
        invariant
            i <= n,
            n == min(header@.len() as int, row@.len() as int),
            fields@.len() == i,
            forall|j: int|
                0 <= j < i ==> (#[trigger] fields@[j]).0@ == header@[j]@ && fields@[j].1@
                    == row@[j]@,
        decreases n - i,
    {
        let name = header[i].clone();
        let value = row[i].clone();
        fields.push((name, value));
        i = i + 1;
    }
    let r = ParsedRecord { fields };
    proof {
        assert(r@ =~= record_of(header.deep_view(), row.deep_view()));
    }
    r
}

/// Parse a delimited-text file: the first row names the fields, every
/// later row becomes one record. All values stay strings. A malformed
/// stream aborts the whole file with a parse error; there is no partial
/// success.
pub fn parse_csv(bytes: &[u8]) -> (r: Result<Vec<ParsedRecord>, IngestionError>)
    ensures
        csv_rows_of(bytes@) matches Some(rows) ==> r matches Ok(docs) && records_view(docs@)
            == records_of(rows),
        csv_rows_of(bytes@) is None ==> r matches Err(IngestionError::Parse(_)),
{
    let rows = match read_delimited_rows(bytes) {
        Ok(rows) => rows,
        Err(msg) => {
            return Err(IngestionError::Parse(msg));
        },
    };
    let ghost grows = rows.deep_view();
    let mut docs: Vec<ParsedRecord> = Vec::new();
    if rows.len() == 0 {
        proof {
            assert(records_view(docs@) =~= records_of(grows));
        }
        return Ok(docs);
    }
    let mut j: usize = 1;
    while j < rows.len()
        invariant
            1 <= j <= rows@.len(),
            grows == rows.deep_view(),
            grows.len() == rows@.len(),
            docs@.len() == j - 1,
            forall|m: int|
                0 <= m < j - 1 ==> records_view(docs@)[m] == #[trigger] records_of(grows)[m],
        decreases rows@.len() - j,
    {
        let rec = build_record(&rows[0], &rows[j]);
        docs.push(rec);
        j = j + 1;
    }
    proof {
        assert(records_view(docs@) =~= records_of(grows));
    }
    Ok(docs)
}

fn str_equal(a: &str, b: &str) -> (r: bool)
    ensures
        r == (a@ == b@),
{
    let sa = a.to_owned();
    let sb = b.to_owned();
    sa == sb
}

/// Dispatch on the detected file type to a registered parsing strategy.
/// Delimited text ("csv") is the registered strategy; every other type is
/// a terminal parse error, not a silent no-op.
pub fn parse(bytes: &[u8], file_type: &str) -> (r: Result<Vec<ParsedRecord>, IngestionError>)
    ensures
        file_type@ == "csv"@ && csv_rows_of(bytes@) is Some ==> (r matches Ok(docs)
            && records_view(docs@) == records_of(csv_rows_of(bytes@)->Some_0)),
        file_type@ == "csv"@ && csv_rows_of(bytes@) is None ==> r matches Err(
            IngestionError::Parse(_),
        ),
        file_type@ != "csv"@ ==> r matches Err(IngestionError::Parse(_)),
{
    if str_equal(file_type, "csv") {
        parse_csv(bytes)
    } else {
        Err(IngestionError::Parse(String::from_str("no parser is registered for this file type")))
    }
}

} // verus!
