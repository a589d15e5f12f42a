use vstd::prelude::*;

verus! {

/// What `str::to_lowercase` returns for a given text; names a result that
/// depends on the characters alone.
pub uninterp spec fn lower_of(s: Seq<char>) -> Seq<char>;

/// Relies on str::to_lowercase: the result depends on the characters alone,
/// and an empty text stays empty.
#[verifier::external_body]
fn lowercase(s: &str) -> (r: String)
    ensures
        r@ == lower_of(s@),
        s@.len() == 0 ==> r@.len() == 0,
{
    s.to_lowercase()
}

/// The position of the last '.' in `k`, if any.
pub open spec fn last_dot(k: Seq<char>) -> Option<int>
    decreases k.len(),
{
    if k.len() == 0 {
        None
    } else if k[k.len() - 1] == '.' {
        Some(k.len() - 1)
    } else {
        last_dot(k.drop_last())
    }
}

/// The detected type of an object key: the part after the last '.',
/// lower-cased; empty when the key holds no '.' at all.
pub open spec fn type_of_key(k: Seq<char>) -> Seq<char> {
    match last_dot(k) {
        Some(i) => lower_of(k.subrange(i + 1, k.len() as int)),
        None => Seq::empty(),
    }
}

proof fn lemma_last_dot_at(k: Seq<char>, j: int)
    requires
        0 <= j < k.len(),
        k[j] == '.',
        forall|m: int| j < m < k.len() ==> k[m] != '.',
    ensures
        last_dot(k) == Some(j),
    decreases k.len(),
{
    if j == k.len() - 1 {
    } else {
        assert(k.drop_last()[j] == '.');
        lemma_last_dot_at(k.drop_last(), j);
    }
}

proof fn lemma_last_dot_none(k: Seq<char>)
    requires
        forall|m: int| 0 <= m < k.len() ==> k[m] != '.',
    ensures
        last_dot(k) is None,
    decreases k.len(),
{
    if k.len() > 0 {
        lemma_last_dot_none(k.drop_last());
    }
}

/// Detect a key's file type: the substring after the last '.', lower-cased.
/// A key without a '.' yields the empty string — a condition callers log as
/// a warning, not an error.
pub fn extract_file_type(key: &str) -> (r: String)
    ensures
        r@ == type_of_key(key@),
{
    let len = key.unicode_len();
    let mut i: usize = len;
    while i > 0
        invariant
            i <= len,
            len == key@.len(),
            forall|m: int| i <= m < len ==> key@[m] != '.',
        decreases i,
    {
        if key.get_char(i - 1) == '.' {
            let ext = key.substring_char(i, len);
            let lowered = lowercase(ext);
            proof {
                lemma_last_dot_at(key@, i - 1);
            }
            return lowered;
        }
        i = i - 1;
    }
    proof {
        lemma_last_dot_none(key@);
    }
    String::new()
}

} // verus!
