use vstd::prelude::*;
use crate::clock::{format_rfc3339, parse_rfc3339, rfc3339_instant, rfc3339_text, utc_now, UtcTime};
use crate::error::{is_persistence_error, TranslateError};
use crate::lang::{code_of, Lang};
use crate::text::{contains, occurs_in};

verus! {

/// How many records a history or search query returns when the caller sets
/// no limit.
pub const DEFAULT_LIMIT: i32 = 50;

/// The error message for a stored creation time that does not read back.
pub const BAD_TIME_MESSAGE: &'static str = "stored creation time is not RFC 3339";

/// The error message for a creation time that cannot be written out.
pub const UNWRITABLE_TIME_MESSAGE: &'static str = "creation time is out of range";

/// One recorded translation.
#[derive(Clone, Debug)]
pub struct TranslationRecord {
    pub id: String,
    pub source_text: String,
    pub translated_text: String,
    pub source_lang: String,
    pub target_lang: String,
    pub created_at: UtcTime,
}

/// A record as the store holds it, with the creation time as RFC 3339 text.
#[derive(Clone, Debug)]
pub struct StoredRow {
    pub id: String,
    pub source_text: String,
    pub translated_text: String,
    pub source_lang: String,
    pub target_lang: String,
    pub created_at: String,
}

/// `id` has the shape of a hyphenated UUID: 36 characters, with hyphens
/// where the groups meet.
pub open spec fn is_hyphenated_id(id: Seq<char>) -> bool {
    &&& id.len() == 36
    &&& id[8] == '-'
    &&& id[13] == '-'
    &&& id[18] == '-'
    &&& id[23] == '-'
}

/// Relies on `uuid::Uuid::new_v4` and the `Display` of `Uuid`: a random
/// version-4 UUID in lower-case hyphenated form. It panics when the system
/// gives no random bytes.
#[verifier::external_body]
fn fresh_id() -> (r: String)
    ensures
        is_hyphenated_id(r@),
{
    uuid::Uuid::new_v4().to_string()
}

/// `rec` holds what `row` holds, the creation time read back from its text.
pub open spec fn is_record_of(rec: TranslationRecord, row: StoredRow) -> bool {
    &&& rec.id@ == row.id@
    &&& rec.source_text@ == row.source_text@
    &&& rec.translated_text@ == row.translated_text@
    &&& rec.source_lang@ == row.source_lang@
    &&& rec.target_lang@ == row.target_lang@
    &&& rfc3339_instant(row.created_at@) == Some(
        (rec.created_at.secs as int, rec.created_at.nanos as int),
    )
}

/// The record matches a search for `q`: its source or its translation holds
/// `q`, case and all.
pub open spec fn matches_query(rec: TranslationRecord, q: Seq<char>) -> bool {
    occurs_in(rec.source_text@, q) || occurs_in(rec.translated_text@, q)
}

/// The records of `rs` that match `q`, in their order.
pub open spec fn matching(rs: Seq<TranslationRecord>, q: Seq<char>) -> Seq<TranslationRecord>
    decreases rs.len(),
{
    if rs.len() == 0 {
        Seq::<TranslationRecord>::empty()
    } else if matches_query(rs.last(), q) {
        matching(rs.drop_last(), q).push(rs.last())
    } else {
        matching(rs.drop_last(), q)
    }
}

/// The limit a query runs with: the one given, or the default.
pub open spec fn limit_of(limit: Option<i32>) -> int {
    match limit {
        Some(n) => n as int,
        None => DEFAULT_LIMIT as int,
    }
}

/// The first `limit` items of `s`; all of them when the limit is negative,
/// as in an SQL `LIMIT`.
pub open spec fn capped<T>(s: Seq<T>, limit: int) -> Seq<T> {
    if 0 <= limit < s.len() {
        s.take(limit)
    } else {
        s
    }
}

impl TranslationRecord {
    /// A new record of a translation made now, under a fresh id.
    pub fn create(source_text: &str, translated_text: &str, source: Lang, target: Lang) -> (r:
        TranslationRecord)
        ensures
            is_hyphenated_id(r.id@),
            r.source_text@ == source_text@,
            r.translated_text@ == translated_text@,
            r.source_lang@ == code_of(source),
            r.target_lang@ == code_of(target),
            rfc3339_text(r.created_at.secs as int, r.created_at.nanos as int) is Some,
    {
        TranslationRecord {
            id: fresh_id(),
            source_text: String::from_str(source_text),
            translated_text: String::from_str(translated_text),
            source_lang: String::from_str(source.code()),
            target_lang: String::from_str(target.code()),
            created_at: utc_now(),
        }
    }

    /// The record as the store holds it, or a persistence error when its
    /// creation time has no RFC 3339 form.
    pub fn to_row(&self) -> (r: Result<StoredRow, TranslateError>)
        ensures
            match rfc3339_text(self.created_at.secs as int, self.created_at.nanos as int) {
                Some(t) => r matches Ok(row) && row.created_at@ == t && row.id == self.id
                    && row.source_text == self.source_text && row.translated_text
                    == self.translated_text && row.source_lang == self.source_lang
                    && row.target_lang == self.target_lang,
                None => r is Err && is_persistence_error(r->Err_0, UNWRITABLE_TIME_MESSAGE@),
            },
    {
        match format_rfc3339(self.created_at) {
            Some(created_at) => Ok(
                StoredRow {
                    id: self.id.clone(),
                    source_text: self.source_text.clone(),
                    translated_text: self.translated_text.clone(),
                    source_lang: self.source_lang.clone(),
                    target_lang: self.target_lang.clone(),
                    created_at,
                },
            ),
            None => Err(TranslateError::Persistence(String::from_str(UNWRITABLE_TIME_MESSAGE))),
        }
    }

    /// The record that a stored row holds, or a persistence error when its
    /// creation time does not read back.
    pub fn from_row(row: StoredRow) -> (r: Result<TranslationRecord, TranslateError>)
        ensures
            rfc3339_instant(row.created_at@) is Some ==> r is Ok && is_record_of(r->Ok_0, row),
            rfc3339_instant(row.created_at@) is None ==> r is Err && is_persistence_error(
                r->Err_0,
                BAD_TIME_MESSAGE@,
            ),
    {
        match parse_rfc3339(row.created_at.as_str()) {
            Some(created_at) => Ok(
                TranslationRecord {
                    id: row.id,
                    source_text: row.source_text,
                    translated_text: row.translated_text,
                    source_lang: row.source_lang,
                    target_lang: row.target_lang,
                    created_at,
                },
            ),
            None => Err(TranslateError::Persistence(String::from_str(BAD_TIME_MESSAGE))),
        }
    }
}

/// The records that stored rows hold, in the same order; the first row
/// whose creation time does not read back makes it a persistence error.
pub fn records_from_rows(rows: Vec<StoredRow>) -> (r: Result<Vec<TranslationRecord>, TranslateError>)
    ensures
        (forall|i: int| 0 <= i < rows@.len() ==> rfc3339_instant(#[trigger] rows@[i].created_at@) is Some)
            ==> r is Ok && r->Ok_0@.len() == rows@.len() && forall|i: int|
            0 <= i < rows@.len() ==> is_record_of(#[trigger] r->Ok_0@[i], rows@[i]),
        (exists|i: int| 0 <= i < rows@.len() && rfc3339_instant(#[trigger] rows@[i].created_at@) is None)
            ==> r is Err && is_persistence_error(r->Err_0, BAD_TIME_MESSAGE@),
{
    let ghost all = rows@;
    let mut recs: Vec<TranslationRecord> = Vec::new();
    for row in it: rows.into_iter()
        invariant
            it.seq() == all,
            recs@.len() == it.index(),
            forall|i: int| 0 <= i < it.index() ==> is_record_of(#[trigger] recs@[i], all[i]),
            forall|i: int| 0 <= i < it.index() ==> rfc3339_instant(#[trigger] all[i].created_at@) is Some,
    {
        match TranslationRecord::from_row(row) {
            Ok(rec) => recs.push(rec),
            Err(e) => return Err(e),
        }
    }
    Ok(recs)
}

/// The limit and offset a history query runs with: those given, else the
/// default limit and no offset.
pub fn history_window(limit: Option<i32>, offset: Option<i32>) -> (r: (i32, i32))
    ensures
        r.0 == limit_of(limit),
        r.1 == match offset {
            Some(n) => n,
            None => 0,
        },
{
    let l = match limit {
        Some(n) => n,
        None => DEFAULT_LIMIT,
    };
    let o = match offset {
        Some(n) => n,
        None => 0,
    };
    (l, o)
}

/// The result of a search: those of `candidates` whose source or
/// translation holds `query` exactly, in the order given (the store hands
/// them over newest first), up to the limit (50 when none is given; all of
/// them for a negative limit).
pub fn select_matches(candidates: Vec<TranslationRecord>, query: &str, limit: Option<i32>) -> (r:
    Vec<TranslationRecord>)
    ensures
        r@ == capped(matching(candidates@, query@), limit_of(limit)),
{
    let ghost all = candidates@;
    let mut found: Vec<TranslationRecord> = Vec::new();
    for rec in it: candidates.into_iter()
        invariant
            it.seq() == all,
            found@ == matching(all.take(it.index() as int), query@),
    {
        let ghost before = all.take(it.index() as int);
        let ghost after = all.take(it.index() + 1);
        proof {
            assert(after.drop_last() =~= before);
            assert(after.last() == rec);
        }
        if contains(rec.source_text.as_str(), query) || contains(
            rec.translated_text.as_str(),
            query,
        ) {
            found.push(rec);
        }
    }
    proof {
        assert(all.take(all.len() as int) =~= all);
    }
    let cap = match limit {
        Some(n) => n,
        None => DEFAULT_LIMIT,
    };
    if cap >= 0 && (cap as usize) < found.len() {
        found.truncate(cap as usize);
    }
    found
}

} // verus!
