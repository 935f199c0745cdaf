//! Raw records of the detail query, and the persisted record and index entry
//! made from them.

use crate::date::{internal_date, utc_to_date, CivilDate, Instant};
use vstd::prelude::*;

verus! {

/// Why a detail response could not be turned into a record.
#[derive(Clone, Copy, Debug, PartialEq, Eq, Structural)]
pub enum DecodeError {
    /// The body was not valid JSON, or did not have the expected shape.
    Malformed,
    /// The response listed no record for the requested identifier.
    NoRecord,
    /// The record carries no file-type classification.
    MissingFileType,
    /// A date of the record lies outside the civil calendar's range.
    DateOutOfRange,
}

/// One record as the remote API returns it, dates being UTC instants.
#[derive(Debug)]
pub struct JoreiDocs {
    pub collection: Vec<String>,
    pub collected_date: Vec<String>,
    pub updated_date: Vec<Instant>,
    pub municipality_id: String,
    pub prefecture: Option<String>,
    pub city: Option<String>,
    pub prefecture_kana: Option<String>,
    pub city_kana: Option<String>,
    pub municipality_type: String,
    pub area: String,
    pub id: String,
    pub reiki_id: String,
    pub h1: Option<String>,
    pub title: String,
    pub announcement_date: Option<Instant>,
    pub jorei_type: String,
    pub last_updated_date: Option<Instant>,
    pub reiki_dates: Option<Vec<String>>,
    pub reiki_numbers: Option<Vec<String>>,
    pub update_count: Option<usize>,
    pub original_url: Option<String>,
    pub reiki_url: Option<String>,
    pub has_version: bool,
    pub file_type: Option<String>,
    pub h_type: Vec<String>,
    pub content: Option<String>,
    pub collected_date_s: Option<String>,
    pub announcement_date_s: Option<String>,
    pub last_updated_date_s: Option<String>,
    pub updated_date_s: Option<String>,
}

/// The persisted form of a record: dates are civil dates of UTC+9 and the
/// file type is present.
#[derive(Debug)]
pub struct JoreiData {
    pub collection: Vec<String>,
    pub collected_date: Vec<String>,
    pub updated_date: Vec<CivilDate>,
    pub municipality_id: String,
    pub prefecture: Option<String>,
    pub city: Option<String>,
    pub prefecture_kana: Option<String>,
    pub city_kana: Option<String>,
    pub municipality_type: String,
    pub area: String,
    pub id: String,
    pub reiki_id: String,
    pub h1: Option<String>,
    pub title: String,
    pub announcement_date: Option<CivilDate>,
    pub jorei_type: String,
    pub last_updated_date: Option<CivilDate>,
    pub reiki_dates: Option<Vec<String>>,
    pub reiki_numbers: Option<Vec<String>>,
    pub original_url: Option<String>,
    pub reiki_url: Option<String>,
    pub has_version: bool,
    pub file_type: String,
    pub h_type: Vec<String>,
    pub content: Option<String>,
    pub collected_date_s: Option<String>,
    pub announcement_date_s: Option<String>,
    pub last_updated_date_s: Option<String>,
    pub updated_date_s: Option<String>,
}

/// The summary of one record kept in the index.
#[derive(Debug)]
pub struct JoreiInfo {
    pub title: String,
    pub reiki_id: String,
    pub id: String,
    pub prefecture: Option<String>,
    pub city: Option<String>,
    pub announcement_date: Option<CivilDate>,
    pub updated_date: Option<CivilDate>,
}

/// An optional instant converts when it is absent or has an internal date.
pub open spec fn opt_date_ok(o: Option<Instant>) -> bool {
    o matches Some(t) ==> internal_date(t) is Some
}

/// The internal date of an optional instant that converts.
pub open spec fn opt_date(o: Option<Instant>) -> Option<CivilDate> {
    match o {
        Some(t) => Some(internal_date(t)->0),
        None => None,
    }
}

/// Every instant of `v` has an internal date.
pub open spec fn all_dates_ok(v: Seq<Instant>) -> bool {
    forall|i: int| 0 <= i < v.len() ==> (#[trigger] internal_date(v[i])) is Some
}

/// The internal dates of the instants of `v`, element by element.
pub open spec fn dates_of(v: Seq<Instant>) -> Seq<CivilDate> {
    v.map_values(|t: Instant| internal_date(t)->0)
}

/// All the dates of a raw record convert.
pub open spec fn record_dates_ok(d: JoreiDocs) -> bool {
    &&& all_dates_ok(d.updated_date@)
    &&& opt_date_ok(d.announcement_date)
    &&& opt_date_ok(d.last_updated_date)
}

/// `r` is the raw record `d` with its dates converted and its file type
/// required: every other field is carried over unchanged.
pub open spec fn normalizes_to(d: JoreiDocs, r: JoreiData) -> bool {
    &&& r.collection == d.collection
    &&& r.collected_date == d.collected_date
    &&& r.updated_date@ == dates_of(d.updated_date@)
    &&& r.municipality_id == d.municipality_id
    &&& r.prefecture == d.prefecture
    &&& r.city == d.city
    &&& r.prefecture_kana == d.prefecture_kana
    &&& r.city_kana == d.city_kana
    &&& r.municipality_type == d.municipality_type
    &&& r.area == d.area
    &&& r.id == d.id
    &&& r.reiki_id == d.reiki_id
    &&& r.h1 == d.h1
    &&& r.title == d.title
    &&& r.announcement_date == opt_date(d.announcement_date)
    &&& r.jorei_type == d.jorei_type
    &&& r.last_updated_date == opt_date(d.last_updated_date)
    &&& r.reiki_dates == d.reiki_dates
    &&& r.reiki_numbers == d.reiki_numbers
    &&& r.original_url == d.original_url
    &&& r.reiki_url == d.reiki_url
    &&& r.has_version == d.has_version
    &&& d.file_type == Some(r.file_type)
    &&& r.h_type == d.h_type
    &&& r.content == d.content
    &&& r.collected_date_s == d.collected_date_s
    &&& r.announcement_date_s == d.announcement_date_s
    &&& r.last_updated_date_s == d.last_updated_date_s
    &&& r.updated_date_s == d.updated_date_s
}

/// The error, if any, that normalizing `d` gives: a missing file type first,
/// then a date outside the calendar.
pub open spec fn normalize_error(d: JoreiDocs) -> Option<DecodeError> {
    if d.file_type is None {
        Some(DecodeError::MissingFileType)
    } else if !record_dates_ok(d) {
        Some(DecodeError::DateOutOfRange)
    } else {
        None
    }
}

/// `e` is the index entry of the persisted record `r`.
pub open spec fn summarizes(r: JoreiData, e: JoreiInfo) -> bool {
    &&& e.title == r.title
    &&& e.reiki_id == r.reiki_id
    &&& e.id == r.id
    &&& e.prefecture == r.prefecture
    &&& e.city == r.city
    &&& e.announcement_date == r.announcement_date
    &&& e.updated_date == r.last_updated_date
}

/// Converts each instant of `v` to its internal date; `None` when one of
/// them has none.
pub fn convert_dates(v: &Vec<Instant>) -> (r: Option<Vec<CivilDate>>)
    ensures
        r is Some <==> all_dates_ok(v@),
        r matches Some(w) ==> w@ == dates_of(v@),
{
    let mut out: Vec<CivilDate> = Vec::new();
    let mut i: usize = 0;
    while i < v.len()
        invariant
            i <= v.len(),
            all_dates_ok(v@.subrange(0, i as int)),
            out@ == dates_of(v@.subrange(0, i as int)),
        decreases v.len() - i,
    {
        match utc_to_date(&v[i]) {
            Some(c) => {
                out.push(c);
                proof {
                    assert(v@.subrange(0, i + 1) =~= v@.subrange(0, i as int).push(v@[i as int]));
                    assert(dates_of(v@.subrange(0, i + 1)) =~= dates_of(v@.subrange(0, i as int)).push(c));
                    assert forall|j: int| 0 <= j < i + 1 implies (#[trigger] internal_date(v@.subrange(0, i + 1)[j])) is Some by {
                        if j < i {
                            assert(v@.subrange(0, i + 1)[j] == v@.subrange(0, i as int)[j]);
                        }
                    }
                }
                i = i + 1;
            },
            None => {
                assert(internal_date(v@[i as int]) is None);
                return None;
            },
        }
    }
    assert(v@.subrange(0, i as int) =~= v@);
    Some(out)
}

/// Converts an optional instant to its optional internal date.
pub fn convert_opt_date(o: Option<Instant>) -> (r: Option<Option<CivilDate>>)
    ensures
        r is Some <==> opt_date_ok(o),
        r matches Some(c) ==> c == opt_date(o),
{
    match o {
        Some(t) => match utc_to_date(&t) {
            Some(c) => Some(Some(c)),
            None => None,
        },
        None => Some(None),
    }
}

/// Turns a raw record into its persisted form: dates become civil dates of
/// UTC+9 and the file type, which must be present, is taken out of its
/// option. Every other field is carried over unchanged.
pub fn gen_jorei_data(docs: JoreiDocs) -> (r: Result<JoreiData, DecodeError>)
    ensures
        match r {
            Ok(x) => normalize_error(docs) is None && normalizes_to(docs, x),
            Err(e) => normalize_error(docs) == Some(e),
        },
{
    let file_type = match docs.file_type {
        Some(f) => f,
        None => return Err(DecodeError::MissingFileType),
    };
    let updated_date = match convert_dates(&docs.updated_date) {
        Some(v) => v,
        None => return Err(DecodeError::DateOutOfRange),
    };
    let announcement_date = match convert_opt_date(docs.announcement_date) {
        Some(c) => c,
        None => return Err(DecodeError::DateOutOfRange),
    };
    let last_updated_date = match convert_opt_date(docs.last_updated_date) {
        Some(c) => c,
        None => return Err(DecodeError::DateOutOfRange),
    };
    Ok(JoreiData {
        collection: docs.collection,
        collected_date: docs.collected_date,
        updated_date,
        municipality_id: docs.municipality_id,
        prefecture: docs.prefecture,
        city: docs.city,
        prefecture_kana: docs.prefecture_kana,
        city_kana: docs.city_kana,
        municipality_type: docs.municipality_type,
        area: docs.area,
        id: docs.id,
        reiki_id: docs.reiki_id,
        h1: docs.h1,
        title: docs.title,
        announcement_date,
        jorei_type: docs.jorei_type,
        last_updated_date,
        reiki_dates: docs.reiki_dates,
        reiki_numbers: docs.reiki_numbers,
        original_url: docs.original_url,
        reiki_url: docs.reiki_url,
        has_version: docs.has_version,
        file_type,
        h_type: docs.h_type,
        content: docs.content,
        collected_date_s: docs.collected_date_s,
        announcement_date_s: docs.announcement_date_s,
        last_updated_date_s: docs.last_updated_date_s,
        updated_date_s: docs.updated_date_s,
    })
}

fn clone_opt_string(o: &Option<String>) -> (r: Option<String>)
    ensures
        r == *o,
{
    match o {
        Some(s) => Some(s.clone()),
        None => None,
    }
}

/// The index entry of a persisted record.
pub fn gen_jorei_info(data: &JoreiData) -> (r: JoreiInfo)
    ensures
        summarizes(*data, r),
{
    JoreiInfo {
        title: data.title.clone(),
        reiki_id: data.reiki_id.clone(),
        id: data.id.clone(),
        prefecture: clone_opt_string(&data.prefecture),
        city: clone_opt_string(&data.city),
        announcement_date: data.announcement_date,
        updated_date: data.last_updated_date,
    }
}

/// The one record of a detail response, which must list at least one.
pub fn first_record(docs: Vec<JoreiDocs>) -> (r: Result<JoreiDocs, DecodeError>)
    ensures
        docs@.len() == 0 ==> r == Err::<JoreiDocs, DecodeError>(DecodeError::NoRecord),
        docs@.len() > 0 ==> r == Ok::<JoreiDocs, DecodeError>(docs@[0]),
{
    let mut docs = docs;
    if docs.len() == 0 {
        return Err(DecodeError::NoRecord);
    }
    Ok(docs.remove(0))
}

} // verus!
