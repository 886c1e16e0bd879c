use vstd::prelude::*;

use crate::error::RequestError;
use crate::json::{int_text, json_string_of, quote};

verus! {

/// A user as read from the data source.
pub struct UserRecord {
    pub id: i32,
    pub email: String,
    pub password: String,
}

pub struct UserRecordView {
    pub id: i32,
    pub email: Seq<char>,
    pub password: Seq<char>,
}

impl View for UserRecord {
    type V = UserRecordView;

    open spec fn view(&self) -> UserRecordView {
        UserRecordView { id: self.id, email: self.email@, password: self.password@ }
    }
}

/// One result row as the data source returned it: each column holds `None`
/// where it was absent or not of the expected type.
pub struct RawRow {
    pub id: Option<i32>,
    pub email: Option<String>,
    pub password: Option<String>,
}

pub struct RawRowView {
    pub id: Option<i32>,
    pub email: Option<Seq<char>>,
    pub password: Option<Seq<char>>,
}

impl View for RawRow {
    type V = RawRowView;

    open spec fn view(&self) -> RawRowView {
        RawRowView {
            id: self.id,
            email: match self.email {
                Some(e) => Some(e@),
                None => None,
            },
            password: match self.password {
                Some(p) => Some(p@),
                None => None,
            },
        }
    }
}

/// The record a row stands for, if every column is present and well-typed.
pub open spec fn row_record(row: RawRowView) -> Option<UserRecordView> {
    match (row.id, row.email, row.password) {
        (Some(id), Some(email), Some(password)) => Some(
            UserRecordView { id, email, password },
        ),
        _ => None,
    }
}

pub open spec fn rows_view(rows: Seq<RawRow>) -> Seq<RawRowView> {
    rows.map_values(|r: RawRow| r@)
}

pub open spec fn records_view(records: Seq<UserRecord>) -> Seq<UserRecordView> {
    records.map_values(|r: UserRecord| r@)
}

/// The records that rows stand for, in row order, or `None` if any row is
/// incomplete.
pub open spec fn rows_records(rows: Seq<RawRowView>) -> Option<Seq<UserRecordView>> {
    if forall|i: int| 0 <= i < rows.len() ==> (#[trigger] row_record(rows[i])) is Some {
        Some(Seq::new(rows.len(), |i: int| row_record(rows[i])->0))
    } else {
        None
    }
}

/// The JSON object of one record, its keys in the order id, email, password.
pub open spec fn record_json(r: UserRecordView) -> Option<Seq<char>> {
    match (json_string_of(r.email), json_string_of(r.password)) {
        (Some(e), Some(p)) => Some(
            "{\"id\":"@ + int_text(r.id as int) + ",\"email\":"@ + e + ",\"password\":"@ + p
                + "}"@,
        ),
        _ => None,
    }
}

/// The record objects joined by commas.
pub open spec fn records_items(rs: Seq<UserRecordView>) -> Option<Seq<char>>
    decreases rs.len(),
{
    if rs.len() == 0 {
        Some(Seq::empty())
    } else {
        match (records_items(rs.drop_last()), record_json(rs.last())) {
            (Some(p), Some(l)) => Some(
                if rs.len() == 1 {
                    l
                } else {
                    p + ","@ + l
                },
            ),
            _ => None,
        }
    }
}

/// The JSON array of the records, in their order.
pub open spec fn records_json(rs: Seq<UserRecordView>) -> Option<Seq<char>> {
    match records_items(rs) {
        Some(items) => Some("["@ + items + "]"@),
        None => None,
    }
}

} // verus!

verus! {

/// Reads one row into a record: `None` exactly when a column is missing or
/// of the wrong type.
pub fn map_row(row: &RawRow) -> (r: Option<UserRecord>)
    ensures
        match r {
            Some(u) => row_record(row@) == Some(u@),
            None => row_record(row@) is None,
        },
{
    match (row.id, &row.email, &row.password) {
        (Some(id), Some(email), Some(password)) => Some(
            UserRecord { id, email: email.clone(), password: password.clone() },
        ),
        _ => None,
    }
}

/// Reads every row into a record, keeping the row order; fails with
/// `RowMappingError` exactly when some row is incomplete.
pub fn map_rows(rows: &Vec<RawRow>) -> (r: Result<Vec<UserRecord>, RequestError>)
    ensures
        match r {
            Ok(v) => rows_records(rows_view(rows@)) == Some(records_view(v@)),
            Err(e) => e == RequestError::RowMappingError && rows_records(rows_view(rows@)) is None,
        },
{
    let ghost rv = rows_view(rows@);
    let mut out: Vec<UserRecord> = Vec::new();
    let mut i: usize = 0;
    while i < rows.len()
        invariant
            0 <= i <= rows.len(),
            rv == rows_view(rows@),
            out@.len() == i,
            forall|j: int| 0 <= j < i ==> row_record(#[trigger] rv[j]) == Some(out@[j]@),
        decreases rows.len() - i,
    {
        match map_row(&rows[i]) {
            Some(u) => {
                out.push(u);
            },
            None => {
                assert(row_record(rv[i as int]) is None);
                return Err(RequestError::RowMappingError);
            },
        }
        i += 1;
    }
    proof {
        assert forall|j: int| 0 <= j < rv.len() implies (#[trigger] row_record(rv[j])) is Some by {
            assert(row_record(rv[j]) == Some(out@[j]@));
        }
        assert(Seq::new(rv.len(), |j: int| row_record(rv[j])->0) =~= records_view(out@));
    }
    Ok(out)
}

proof fn lemma_items_prefix_none(rs: Seq<UserRecordView>, k: int)
    requires
        0 <= k <= rs.len(),
        records_items(rs.take(k)) is None,
    ensures
        records_items(rs) is None,
    decreases rs.len(),
{
    if k == rs.len() {
        assert(rs.take(k) =~= rs);
    } else {
        assert(rs.drop_last().take(k) =~= rs.take(k));
        lemma_items_prefix_none(rs.drop_last(), k);
    }
}

/// Writes the records as a JSON array of objects `{"id":..,"email":..,"password":..}`
/// in their order; fails with `SerializationError` exactly when a string field
/// cannot be encoded.
pub fn to_json(records: &Vec<UserRecord>) -> (r: Result<String, RequestError>)
    ensures
        match r {
            Ok(s) => records_json(records_view(records@)) == Some(s@),
            Err(e) => e == RequestError::SerializationError && records_json(
                records_view(records@),
            ) is None,
        },
{
    let ghost rs = records_view(records@);
    let mut items = String::new();
    let mut i: usize = 0;
    assert(rs.take(0) =~= Seq::<UserRecordView>::empty());
    while i < records.len()
        invariant
            0 <= i <= records.len(),
            rs == records_view(records@),
            records_items(rs.take(i as int)) == Some(items@),
        decreases records.len() - i,
    {
        let rec = &records[i];
        let ghost pre = rs.take(i as int);
        let ghost next = rs.take(i as int + 1);
        assert(next.drop_last() =~= pre);
        assert(next.last() == rec@);
        let email = quote(rec.email.as_str());
        let password = quote(rec.password.as_str());
        match (email, password) {
            (Some(e), Some(p)) => {
                let ghost before = items@;
                if i > 0 {
                    items.append(",");
                }
                items.append("{\"id\":");
                let id = crate::json::decimal(rec.id as i128);
                items.append(id.as_str());
                items.append(",\"email\":");
                items.append(e.as_str());
                items.append(",\"password\":");
                items.append(p.as_str());
                items.append("}");
                proof {
                    let obj = "{\"id\":"@ + int_text(rec.id as int) + ",\"email\":"@ + e@
                        + ",\"password\":"@ + p@ + "}"@;
                    assert(record_json(rec@) == Some(obj));
                    if i > 0 {
                        assert(items@ =~= before + ","@ + obj);
                    } else {
                        assert(before =~= Seq::<char>::empty());
                        assert(items@ =~= obj);
                    }
                }
            },
            _ => {
                proof {
                    assert(records_items(next) is None);
                    lemma_items_prefix_none(rs, i as int + 1);
                }
                return Err(RequestError::SerializationError);
            },
        }
        i += 1;
    }
    assert(rs.take(i as int) =~= rs);
    let open = String::from_str("[");
    let mut text = open.concat(items.as_str());
    text.append("]");
    Ok(text)
}

} // verus!
