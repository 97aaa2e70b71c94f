//! A model of the `quotes` table and of the one statement that each
//! operation runs on it, with the laws that the operations' replies obey
//! over that model.
use vstd::prelude::*;
use crate::quote::{Quote, QuoteRecord};
use crate::quotes::{Revision, create_reply, delete_reply, get_all_reply, get_reply};
use crate::reply::{Status, StoreError};

verus! {

/// The table's rows, keyed by identifier (its primary key).
pub type Table = Map<u128, QuoteRecord>;

/// The insert statement: a new row, or a failure when the identifier is
/// taken.
pub open spec fn inserted(t: Table, q: QuoteRecord) -> Option<Table> {
    if t.contains_key(q.id) {
        None
    } else {
        Some(t.insert(q.id, q))
    }
}

/// The select statement by identifier.
pub open spec fn selected(t: Table, id: u128) -> Option<QuoteRecord> {
    if t.contains_key(id) {
        Some(t[id])
    } else {
        None
    }
}

/// The select statement over all rows: each row of the table exactly once,
/// the latest `inserted_at` first.
pub open spec fn is_listing(t: Table, rows: Seq<QuoteRecord>) -> bool {
    &&& t.dom().finite()
    &&& rows.len() == t.len()
    &&& forall|i: int| 0 <= i < rows.len() ==> #[trigger] t.contains_key(rows[i].id) && t[rows[i].id] == rows[i]
    &&& forall|i: int, j: int|
        0 <= i < j < rows.len() ==> #[trigger] rows[i].id != #[trigger] rows[j].id && rows[j].inserted_at <= rows[i].inserted_at
}

/// The update statement: the text and `updated_at` of the row named by the
/// revision change; its identifier and `inserted_at` stay. No such row
/// leaves the table as it was.
pub open spec fn revised(t: Table, rev: Revision) -> Table {
    if t.contains_key(rev.id) {
        let old_row = t[rev.id];
        t.insert(
            rev.id,
            QuoteRecord {
                id: old_row.id,
                book: rev.book@,
                quote: rev.quote@,
                inserted_at: old_row.inserted_at,
                updated_at: rev.updated_at,
            },
        )
    } else {
        t
    }
}

/// The delete statement.
pub open spec fn removed(t: Table, id: u128) -> Table {
    t.remove(id)
}

/// The records of the rows that a statement handed back.
pub open spec fn found(o: Option<Quote>) -> Option<QuoteRecord> {
    match o {
        Some(q) => Some(q@),
        None => None,
    }
}

pub open spec fn listed(v: Seq<Quote>) -> Seq<QuoteRecord> {
    v.map_values(|q: Quote| q@)
}

/// A lookup outcome that is the select statement's answer on `t`.
pub open spec fn answers_lookup(t: Table, id: u128, rec: Result<Option<Quote>, StoreError>) -> bool {
    rec matches Ok(o) && found(o) == selected(t, id)
}

/// A well-formed table keys each row by its own identifier, and no row's
/// `updated_at` is earlier than its `inserted_at`.
pub open spec fn wf(t: Table) -> bool {
    forall|id: u128| #[trigger] t.contains_key(id) ==> t[id].id == id && t[id].wf()
}

/// The statements keep a table well formed, an update as long as its time is
/// not earlier than the row's `inserted_at`.
pub proof fn lemma_statements_keep_wf(t: Table, q: QuoteRecord, rev: Revision, id: u128)
    requires
        wf(t),
        q.wf(),
        t.contains_key(rev.id) ==> t[rev.id].inserted_at <= rev.updated_at,
    ensures
        inserted(t, q) matches Some(t2) ==> wf(t2),
        wf(revised(t, rev)),
        wf(removed(t, id)),
{
}

/// Three quotes created one after another on an empty table, each later
/// than the one before, are listed newest first.
pub proof fn lemma_listing_newest_first(
    a: Quote,
    b: Quote,
    c: Quote,
    t1: Table,
    t2: Table,
    t3: Table,
    recs: Vec<Quote>,
)
    requires
        inserted(Map::empty(), a@) == Some(t1),
        inserted(t1, b@) == Some(t2),
        inserted(t2, c@) == Some(t3),
        a.inserted_at < b.inserted_at < c.inserted_at,
        is_listing(t3, listed(recs@)),
    ensures
        get_all_reply(Ok(recs)) == Ok::<Vec<Quote>, Status>(recs),
        listed(recs@) == seq![c@, b@, a@],
{
    let rows = listed(recs@);
    assert(t3.dom() =~= set![a.id, b.id, c.id]);
    assert(set![a.id, b.id, c.id].len() == 3) by {
        assert(set![a.id].len() == 1) by {
            assert(Set::<u128>::empty().len() == 0);
        }
    }
    assert(rows.len() == 3);
    assert(forall|i: int| 0 <= i < 3 ==> #[trigger] rows[i] == a@ || rows[i] == b@ || rows[i] == c@) by {
        assert forall|i: int| 0 <= i < 3 implies #[trigger] rows[i] == a@ || rows[i] == b@ || rows[i] == c@ by {
            assert(t3.contains_key(rows[i].id));
        }
    }
    assert(rows[0].id != rows[1].id && rows[1].id != rows[2].id && rows[0].id != rows[2].id);
    assert(rows[1].inserted_at <= rows[0].inserted_at && rows[2].inserted_at <= rows[1].inserted_at);
    assert(rows =~= seq![c@, b@, a@]);
}

/// A lookup of an identifier that no row holds answers 404.
pub proof fn lemma_unknown_id_not_found(t: Table, id: u128, rec: Result<Option<Quote>, StoreError>)
    requires
        !t.contains_key(id),
        answers_lookup(t, id, rec),
    ensures
        get_reply(rec) == Err::<Quote, Status>(Status::NotFound),
{
}

/// Deleting an identifier that no row holds changes nothing and still
/// answers 204.
pub proof fn lemma_delete_absent(t: Table, id: u128, res: Result<u64, StoreError>)
    requires
        !t.contains_key(id),
        res is Ok,
    ensures
        removed(t, id) == t,
        delete_reply(res) == Ok::<Status, Status>(Status::NoContent),
{
    assert(removed(t, id) =~= t);
}

/// After a delete, a lookup of the same identifier answers 404.
pub proof fn lemma_deleted_not_found(t: Table, id: u128, rec: Result<Option<Quote>, StoreError>)
    requires
        answers_lookup(removed(t, id), id, rec),
    ensures
        get_reply(rec) == Err::<Quote, Status>(Status::NotFound),
{
}

/// After an update of an existing row, a lookup by the same identifier finds
/// the new text under the row's own identifier and `inserted_at`.
pub proof fn lemma_update_keeps_identity(
    t: Table,
    rev: Revision,
    rec: Result<Option<Quote>, StoreError>,
)
    requires
        wf(t),
        t.contains_key(rev.id),
        answers_lookup(revised(t, rev), rev.id, rec),
    ensures
        get_reply(rec) matches Ok(q) && {
            &&& q.id == rev.id
            &&& q.inserted_at == t[rev.id].inserted_at
            &&& q.book@ == rev.book@
            &&& q.quote@ == rev.quote@
            &&& q.updated_at == rev.updated_at
        },
{
}

/// A quote whose create succeeded is found by its identifier with the same
/// text, byte for byte, and the same timestamps.
pub proof fn lemma_created_then_found(
    t: Table,
    quote: Quote,
    res: Result<u64, StoreError>,
    t2: Table,
    rec: Result<Option<Quote>, StoreError>,
)
    requires
        inserted(t, quote@) == Some(t2),
        res is Ok,
        answers_lookup(t2, quote.id, rec),
    ensures
        create_reply(quote, res) == Ok::<(Status, Quote), Status>((Status::Created, quote)),
        get_reply(rec) matches Ok(q) && q@ == quote@,
        get_reply(rec) matches Ok(q) && q.book@ == quote.book@ && q.quote@ == quote.quote@,
{
}

} // verus!
