//! The five operations on the quotes collection. Each one runs exactly one
//! storage statement: the functions here build what that statement is
//! given, and turn its outcome into the reply. Every storage failure
//! becomes a 500; no outcome is retried.
use vstd::prelude::*;
use crate::quote::{Quote, QuoteRecord};
use crate::reply::{Status, StoreError};

verus! {

/// The identifier that a text spells as a UUID, if it spells one.
pub uninterp spec fn uuid_of_text(s: Seq<char>) -> Option<u128>;

/// Relies on `uuid::Uuid::parse_str` (read back with `Uuid::as_u128`): which
/// texts it accepts, and the value it reads, depend on the text alone.
#[verifier::external_body]
fn parse_uuid(s: &str) -> (r: Option<u128>)
    ensures
        r == uuid_of_text(s@),
{
    match uuid::Uuid::parse_str(s) {
        Ok(u) => Some(u.as_u128()),
        Err(_) => None,
    }
}

/// The identifier named by a path segment; a segment that is not a UUID is
/// refused with 400 before any storage is reached.
pub open spec fn id_reply(seg: Seq<char>) -> Result<u128, Status> {
    match uuid_of_text(seg) {
        Some(id) => Ok(id),
        None => Err(Status::BadRequest),
    }
}

pub fn parse_id(seg: &str) -> (r: Result<u128, Status>)
    ensures
        r == id_reply(seg@),
{
    match parse_uuid(seg) {
        Some(id) => Ok(id),
        None => Err(Status::BadRequest),
    }
}

/// What an update statement writes to the row with the given identifier.
pub struct Revision {
    pub id: u128,
    pub book: String,
    pub quote: String,
    pub updated_at: i64,
}

/// The revision that an update makes from its path identifier and the
/// record it built from the request body: the body's text and the record's
/// fresh `updated_at`, for the row named by the path. The record's own
/// identifier and `inserted_at` are not written.
pub fn revision(id: u128, quote: &Quote) -> (r: Revision)
    ensures
        r.id == id,
        r.book@ == quote.book@,
        r.quote@ == quote.quote@,
        r.updated_at == quote.updated_at,
{
    Revision {
        id,
        book: quote.book.clone(),
        quote: quote.quote.clone(),
        updated_at: quote.updated_at,
    }
}

pub open spec fn create_reply(quote: Quote, res: Result<u64, StoreError>) -> Result<(Status, Quote), Status> {
    match res {
        Ok(_) => Ok((Status::Created, quote)),
        Err(_) => Err(Status::InternalServerError),
    }
}

/// The reply to a create, given the record it built and the outcome of its
/// insert statement: 201 with the record, or 500.
pub fn create(quote: Quote, res: Result<u64, StoreError>) -> (r: Result<(Status, Quote), Status>)
    ensures
        r == create_reply(quote, res),
{
    match res {
        Ok(_) => Ok((Status::Created, quote)),
        Err(_) => Err(Status::InternalServerError),
    }
}

pub open spec fn get_all_reply(recs: Result<Vec<Quote>, StoreError>) -> Result<Vec<Quote>, Status> {
    match recs {
        Ok(v) => Ok(v),
        Err(_) => Err(Status::InternalServerError),
    }
}

/// The reply to a listing, given the outcome of its select statement: the
/// rows as they came (newest first, by the statement's order), or 500.
pub fn get_all(recs: Result<Vec<Quote>, StoreError>) -> (r: Result<Vec<Quote>, Status>)
    ensures
        r == get_all_reply(recs),
{
    match recs {
        Ok(v) => Ok(v),
        Err(_) => Err(Status::InternalServerError),
    }
}

pub open spec fn get_reply(rec: Result<Option<Quote>, StoreError>) -> Result<Quote, Status> {
    match rec {
        Ok(Some(q)) => Ok(q),
        Ok(None) => Err(Status::NotFound),
        Err(_) => Err(Status::InternalServerError),
    }
}

/// The reply to a lookup by identifier, given the outcome of its select
/// statement: the row, 404 when there is none, or 500.
pub fn get(rec: Result<Option<Quote>, StoreError>) -> (r: Result<Quote, Status>)
    ensures
        r == get_reply(rec),
{
    match rec {
        Ok(Some(q)) => Ok(q),
        Ok(None) => Err(Status::NotFound),
        Err(_) => Err(Status::InternalServerError),
    }
}

pub open spec fn update_reply(quote: Quote, res: Result<u64, StoreError>) -> Result<Quote, Status> {
    match res {
        Ok(_) => Ok(quote),
        Err(_) => Err(Status::InternalServerError),
    }
}

/// The reply to an update, given the record it built from the body and the
/// outcome of its update statement: that record (with its own fresh
/// identifier and timestamps, whatever row was touched), or 500. No row
/// matching is not an error.
pub fn update(quote: Quote, res: Result<u64, StoreError>) -> (r: Result<Quote, Status>)
    ensures
        r == update_reply(quote, res),
{
    match res {
        Ok(_) => Ok(quote),
        Err(_) => Err(Status::InternalServerError),
    }
}

pub open spec fn delete_reply(res: Result<u64, StoreError>) -> Result<Status, Status> {
    match res {
        Ok(_) => Ok(Status::NoContent),
        Err(_) => Err(Status::InternalServerError),
    }
}

/// The reply to a delete, given the outcome of its delete statement: 204
/// however many rows went, or 500.
pub fn delete(res: Result<u64, StoreError>) -> (r: Result<Status, Status>)
    ensures
        r == delete_reply(res),
{
    match res {
        Ok(_) => Ok(Status::NoContent),
        Err(_) => Err(Status::InternalServerError),
    }
}

} // verus!
