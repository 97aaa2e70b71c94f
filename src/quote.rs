use vstd::prelude::*;

verus! {

/// A stored quote as a mathematical value.
pub struct QuoteRecord {
    pub id: u128,
    pub book: Seq<char>,
    pub quote: Seq<char>,
    pub inserted_at: i64,
    pub updated_at: i64,
}

/// A quote record. The identifier is the 128-bit value of a UUID (most
/// significant byte first); both timestamps count microseconds since the
/// Unix epoch, in UTC.
#[derive(Clone, Debug, PartialEq, Eq)]
pub struct Quote {
    pub id: u128,
    pub book: String,
    pub quote: String,
    pub inserted_at: i64,
    pub updated_at: i64,
}

/// The body of a create or an update request.
#[derive(Clone, Debug, PartialEq, Eq)]
pub struct CreateQuote {
    pub book: String,
    pub quote: String,
}

impl View for Quote {
    type V = QuoteRecord;

    open spec fn view(&self) -> QuoteRecord {
        QuoteRecord {
            id: self.id,
            book: self.book@,
            quote: self.quote@,
            inserted_at: self.inserted_at,
            updated_at: self.updated_at,
        }
    }
}

/// A version 4 UUID of the RFC 4122 variant: the version nibble is 4 and
/// the two variant bits are `10`.
pub open spec fn is_v4(id: u128) -> bool {
    &&& (id >> 76u128) & 0xfu128 == 4u128
    &&& (id >> 62u128) & 0x3u128 == 2u128
}

impl QuoteRecord {
    /// The timestamps of a record never go backwards.
    pub open spec fn wf(self) -> bool {
        self.inserted_at <= self.updated_at
    }
}

/// Relies on `uuid::Uuid::new_v4` (read back with `Uuid::as_u128`): it masks
/// random bits and sets the version to 4 and the variant to RFC 4122.
#[verifier::external_body]
fn random_v4_id() -> (r: u128)
    ensures
        is_v4(r),
{
    uuid::Uuid::new_v4().as_u128()
}

/// Relies on `chrono::Utc::now` and `DateTime::timestamp_micros`: the current
/// UTC time in microseconds since the Unix epoch. `Utc::now` refuses a system
/// clock set before the epoch, so the value is never negative.
#[verifier::external_body]
fn now_micros() -> (r: i64)
    ensures
        r >= 0,
{
    chrono::Utc::now().timestamp_micros()
}

impl Quote {
    /// A fresh record: a new random identifier, and both timestamps set to
    /// the current time.
    pub fn new(book: String, quote: String) -> (r: Quote)
        ensures
            r@.book == book@,
            r@.quote == quote@,
            r.inserted_at == r.updated_at,
            r.inserted_at >= 0,
            is_v4(r.id),
            r@.wf(),
    {
        let now = now_micros();
        Quote { id: random_v4_id(), book, quote, inserted_at: now, updated_at: now }
    }
}

impl CreateQuote {
    /// The record that a create or an update builds from this body.
    pub fn into_quote(self) -> (r: Quote)
        ensures
            r@.book == self.book@,
            r@.quote == self.quote@,
            r.inserted_at == r.updated_at,
            is_v4(r.id),
    {
        Quote::new(self.book, self.quote)
    }
}

} // verus!
