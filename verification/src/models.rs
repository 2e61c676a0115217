//! The records the shortener stores: a url with its short code, and its visit counter.
use vstd::prelude::*;

verus! {

/// Declares `chrono::NaiveDateTime`, the timestamps of a record, to carry it through; nothing
/// inside it is read here.
#[verifier::external_type_specification]
#[verifier::external_body]
pub struct ExNaiveDateTime(chrono::NaiveDateTime);

/// Calls `chrono::Utc::now` and takes its `naive_utc` value. The result is the clock's reading,
/// so nothing is stated of it.
#[verifier::external_body]
fn now_utc() -> chrono::NaiveDateTime {
    chrono::Utc::now().naive_utc()
}

/// A shortened url: its id (the 128 bits of a UUID), the url itself and its short code.
#[derive(Debug)]
pub struct Url {
    pub id: u128,
    pub url: String,
    pub shortened: String,
    pub created_at: chrono::NaiveDateTime,
    pub updated_at: chrono::NaiveDateTime,
}

impl Url {
    /// A new record for `url` under `id` and `shortened`, stamped with the current time.
    pub fn new(id: u128, url: String, shortened: String) -> (u: Url)
        ensures
            u.id == id,
            u.url == url,
            u.shortened == shortened,
    {
        Url { id, url, shortened, created_at: now_utc(), updated_at: now_utc() }
    }

    /// The id of the record.
    pub fn id(self) -> (id: u128)
        ensures
            id == self.id,
    {
        self.id
    }

    /// The short code of the record.
    pub fn shortened(self) -> (s: String)
        ensures
            s == self.shortened,
    {
        self.shortened
    }
}

/// The visit counter of the url with id `url_id`.
#[derive(Debug, PartialEq, Eq, Clone, Copy)]
pub struct Visit {
    pub url_id: u128,
    pub count: i64,
}

impl Visit {
    /// A counter for `url_id` that has seen no visit yet.
    pub fn new(url_id: u128) -> (v: Visit)
        ensures
            v == (Visit { url_id, count: 0 }),
    {
        Visit { url_id, count: 0 }
    }
}

} // verus!
