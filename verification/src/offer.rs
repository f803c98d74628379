//! The durable offer record and its stored form.
//!
//! An offer pairs a transfer identifier with the offering peer's live
//! connection handle and an expiry instant in epoch seconds. The directory
//! stores it as a list of named fields, strings and decimal numbers; reading
//! such a record back is [`Offer::try_from`], writing one is
//! [`Offer::to_record`], and the two are tied together by
//! [`offer_of_record`].

use vstd::prelude::*;
use crate::decimal::{i64_to_decimal, parse_i64, parsed_i64};
use crate::lookup::{assoc_first, assoc_lookup};

verus! {

/// A stored field value: a string, a number held as decimal text, or
/// anything else the backing store can hold but an offer never uses.
#[derive(Debug)]
pub enum AttrValue {
    S(String),
    N(String),
    Other,
}

/// The durable record pairing a transfer identifier with the offering
/// peer's live connection handle.
#[derive(Debug)]
pub struct Offer {
    /// The externally supplied key; treated as a capability token.
    pub transfer_id: String,
    /// The offerer's currently-live connection handle.
    pub connection_handle: String,
    /// Epoch seconds after which the offer no longer counts, whether or not
    /// the backing store has purged it.
    pub valid_until: i64,
}

/// The mathematical value of an offer.
pub struct OfferView {
    pub transfer_id: Seq<char>,
    pub connection_handle: Seq<char>,
    pub valid_until: int,
}

impl View for Offer {
    type V = OfferView;

    open spec fn view(&self) -> OfferView {
        OfferView {
            transfer_id: self.transfer_id@,
            connection_handle: self.connection_handle@,
            valid_until: self.valid_until as int,
        }
    }
}

impl Clone for Offer {
    fn clone(&self) -> (res: Self)
        ensures
            res@ == self@,
    {
        Offer {
            transfer_id: self.transfer_id.clone(),
            connection_handle: self.connection_handle.clone(),
            valid_until: self.valid_until,
        }
    }
}

/// The offer a list of stored fields holds, if it holds one: a string
/// `transfer_id`, a string `connection_handle`, and a numeric `valid_until`
/// whose decimal text fits an `i64`.
pub open spec fn offer_of_record(fields: Seq<(String, AttrValue)>) -> Option<OfferView> {
    match assoc_lookup(fields, "transfer_id"@) {
        Some(AttrValue::S(t)) => match assoc_lookup(fields, "connection_handle"@) {
            Some(AttrValue::S(h)) => match assoc_lookup(fields, "valid_until"@) {
                Some(AttrValue::N(n)) => match parsed_i64(n@) {
                    Some(v) => Some(
                        OfferView {
                            transfer_id: t@,
                            connection_handle: h@,
                            valid_until: v,
                        },
                    ),
                    None => None,
                },
                _ => None,
            },
            _ => None,
        },
        _ => None,
    }
}

impl Offer {
    /// Reads an offer out of a stored record's fields; fails exactly when
    /// the record does not hold one.
    pub fn try_from(record: &Vec<(String, AttrValue)>) -> (r: Result<Offer, ()>)
        ensures
            match r {
                Ok(o) => offer_of_record(record@) == Some(o@),
                Err(_) => offer_of_record(record@) is None,
            },
    {
        let transfer_id: String = match assoc_first(record, "transfer_id") {
            Some(AttrValue::S(t)) => t.clone(),
            _ => {
                return Err(());
            },
        };
        let connection_handle: String = match assoc_first(record, "connection_handle") {
            Some(AttrValue::S(h)) => h.clone(),
            _ => {
                return Err(());
            },
        };
        let valid_until_text: &String = match assoc_first(record, "valid_until") {
            Some(AttrValue::N(n)) => n,
            _ => {
                return Err(());
            },
        };
        let valid_until: i64 = match parse_i64(valid_until_text.as_str()) {
            Some(v) => v,
            None => {
                return Err(());
            },
        };
        Ok(Offer { transfer_id, connection_handle, valid_until })
    }

    /// Writes the offer as stored fields that [`Offer::try_from`] reads back
    /// as the same offer.
    pub fn to_record(&self) -> (r: Vec<(String, AttrValue)>)
        ensures
            offer_of_record(r@) == Some(self@),
    {
        let mut record: Vec<(String, AttrValue)> = Vec::new();
        record.push(("transfer_id".to_owned(), AttrValue::S(self.transfer_id.clone())));
        record.push(("connection_handle".to_owned(), AttrValue::S(self.connection_handle.clone())));
        record.push(("valid_until".to_owned(), AttrValue::N(i64_to_decimal(self.valid_until))));
        proof {
            reveal_strlit("transfer_id");
            reveal_strlit("connection_handle");
            reveal_strlit("valid_until");
            let s0 = record@;
            let s1 = s0.drop_first();
            let s2 = s1.drop_first();
            assert(s0.len() == 3);
            assert(s1.len() == 2);
            assert(s2.len() == 1);
            assert(s1[0] == s0[1]);
            assert(s2[0] == s0[2]);
            assert(s0[0].0@ == "transfer_id"@);
            assert(s0[1].0@ == "connection_handle"@);
            assert(s0[2].0@ == "valid_until"@);
            assert("transfer_id"@[0] != "valid_until"@[0]);
            assert("transfer_id"@.len() != "connection_handle"@.len());
            assert("connection_handle"@.len() != "valid_until"@.len());
            assert(assoc_lookup(s0, "transfer_id"@) == Some(s0[0].1));
            assert(assoc_lookup(s0, "connection_handle"@) == assoc_lookup(s1, "connection_handle"@));
            assert(assoc_lookup(s1, "connection_handle"@) == Some(s1[0].1));
            assert(assoc_lookup(s0, "valid_until"@) == assoc_lookup(s1, "valid_until"@));
            assert(assoc_lookup(s1, "valid_until"@) == assoc_lookup(s2, "valid_until"@));
            assert(assoc_lookup(s2, "valid_until"@) == Some(s2[0].1));
        }
        record
    }

    /// True while the offer still counts at `now`: it expires strictly after
    /// its `valid_until` instant.
    pub fn is_live(&self, now: i64) -> (r: bool)
        ensures
            r == (now <= self@.valid_until),
    {
        now <= self.valid_until
    }
}

} // verus!
