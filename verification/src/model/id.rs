//! Document identifiers and creation times as the document store knows them.

use vstd::prelude::*;

use crate::hex;

verus! {

/// A point in time, in milliseconds since the Unix epoch.
#[derive(Clone, Copy, Debug, PartialEq, Eq, Structural)]
pub struct Timestamp {
    pub millis: i64,
}

/// The twelve bytes that identify a document.
#[derive(Clone, Copy, Debug, PartialEq, Eq)]
pub struct DocumentId {
    pub bytes: [u8; 12],
}

/// What a written identifier stands for: twelve bytes spelled as 24
/// hexadecimal digits of either case.
pub open spec fn parse_spec(text: Seq<char>) -> Option<Seq<u8>> {
    match hex::decode(text) {
        Some(bytes) => if bytes.len() == 12 {
            Some(bytes)
        } else {
            None
        },
        None => None,
    }
}

/// Calls `mongodb::bson::oid::ObjectId::new` and hands out its bytes. The
/// driver builds them from the clock, a per-process random value and a counter,
/// so nothing is promised of them.
#[verifier::external_body]
fn fresh_object_id() -> (bytes: [u8; 12]) {
    mongodb::bson::oid::ObjectId::new().bytes()
}

/// Calls `mongodb::bson::oid::ObjectId::parse_str`, which decodes the text as
/// hexadecimal and accepts it when exactly twelve bytes come out.
#[verifier::external_body]
fn object_id_bytes(text: &str) -> (parsed: Option<[u8; 12]>)
    ensures
        match parsed {
            Some(bytes) => parse_spec(text@) == Some(bytes@),
            None => parse_spec(text@) is None,
        },
{
    match mongodb::bson::oid::ObjectId::parse_str(text) {
        Ok(id) => Some(id.bytes()),
        Err(_) => None,
    }
}

/// Calls `mongodb::bson::oid::ObjectId::to_hex`, which writes each byte as two
/// lower-case hexadecimal digits.
#[verifier::external_body]
fn object_id_hex(bytes: [u8; 12]) -> (text: String)
    ensures
        text@ == hex::encode(bytes@),
{
    mongodb::bson::oid::ObjectId::from_bytes(bytes).to_hex()
}

/// Calls `mongodb::bson::DateTime::now` and hands out its milliseconds. It
/// reads the system clock, so nothing is promised of the result.
#[verifier::external_body]
fn clock_millis() -> (millis: i64) {
    mongodb::bson::DateTime::now().timestamp_millis()
}

impl Timestamp {
    /// The current time of the system clock.
    pub(crate) fn now() -> Timestamp {
        Timestamp { millis: clock_millis() }
    }
}

impl DocumentId {
    /// A fresh identifier.
    pub(crate) fn generate() -> DocumentId {
        DocumentId { bytes: fresh_object_id() }
    }

    /// Reads an identifier from its written form.
    pub fn parse_str(text: &str) -> (parsed: Option<DocumentId>)
        ensures
            match parsed {
                Some(id) => parse_spec(text@) == Some(id.bytes@),
                None => parse_spec(text@) is None,
            },
    {
        match object_id_bytes(text) {
            Some(bytes) => Some(DocumentId { bytes }),
            None => None,
        }
    }

    /// The written form of the identifier: 24 lower-case hexadecimal digits.
    pub fn to_hex(&self) -> (text: String)
        ensures
            text@ == hex::encode(self.bytes@),
            text@.len() == 24,
    {
        object_id_hex(self.bytes)
    }
}

/// An identifier that was written out reads back as itself.
pub proof fn lemma_written_id_reads_back(bytes: Seq<u8>)
    requires
        bytes.len() == 12,
    ensures
        parse_spec(hex::encode(bytes)) == Some(bytes),
{
    hex::lemma_decode_encode(bytes);
}

} // verus!
