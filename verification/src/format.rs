//! The change-set wire format, as mathematics.
//!
//! ```text
//! header:  database_id: u32 | origin_xid: u32 | payload_length: u32
//! payload: one record, payload_length bytes
//! record:  tag: u8 | body
//!   'T' body: oid: u32 | commit_sequence_number: u32
//!             tuples: { block_number: u32, offset: u16 }, to the end of the payload
//!   'I' body: oid: u32
//!             pages: { block_number: u32, commit_sequence_number: u32 }, to the end
//! ```
//!
//! All integers are big-endian. A record holds neither a count nor a
//! length: its tuples or pages fill what the payload leaves of it. So the
//! bytes cannot say where a record ends other than by the end of the
//! payload, and a payload carries one record. A transaction that names
//! several relations has no encoding; it travels as one change-set for
//! each relation.
//!
//! `encode` says which bytes stand for a value; `decode_transaction` says
//! what every byte string means, the malformed ones included.

use crate::text::{decimal, decimal_string};
use crate::wire::{u16_at, u16_bytes, u32_at, u32_bytes};
use vstd::prelude::*;
use vstd::string::StringExecFns;

verus! {

/// Tag byte of a table record, the letter `T`.
pub const TABLE_TAG: u8 = 0x54;

/// Tag byte of an index record, the letter `I`.
pub const INDEX_TAG: u8 = 0x49;

/// Bytes in the fixed header of a change-set.
pub const HEADER_LEN: usize = 12;

/// Bytes in the fixed part of a table record's body.
pub const TABLE_FIXED_LEN: usize = 8;

/// Bytes in the fixed part of an index record's body.
pub const INDEX_FIXED_LEN: usize = 4;


/// A row slot that a transaction changed.
#[derive(Clone, Copy, Debug, PartialEq, Eq)]
pub struct Tuple {
    pub block_number: u32,
    pub offset: u16,
}

/// An index page that becomes visible as of a commit sequence number.
#[derive(Clone, Copy, Debug, PartialEq, Eq)]
pub struct Page {
    pub block_number: u32,
    pub commit_sequence_number: u32,
}

/// Why a byte string is not a change-set.
#[derive(Clone, Copy, Debug, PartialEq, Eq)]
pub enum DecodeError {
    /// Fewer bytes than the fixed header.
    TruncatedHeader,
    /// The header declares more payload than follows it.
    TruncatedPayload,
    /// The header declares less payload than follows it.
    TrailingBytes,
    /// The payload holds nothing.
    EmptyPayload,
    /// A record starts with a tag that is neither `T` nor `I`.
    UnknownRelationKind(u8),
    /// A record ends within its fixed part, or within a tuple or page.
    TruncatedRecord,
}

impl DecodeError {
    /// What `message` says.
    pub open spec fn message_text(self) -> Seq<char> {
        match self {
            DecodeError::TruncatedHeader => "buffer too short"@,
            DecodeError::TruncatedPayload => "read section too short"@,
            DecodeError::TrailingBytes => "bytes after the read section"@,
            DecodeError::EmptyPayload => "read section is empty"@,
            DecodeError::UnknownRelationKind(tag) => "invalid relation type: "@ + decimal(
                tag as nat,
            ),
            DecodeError::TruncatedRecord => "relation record too short"@,
        }
    }

    /// The fault in words; an unknown tag is named by its number.
    pub fn message(&self) -> (r: String)
        ensures
            r@ == self.message_text(),
    {
        match self {
            DecodeError::TruncatedHeader => String::from_str("buffer too short"),
            DecodeError::TruncatedPayload => String::from_str("read section too short"),
            DecodeError::TrailingBytes => String::from_str("bytes after the read section"),
            DecodeError::EmptyPayload => String::from_str("read section is empty"),
            DecodeError::UnknownRelationKind(tag) => {
                let mut out = String::from_str("invalid relation type: ");
                let number = decimal_string(*tag as u64);
                out.append(number.as_str());
                out
            },
            DecodeError::TruncatedRecord => String::from_str("relation record too short"),
        }
    }
}

/// What a `Relation` is: the changed locations of one table or index.
pub enum RelationView {
    Table { oid: u32, commit_sequence_number: u32, tuples: Seq<Tuple> },
    Index { oid: u32, pages: Seq<Page> },
}

/// What a `Transaction` is.
pub struct TransactionView {
    pub database_id: u32,
    pub origin_xid: u32,
    pub relations: Seq<RelationView>,
}

/// The six bytes of a tuple.
pub open spec fn tuple_bytes(t: Tuple) -> Seq<u8> {
    u32_bytes(t.block_number) + u16_bytes(t.offset)
}

/// The eight bytes of a page.
pub open spec fn page_bytes(p: Page) -> Seq<u8> {
    u32_bytes(p.block_number) + u32_bytes(p.commit_sequence_number)
}

/// The tuples of a table record, one after the other.
pub open spec fn tuples_bytes(ts: Seq<Tuple>) -> Seq<u8> {
    Seq::new(6 * ts.len(), |j: int| tuple_bytes(ts[j / 6])[j % 6])
}

/// The pages of an index record, one after the other.
pub open spec fn pages_bytes(ps: Seq<Page>) -> Seq<u8> {
    Seq::new(8 * ps.len(), |j: int| page_bytes(ps[j / 8])[j % 8])
}

/// The tuple in the six bytes of `s` that start at `at`.
pub open spec fn tuple_at(s: Seq<u8>, at: int) -> Tuple {
    Tuple { block_number: u32_at(s, at), offset: u16_at(s, at + 4) }
}

/// The page in the eight bytes of `s` that start at `at`.
pub open spec fn page_at(s: Seq<u8>, at: int) -> Page {
    Page { block_number: u32_at(s, at), commit_sequence_number: u32_at(s, at + 4) }
}

impl RelationView {
    /// The byte that a record of this kind starts with.
    pub open spec fn tag(self) -> u8 {
        match self {
            RelationView::Table { .. } => TABLE_TAG,
            RelationView::Index { .. } => INDEX_TAG,
        }
    }

    /// Bytes that the record takes on the wire, its tag included.
    pub open spec fn wire_len(self) -> nat {
        match self {
            RelationView::Table { tuples, .. } => 9 + 6 * tuples.len(),
            RelationView::Index { pages, .. } => 5 + 8 * pages.len(),
        }
    }

    /// The record on the wire.
    pub open spec fn encode(self) -> Seq<u8> {
        match self {
            RelationView::Table { oid, commit_sequence_number, tuples } => seq![TABLE_TAG]
                + u32_bytes(oid) + u32_bytes(commit_sequence_number) + tuples_bytes(tuples),
            RelationView::Index { oid, pages } => seq![INDEX_TAG] + u32_bytes(oid) + pages_bytes(
                pages,
            ),
        }
    }
}

impl TransactionView {
    /// Whether the wire format can carry the transaction: it names one
    /// relation, and the length of the record fits the header's 32-bit
    /// field.
    pub open spec fn valid(self) -> bool {
        &&& self.relations.len() == 1
        &&& self.relations[0].wire_len() <= u32::MAX
    }

    /// The transaction on the wire.
    pub open spec fn encode(self) -> Seq<u8> {
        u32_bytes(self.database_id) + u32_bytes(self.origin_xid) + u32_bytes(
            self.relations[0].wire_len() as u32,
        ) + self.relations[0].encode()
    }
}

/// What the body of a table record means; `body` is what follows the
/// tag, to the end of the record.
pub open spec fn decode_table(body: Seq<u8>) -> Result<RelationView, DecodeError> {
    if body.len() < 8 {
        Err(DecodeError::TruncatedRecord)
    } else if (body.len() - 8) % 6 != 0 {
        Err(DecodeError::TruncatedRecord)
    } else {
        Ok(
            RelationView::Table {
                oid: u32_at(body, 0),
                commit_sequence_number: u32_at(body, 4),
                tuples: Seq::new(((body.len() - 8) / 6) as nat, |i: int| tuple_at(body, 8 + 6 * i)),
            },
        )
    }
}

/// What the body of an index record means; `body` is what follows the
/// tag, to the end of the record.
pub open spec fn decode_index(body: Seq<u8>) -> Result<RelationView, DecodeError> {
    if body.len() < 4 {
        Err(DecodeError::TruncatedRecord)
    } else if (body.len() - 4) % 8 != 0 {
        Err(DecodeError::TruncatedRecord)
    } else {
        Ok(
            RelationView::Index {
                oid: u32_at(body, 0),
                pages: Seq::new(((body.len() - 4) / 8) as nat, |i: int| page_at(body, 4 + 8 * i)),
            },
        )
    }
}

/// What a record means; `s` is the record from its tag to its end.
pub open spec fn decode_relation(s: Seq<u8>) -> Result<RelationView, DecodeError> {
    if s.len() == 0 {
        Err(DecodeError::TruncatedRecord)
    } else if s[0] == TABLE_TAG {
        decode_table(s.skip(1))
    } else if s[0] == INDEX_TAG {
        decode_index(s.skip(1))
    } else {
        Err(DecodeError::UnknownRelationKind(s[0]))
    }
}

/// Bytes that reading a table body takes from `body`: all of it where it
/// is sound, else the part that was read before the fault showed.
pub open spec fn table_extent(body: Seq<u8>) -> nat {
    if body.len() < 8 {
        0
    } else if (body.len() - 8) % 6 != 0 {
        8
    } else {
        body.len()
    }
}

/// Bytes that reading an index body takes from `body`.
pub open spec fn index_extent(body: Seq<u8>) -> nat {
    if body.len() < 4 {
        0
    } else if (body.len() - 4) % 8 != 0 {
        4
    } else {
        body.len()
    }
}

/// Bytes that reading a record takes from `s`.
pub open spec fn relation_extent(s: Seq<u8>) -> nat {
    if s.len() == 0 {
        0
    } else if s[0] == TABLE_TAG {
        1 + table_extent(s.skip(1))
    } else if s[0] == INDEX_TAG {
        1 + index_extent(s.skip(1))
    } else {
        1
    }
}

/// Why the header of `s` cannot be taken, if it cannot: it is cut off,
/// or the payload length it declares is not the length of what follows,
/// or it declares no payload.
pub open spec fn header_fault(s: Seq<u8>) -> Option<DecodeError> {
    if s.len() < 12 {
        Some(DecodeError::TruncatedHeader)
    } else if s.len() - 12 < u32_at(s, 8) {
        Some(DecodeError::TruncatedPayload)
    } else if s.len() - 12 > u32_at(s, 8) {
        Some(DecodeError::TrailingBytes)
    } else if s.len() == 12 {
        Some(DecodeError::EmptyPayload)
    } else {
        None
    }
}

/// What a byte string means as a change-set.
pub open spec fn decode_transaction(s: Seq<u8>) -> Result<TransactionView, DecodeError> {
    match header_fault(s) {
        Some(e) => Err(e),
        None => match decode_relation(s.skip(12)) {
            Err(e) => Err(e),
            Ok(r) => Ok(
                TransactionView {
                    database_id: u32_at(s, 0),
                    origin_xid: u32_at(s, 4),
                    relations: seq![r],
                },
            ),
        },
    }
}

/// Bytes that reading a change-set takes from `s`: nothing where the
/// header is short, the header alone where the payload length is wrong,
/// else everything.
pub open spec fn transaction_extent(s: Seq<u8>) -> nat {
    if s.len() < 12 {
        0
    } else if header_fault(s) is Some {
        12
    } else {
        s.len()
    }
}

} // verus!
