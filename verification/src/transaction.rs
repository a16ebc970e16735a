//! Decoded change-sets, and the decoder and encoder of their wire format.

use crate::buffer::{bytes_seq, get_u16, get_u32, get_u8, remaining, split_to};
use crate::format::{
    decode_index, decode_relation, decode_table, decode_transaction, header_fault, index_extent,
    page_at, page_bytes, pages_bytes, relation_extent, table_extent, transaction_extent,
    tuple_at, tuple_bytes, tuples_bytes, RelationView, TransactionView, HEADER_LEN,
    INDEX_FIXED_LEN, INDEX_TAG, TABLE_FIXED_LEN, TABLE_TAG,
};
pub use crate::format::{DecodeError, Page, Tuple};
use crate::wire::{put_u16, put_u32};
use bytes::Bytes;
use vstd::prelude::*;

verus! {

/// The changed locations of one table or index.
#[derive(Clone, Debug, PartialEq, Eq)]
pub enum Relation {
    Table { oid: u32, commit_sequence_number: u32, tuples: Vec<Tuple> },
    Index { oid: u32, pages: Vec<Page> },
}

/// A decoded change-set: what one transaction changed, relation by
/// relation, in the order in which it is to be replayed. The wire format
/// carries one relation in a change-set.
#[derive(Clone, Debug, PartialEq, Eq)]
pub struct Transaction {
    pub database_id: u32,
    pub origin_xid: u32,
    pub relations: Vec<Relation>,
}

impl View for Relation {
    type V = RelationView;

    open spec fn view(&self) -> RelationView {
        match *self {
            Relation::Table { oid, commit_sequence_number, tuples } => RelationView::Table {
                oid,
                commit_sequence_number,
                tuples: tuples@,
            },
            Relation::Index { oid, pages } => RelationView::Index { oid, pages: pages@ },
        }
    }
}

impl View for Transaction {
    type V = TransactionView;

    open spec fn view(&self) -> TransactionView {
        TransactionView {
            database_id: self.database_id,
            origin_xid: self.origin_xid,
            relations: self.relations@.map_values(|r: Relation| r@),
        }
    }
}

/// Whether `got` is what `meant` asks for: the value that `meant` holds,
/// or its fault.
pub open spec fn relation_as_meant(
    got: Result<Relation, DecodeError>,
    meant: Result<RelationView, DecodeError>,
) -> bool {
    match meant {
        Ok(v) => got matches Ok(r) && r@ == v,
        Err(e) => got == Err::<Relation, DecodeError>(e),
    }
}

/// Whether `got` is what `meant` asks for: the value that `meant` holds,
/// or its fault.
pub open spec fn transaction_as_meant(
    got: Result<Transaction, DecodeError>,
    meant: Result<TransactionView, DecodeError>,
) -> bool {
    match meant {
        Ok(v) => got matches Ok(t) && t@ == v,
        Err(e) => got == Err::<Transaction, DecodeError>(e),
    }
}

impl Relation {
    /// Reads the record that `buf` holds, from its tag to the end of the
    /// buffer, which is the end of the payload.
    ///
    /// The result is what the format says of the bytes in `buf`. A sound
    /// record uses the buffer up; else the buffer loses the bytes read
    /// before the fault showed. An empty buffer is a truncated record.
    pub fn parse(buf: &mut Bytes) -> (r: Result<Relation, DecodeError>)
        ensures
            relation_as_meant(r, decode_relation(bytes_seq(*old(buf)))),
            bytes_seq(*final(buf)) == bytes_seq(*old(buf)).skip(
                relation_extent(bytes_seq(*old(buf))) as int,
            ),
    {
        let ghost s = bytes_seq(*buf);
        if remaining(buf) < 1 {
            assert(s.skip(0) =~= s);
            return Err(DecodeError::TruncatedRecord);
        }
        let tag = get_u8(buf);
        if tag == TABLE_TAG {
            let r = Self::parse_table(buf);
            assert(bytes_seq(*buf) =~= s.skip(relation_extent(s) as int));
            r
        } else if tag == INDEX_TAG {
            let r = Self::parse_index(buf);
            assert(bytes_seq(*buf) =~= s.skip(relation_extent(s) as int));
            r
        } else {
            Err(DecodeError::UnknownRelationKind(tag))
        }
    }

    /// Reads the body of a table record, the tag being read already.
    #[verifier::rlimit(40)]
    fn parse_table(buf: &mut Bytes) -> (r: Result<Relation, DecodeError>)
        ensures
            relation_as_meant(r, decode_table(bytes_seq(*old(buf)))),
            bytes_seq(*final(buf)) == bytes_seq(*old(buf)).skip(
                table_extent(bytes_seq(*old(buf))) as int,
            ),
    {
        let ghost s = bytes_seq(*buf);
        if remaining(buf) < TABLE_FIXED_LEN {
            assert(s.skip(0) =~= s);
            return Err(DecodeError::TruncatedRecord);
        }
        let oid = get_u32(buf);
        let commit_sequence_number = get_u32(buf);
        assert(bytes_seq(*buf) =~= s.skip(8));
        let left = remaining(buf);
        if left % 6 != 0 {
            return Err(DecodeError::TruncatedRecord);
        }
        let count = left / 6;
        let mut tuples: Vec<Tuple> = Vec::new();
        let mut i: usize = 0;
        while i < count
            invariant
                i <= count,
                s.len() == 8 + 6 * count,
                bytes_seq(*buf) == s.skip(8 + 6 * i),
                tuples@ == Seq::new(i as nat, |k: int| tuple_at(s, 8 + 6 * k)),
            decreases count - i,
        {
            let block_number = get_u32(buf);
            let offset = get_u16(buf);
            tuples.push(Tuple { block_number, offset });
            i = i + 1;
            assert(bytes_seq(*buf) =~= s.skip(8 + 6 * i));
            assert(tuples@ =~= Seq::new(i as nat, |k: int| tuple_at(s, 8 + 6 * k)));
        }
        Ok(Relation::Table { oid, commit_sequence_number, tuples })
    }

    /// Reads the body of an index record, the tag being read already.
    #[verifier::rlimit(40)]
    fn parse_index(buf: &mut Bytes) -> (r: Result<Relation, DecodeError>)
        ensures
            relation_as_meant(r, decode_index(bytes_seq(*old(buf)))),
            bytes_seq(*final(buf)) == bytes_seq(*old(buf)).skip(
                index_extent(bytes_seq(*old(buf))) as int,
            ),
    {
        let ghost s = bytes_seq(*buf);
        if remaining(buf) < INDEX_FIXED_LEN {
            assert(s.skip(0) =~= s);
            return Err(DecodeError::TruncatedRecord);
        }
        let oid = get_u32(buf);
        assert(bytes_seq(*buf) =~= s.skip(4));
        let left = remaining(buf);
        if left % 8 != 0 {
            return Err(DecodeError::TruncatedRecord);
        }
        let count = left / 8;
        let mut pages: Vec<Page> = Vec::new();
        let mut i: usize = 0;
        while i < count
            invariant
                i <= count,
                s.len() == 4 + 8 * count,
                bytes_seq(*buf) == s.skip(4 + 8 * i),
                pages@ == Seq::new(i as nat, |k: int| page_at(s, 4 + 8 * k)),
            decreases count - i,
        {
            let block_number = get_u32(buf);
            let commit_sequence_number = get_u32(buf);
            pages.push(Page { block_number, commit_sequence_number });
            i = i + 1;
            assert(bytes_seq(*buf) =~= s.skip(4 + 8 * i));
            assert(pages@ =~= Seq::new(i as nat, |k: int| page_at(s, 4 + 8 * k)));
        }
        Ok(Relation::Index { oid, pages })
    }

    /// Bytes that the record takes on the wire, where the header can
    /// declare that many.
    fn wire_length(&self) -> (r: Option<u32>)
        ensures
            match r {
                Some(n) => n == self@.wire_len(),
                None => self@.wire_len() > u32::MAX,
            },
    {
        let (count, fixed, each): (usize, u64, u64) = match self {
            Relation::Table { tuples, .. } => (tuples.len(), 9, 6),
            Relation::Index { pages, .. } => (pages.len(), 5, 8),
        };
        if count > 0xffff_ffff {
            return None;
        }
        let total: u64 = fixed + each * (count as u64);
        if total > 0xffff_ffff {
            None
        } else {
            Some(total as u32)
        }
    }

    /// Appends the record to `out`.
    #[verifier::rlimit(40)]
    fn encode_into(&self, out: &mut Vec<u8>)
        ensures
            final(out)@ == old(out)@ + self@.encode(),
    {
        match self {
            Relation::Table { oid, commit_sequence_number, tuples } => {
                out.push(TABLE_TAG);
                put_u32(out, *oid);
                put_u32(out, *commit_sequence_number);
                let ghost base = out@;
                let mut i: usize = 0;
                assert(tuples_bytes(tuples@.take(0)) =~= Seq::<u8>::empty());
                assert(base + Seq::<u8>::empty() =~= base);
                while i < tuples.len()
                    invariant
                        i <= tuples.len(),
                        out@ == base + tuples_bytes(tuples@.take(i as int)),
                    decreases tuples.len() - i,
                {
                    let t = tuples[i];
                    let ghost before = out@;
                    put_u32(out, t.block_number);
                    put_u16(out, t.offset);
                    assert(out@ =~= before + tuple_bytes(t));
                    assert(tuples_bytes(tuples@.take(i + 1)) =~= tuples_bytes(
                        tuples@.take(i as int),
                    ) + tuple_bytes(t));
                    i = i + 1;
                }
                assert(tuples@.take(i as int) =~= tuples@);
                assert(out@ =~= old(out)@ + self@.encode());
            },
            Relation::Index { oid, pages } => {
                out.push(INDEX_TAG);
                put_u32(out, *oid);
                let ghost base = out@;
                let mut i: usize = 0;
                assert(pages_bytes(pages@.take(0)) =~= Seq::<u8>::empty());
                assert(base + Seq::<u8>::empty() =~= base);
                while i < pages.len()
                    invariant
                        i <= pages.len(),
                        out@ == base + pages_bytes(pages@.take(i as int)),
                    decreases pages.len() - i,
                {
                    let p = pages[i];
                    let ghost before = out@;
                    put_u32(out, p.block_number);
                    put_u32(out, p.commit_sequence_number);
                    assert(out@ =~= before + page_bytes(p));
                    assert(pages_bytes(pages@.take(i + 1)) =~= pages_bytes(pages@.take(i as int))
                        + page_bytes(p));
                    i = i + 1;
                }
                assert(pages@.take(i as int) =~= pages@);
                assert(out@ =~= old(out)@ + self@.encode());
            },
        }
    }
}

impl Transaction {
    /// Encodes the transaction in the wire format.
    ///
    /// Returns the bytes that the format gives a valid transaction, and
    /// nothing for one that the format cannot carry: one that names no
    /// relation or more than one, or whose record is too long for the
    /// header to declare.
    pub fn encode(&self) -> (r: Option<Vec<u8>>)
        ensures
            match r {
                Some(out) => self@.valid() && out@ == self@.encode(),
                None => !self@.valid(),
            },
    {
        if self.relations.len() != 1 {
            return None;
        }
        assert(self@.relations[0] == self.relations[0]@);
        let length = match self.relations[0].wire_length() {
            Some(n) => n,
            None => {
                return None;
            },
        };
        let mut out: Vec<u8> = Vec::new();
        put_u32(&mut out, self.database_id);
        put_u32(&mut out, self.origin_xid);
        put_u32(&mut out, length);
        self.relations[0].encode_into(&mut out);
        assert(out@ =~= self@.encode());
        Some(out)
    }

    /// Decodes the change-set in `buf`.
    ///
    /// The result is what the format says of the bytes in `buf`: the
    /// transaction they encode, which names one relation, or the first
    /// fault in them. Nothing is read where the header is short, the header
    /// alone where the declared payload length is not the length of what
    /// follows, else everything.
    pub fn read(buf: &mut Bytes) -> (r: Result<Transaction, DecodeError>)
        ensures
            transaction_as_meant(r, decode_transaction(bytes_seq(*old(buf)))),
            r matches Ok(t) ==> t.relations@.len() == 1,
            bytes_seq(*final(buf)) == bytes_seq(*old(buf)).skip(
                transaction_extent(bytes_seq(*old(buf))) as int,
            ),
    {
        let ghost s = bytes_seq(*buf);
        if remaining(buf) < HEADER_LEN {
            assert(s.skip(0) =~= s);
            return Err(DecodeError::TruncatedHeader);
        }
        let database_id = get_u32(buf);
        let origin_xid = get_u32(buf);
        let payload_length = get_u32(buf);
        assert(bytes_seq(*buf) =~= s.skip(12));
        let left = remaining(buf);
        if (left as u64) < (payload_length as u64) {
            return Err(DecodeError::TruncatedPayload);
        }
        if (left as u64) > (payload_length as u64) {
            return Err(DecodeError::TrailingBytes);
        }
        if left == 0 {
            return Err(DecodeError::EmptyPayload);
        }
        assert(header_fault(s) is None);
        let mut payload = split_to(buf, left);
        assert(bytes_seq(payload) =~= s.skip(12));
        assert(bytes_seq(*buf) =~= s.skip(s.len() as int));
        match Relation::parse(&mut payload) {
            Err(e) => Err(e),
            Ok(relation) => {
                let mut relations: Vec<Relation> = Vec::new();
                relations.push(relation);
                assert(relations@.map_values(|r: Relation| r@) =~= seq![relation@]);
                Ok(Transaction { database_id, origin_xid, relations })
            },
        }
    }
}

} // verus!
