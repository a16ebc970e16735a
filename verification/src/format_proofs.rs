//! What holds of the wire format: decoding undoes encoding, a cut-off
//! change-set is refused, and so is one with a foreign record tag.

use crate::format::{
    decode_relation, decode_transaction, header_fault, page_at, page_bytes, pages_bytes,
    relation_extent, tuple_at, tuple_bytes, tuples_bytes, DecodeError, Page, RelationView,
    TransactionView, Tuple, INDEX_TAG, TABLE_TAG,
};
use crate::wire::{
    lemma_u16_bytes_of_read, lemma_u16_round_trip, lemma_u32_bytes_of_read, lemma_u32_round_trip,
    u16_at, u16_bytes, u32_at, u32_bytes,
};
use vstd::prelude::*;

verus! {

/// A 32-bit number is read back from where its four bytes stand.
proof fn lemma_u32_read_back(s: Seq<u8>, at: int, v: u32)
    requires
        0 <= at,
        at + 4 <= s.len(),
        s.subrange(at, at + 4) == u32_bytes(v),
    ensures
        u32_at(s, at) == v,
{
    lemma_u32_round_trip(v);
    let part = s.subrange(at, at + 4);
    assert(s[at] == part[0]);
    assert(s[at + 1] == part[1]);
    assert(s[at + 2] == part[2]);
    assert(s[at + 3] == part[3]);
}

/// A 16-bit number is read back from where its two bytes stand.
proof fn lemma_u16_read_back(s: Seq<u8>, at: int, v: u16)
    requires
        0 <= at,
        at + 2 <= s.len(),
        s.subrange(at, at + 2) == u16_bytes(v),
    ensures
        u16_at(s, at) == v,
{
    lemma_u16_round_trip(v);
    let part = s.subrange(at, at + 2);
    assert(s[at] == part[0]);
    assert(s[at + 1] == part[1]);
}

/// A tuple is read back from where its six bytes stand.
proof fn lemma_tuple_read_back(s: Seq<u8>, at: int, t: Tuple)
    requires
        0 <= at,
        at + 6 <= s.len(),
        s.subrange(at, at + 6) == tuple_bytes(t),
    ensures
        tuple_at(s, at) == t,
{
    let part = s.subrange(at, at + 6);
    assert(s.subrange(at, at + 4) =~= part.subrange(0, 4));
    assert(part.subrange(0, 4) =~= u32_bytes(t.block_number));
    lemma_u32_read_back(s, at, t.block_number);
    assert(s.subrange(at + 4, at + 6) =~= part.subrange(4, 6));
    assert(part.subrange(4, 6) =~= u16_bytes(t.offset));
    lemma_u16_read_back(s, at + 4, t.offset);
}

/// A page is read back from where its eight bytes stand.
proof fn lemma_page_read_back(s: Seq<u8>, at: int, p: Page)
    requires
        0 <= at,
        at + 8 <= s.len(),
        s.subrange(at, at + 8) == page_bytes(p),
    ensures
        page_at(s, at) == p,
{
    let part = s.subrange(at, at + 8);
    assert(s.subrange(at, at + 4) =~= part.subrange(0, 4));
    assert(part.subrange(0, 4) =~= u32_bytes(p.block_number));
    lemma_u32_read_back(s, at, p.block_number);
    assert(s.subrange(at + 4, at + 8) =~= part.subrange(4, 8));
    assert(part.subrange(4, 8) =~= u32_bytes(p.commit_sequence_number));
    lemma_u32_read_back(s, at + 4, p.commit_sequence_number);
}

/// Tuple `i` takes the six bytes from `6 * i` on.
proof fn lemma_tuple_in_tuples(ts: Seq<Tuple>, i: int)
    requires
        0 <= i < ts.len(),
    ensures
        tuples_bytes(ts).len() == 6 * ts.len(),
        tuples_bytes(ts).subrange(6 * i, 6 * i + 6) == tuple_bytes(ts[i]),
{
    let part = tuples_bytes(ts).subrange(6 * i, 6 * i + 6);
    assert forall|k: int| 0 <= k < 6 implies part[k] == tuple_bytes(ts[i])[k] by {
        let j = 6 * i + k;
        assert(j / 6 == i && j % 6 == k);
    }
    assert(part =~= tuple_bytes(ts[i]));
}

/// Page `i` takes the eight bytes from `8 * i` on.
proof fn lemma_page_in_pages(ps: Seq<Page>, i: int)
    requires
        0 <= i < ps.len(),
    ensures
        pages_bytes(ps).len() == 8 * ps.len(),
        pages_bytes(ps).subrange(8 * i, 8 * i + 8) == page_bytes(ps[i]),
{
    let part = pages_bytes(ps).subrange(8 * i, 8 * i + 8);
    assert forall|k: int| 0 <= k < 8 implies part[k] == page_bytes(ps[i])[k] by {
        let j = 8 * i + k;
        assert(j / 8 == i && j % 8 == k);
    }
    assert(part =~= page_bytes(ps[i]));
}

/// The tuples are read back from where their bytes stand.
proof fn lemma_tuples_read_back(s: Seq<u8>, at: int, ts: Seq<Tuple>)
    requires
        0 <= at,
        at + 6 * ts.len() <= s.len(),
        s.subrange(at, at + 6 * ts.len()) == tuples_bytes(ts),
    ensures
        Seq::new(ts.len(), |i: int| tuple_at(s, at + 6 * i)) == ts,
{
    let all = s.subrange(at, at + 6 * ts.len());
    assert forall|i: int| 0 <= i < ts.len() implies #[trigger] tuple_at(s, at + 6 * i)
        == ts[i] by {
        lemma_tuple_in_tuples(ts, i);
        assert(s.subrange(at + 6 * i, at + 6 * i + 6) =~= all.subrange(6 * i, 6 * i + 6));
        lemma_tuple_read_back(s, at + 6 * i, ts[i]);
    }
    assert(Seq::new(ts.len(), |i: int| tuple_at(s, at + 6 * i)) =~= ts);
}

/// The pages are read back from where their bytes stand.
proof fn lemma_pages_read_back(s: Seq<u8>, at: int, ps: Seq<Page>)
    requires
        0 <= at,
        at + 8 * ps.len() <= s.len(),
        s.subrange(at, at + 8 * ps.len()) == pages_bytes(ps),
    ensures
        Seq::new(ps.len(), |i: int| page_at(s, at + 8 * i)) == ps,
{
    let all = s.subrange(at, at + 8 * ps.len());
    assert forall|i: int| 0 <= i < ps.len() implies #[trigger] page_at(s, at + 8 * i) == ps[i] by {
        lemma_page_in_pages(ps, i);
        assert(s.subrange(at + 8 * i, at + 8 * i + 8) =~= all.subrange(8 * i, 8 * i + 8));
        lemma_page_read_back(s, at + 8 * i, ps[i]);
    }
    assert(Seq::new(ps.len(), |i: int| page_at(s, at + 8 * i)) =~= ps);
}

/// An encoded table record, part by part.
#[verifier::rlimit(40)]
proof fn lemma_table_layout(oid: u32, csn: u32, tuples: Seq<Tuple>)
    ensures
        ({
            let r = RelationView::Table { oid, commit_sequence_number: csn, tuples };
            let s = r.encode();
            let body = s.skip(1);
            &&& s.len() == 9 + 6 * tuples.len()
            &&& s[0] == TABLE_TAG
            &&& body.len() == 8 + 6 * tuples.len()
            &&& body.subrange(0, 4) == u32_bytes(oid)
            &&& body.subrange(4, 8) == u32_bytes(csn)
            &&& body.subrange(8, 8 + 6 * tuples.len() as int) == tuples_bytes(tuples)
        }),
{
    let r = RelationView::Table { oid, commit_sequence_number: csn, tuples };
    let s = r.encode();
    let body = s.skip(1);
    assert(body.subrange(0, 4) =~= u32_bytes(oid));
    assert(body.subrange(4, 8) =~= u32_bytes(csn));
    assert(body.subrange(8, 8 + 6 * tuples.len() as int) =~= tuples_bytes(tuples));
}

/// An encoded index record, part by part.
#[verifier::rlimit(40)]
proof fn lemma_index_layout(oid: u32, pages: Seq<Page>)
    ensures
        ({
            let r = RelationView::Index { oid, pages };
            let s = r.encode();
            let body = s.skip(1);
            &&& s.len() == 5 + 8 * pages.len()
            &&& s[0] == INDEX_TAG
            &&& body.len() == 4 + 8 * pages.len()
            &&& body.subrange(0, 4) == u32_bytes(oid)
            &&& body.subrange(4, 4 + 8 * pages.len() as int) == pages_bytes(pages)
        }),
{
    let r = RelationView::Index { oid, pages };
    let s = r.encode();
    let body = s.skip(1);
    assert(body.subrange(0, 4) =~= u32_bytes(oid));
    assert(body.subrange(4, 4 + 8 * pages.len() as int) =~= pages_bytes(pages));
}

/// A record is read back from its encoding, whatever its tuples or pages
/// and however many, and the reading takes all of its bytes.
#[verifier::rlimit(40)]
pub proof fn lemma_relation_round_trip(r: RelationView)
    ensures
        r.encode().len() == r.wire_len(),
        r.wire_len() >= 5,
        r.encode()[0] == r.tag(),
        decode_relation(r.encode()) == Ok::<RelationView, DecodeError>(r),
        relation_extent(r.encode()) == r.wire_len(),
{
    let s = r.encode();
    let body = s.skip(1);
    match r {
        RelationView::Table { oid, commit_sequence_number, tuples } => {
            lemma_table_layout(oid, commit_sequence_number, tuples);
            let n = tuples.len() as int;
            assert((body.len() - 8) % 6 == 0 && (body.len() - 8) / 6 == n) by {
                assert(body.len() - 8 == 6 * n);
            }
            lemma_u32_read_back(body, 0, oid);
            lemma_u32_read_back(body, 4, commit_sequence_number);
            lemma_tuples_read_back(body, 8, tuples);
        },
        RelationView::Index { oid, pages } => {
            lemma_index_layout(oid, pages);
            let n = pages.len() as int;
            assert((body.len() - 4) % 8 == 0 && (body.len() - 4) / 8 == n) by {
                assert(body.len() - 4 == 8 * n);
            }
            lemma_u32_read_back(body, 0, oid);
            lemma_pages_read_back(body, 4, pages);
        },
    }
}

/// The header of an encoded transaction is read back from it, and its
/// record follows the header.
proof fn lemma_header_round_trip(t: TransactionView)
    requires
        t.valid(),
    ensures
        t.encode().len() == 12 + t.relations[0].wire_len(),
        t.relations[0].wire_len() >= 5,
        u32_at(t.encode(), 0) == t.database_id,
        u32_at(t.encode(), 4) == t.origin_xid,
        u32_at(t.encode(), 8) == t.relations[0].wire_len(),
        t.encode().skip(12) == t.relations[0].encode(),
        t.encode()[12] == t.relations[0].tag(),
        header_fault(t.encode()) is None,
{
    let s = t.encode();
    let r = t.relations[0];
    let n = r.wire_len() as u32;
    lemma_relation_round_trip(r);
    assert(s.len() == 12 + r.encode().len());
    assert(s.subrange(0, 4) =~= u32_bytes(t.database_id));
    assert(s.subrange(4, 8) =~= u32_bytes(t.origin_xid));
    assert(s.subrange(8, 12) =~= u32_bytes(n));
    assert(s.skip(12) =~= r.encode());
    assert(s[12] == s.skip(12)[0]);
    lemma_u32_read_back(s, 0, t.database_id);
    lemma_u32_read_back(s, 4, t.origin_xid);
    lemma_u32_read_back(s, 8, n);
}

/// Decoding undoes encoding: the bytes that the format gives a valid
/// transaction mean that transaction, field for field, whichever kind of
/// relation it names, and with or without tuples or pages in it.
pub proof fn lemma_decode_encode(t: TransactionView)
    requires
        t.valid(),
    ensures
        decode_transaction(t.encode()) == Ok::<TransactionView, DecodeError>(t),
{
    lemma_header_round_trip(t);
    lemma_relation_round_trip(t.relations[0]);
    assert(seq![t.relations[0]] =~= t.relations);
    assert(t == TransactionView {
        database_id: t.database_id,
        origin_xid: t.origin_xid,
        relations: t.relations,
    });
}

/// A cut-off change-set is refused: every proper prefix of the encoding of
/// a valid transaction is a truncated header where fewer than twelve bytes
/// are left, and a truncated payload otherwise.
pub proof fn lemma_truncated_is_refused(t: TransactionView, k: int)
    requires
        t.valid(),
        0 <= k < t.encode().len(),
    ensures
        decode_transaction(t.encode().take(k)) == Err::<TransactionView, DecodeError>(
            if k < 12 {
                DecodeError::TruncatedHeader
            } else {
                DecodeError::TruncatedPayload
            },
        ),
{
    lemma_header_round_trip(t);
    if k >= 12 {
        assert(u32_at(t.encode().take(k), 8) == u32_at(t.encode(), 8));
    }
}

/// Where the tag of the record stands in a change-set: behind the
/// header.
pub open spec fn tag_position() -> int {
    12
}

/// A foreign record tag is refused: put any byte but `T` and `I` in the
/// place of the relation's tag in the encoding of a valid transaction, and
/// the bytes are refused as holding a relation of unknown kind, named by
/// that byte.
pub proof fn lemma_foreign_tag_is_refused(t: TransactionView, tag: u8)
    requires
        t.valid(),
        tag != TABLE_TAG,
        tag != INDEX_TAG,
    ensures
        tag_position() < t.encode().len(),
        t.encode()[tag_position()] == t.relations[0].tag(),
        decode_transaction(t.encode().update(tag_position(), tag)) == Err::<
            TransactionView,
            DecodeError,
        >(DecodeError::UnknownRelationKind(tag)),
{
    let s = t.encode();
    lemma_header_round_trip(t);
    let changed = s.update(12, tag);
    assert(u32_at(changed, 8) == u32_at(s, 8));
    assert(header_fault(changed) is None);
    assert(changed.skip(12)[0] == tag);
}

/// Every tag but `T` and `I` is refused wherever a record is read: bytes
/// that start with another byte are a relation of unknown kind, named by
/// that byte.
pub proof fn lemma_unknown_kind(s: Seq<u8>)
    requires
        s.len() > 0,
        s[0] != TABLE_TAG,
        s[0] != INDEX_TAG,
    ensures
        decode_relation(s) == Err::<RelationView, DecodeError>(
            DecodeError::UnknownRelationKind(s[0]),
        ),
{
}

/// The four bytes at `at` are the layout of the number read there.
proof fn lemma_u32_bytes_at(s: Seq<u8>, at: int)
    requires
        0 <= at,
        at + 4 <= s.len(),
    ensures
        u32_bytes(u32_at(s, at)) == s.subrange(at, at + 4),
{
    lemma_u32_bytes_of_read(s[at], s[at + 1], s[at + 2], s[at + 3]);
    assert(s.subrange(at, at + 4) =~= seq![s[at], s[at + 1], s[at + 2], s[at + 3]]);
}

/// The two bytes at `at` are the layout of the number read there.
proof fn lemma_u16_bytes_at(s: Seq<u8>, at: int)
    requires
        0 <= at,
        at + 2 <= s.len(),
    ensures
        u16_bytes(u16_at(s, at)) == s.subrange(at, at + 2),
{
    lemma_u16_bytes_of_read(s[at], s[at + 1]);
    assert(s.subrange(at, at + 2) =~= seq![s[at], s[at + 1]]);
}

/// The six bytes at `at` are the layout of the tuple read there.
proof fn lemma_tuple_bytes_at(s: Seq<u8>, at: int)
    requires
        0 <= at,
        at + 6 <= s.len(),
    ensures
        tuple_bytes(tuple_at(s, at)) == s.subrange(at, at + 6),
{
    lemma_u32_bytes_at(s, at);
    lemma_u16_bytes_at(s, at + 4);
    assert(s.subrange(at, at + 4) + s.subrange(at + 4, at + 6) =~= s.subrange(at, at + 6));
}

/// The eight bytes at `at` are the layout of the page read there.
proof fn lemma_page_bytes_at(s: Seq<u8>, at: int)
    requires
        0 <= at,
        at + 8 <= s.len(),
    ensures
        page_bytes(page_at(s, at)) == s.subrange(at, at + 8),
{
    lemma_u32_bytes_at(s, at);
    lemma_u32_bytes_at(s, at + 4);
    assert(s.subrange(at, at + 4) + s.subrange(at + 4, at + 8) =~= s.subrange(at, at + 8));
}

/// The bytes from `at` on are the layout of the `n` tuples read there.
proof fn lemma_tuples_bytes_at(s: Seq<u8>, at: int, n: nat)
    requires
        0 <= at,
        at + 6 * n <= s.len(),
    ensures
        tuples_bytes(Seq::new(n, |i: int| tuple_at(s, at + 6 * i))) == s.subrange(
            at,
            at + 6 * n as int,
        ),
{
    let ts = Seq::new(n, |i: int| tuple_at(s, at + 6 * i));
    let part = s.subrange(at, at + 6 * n as int);
    assert forall|j: int| 0 <= j < 6 * n implies tuples_bytes(ts)[j] == part[j] by {
        let i = j / 6;
        let k = j % 6;
        assert(0 <= i < n && 0 <= k < 6 && j == 6 * i + k);
        lemma_tuple_bytes_at(s, at + 6 * i);
        assert(s.subrange(at + 6 * i, at + 6 * i + 6)[k] == s[at + j]);
    }
    assert(tuples_bytes(ts) =~= part);
}

/// The bytes from `at` on are the layout of the `n` pages read there.
proof fn lemma_pages_bytes_at(s: Seq<u8>, at: int, n: nat)
    requires
        0 <= at,
        at + 8 * n <= s.len(),
    ensures
        pages_bytes(Seq::new(n, |i: int| page_at(s, at + 8 * i))) == s.subrange(
            at,
            at + 8 * n as int,
        ),
{
    let ps = Seq::new(n, |i: int| page_at(s, at + 8 * i));
    let part = s.subrange(at, at + 8 * n as int);
    assert forall|j: int| 0 <= j < 8 * n implies pages_bytes(ps)[j] == part[j] by {
        let i = j / 8;
        let k = j % 8;
        assert(0 <= i < n && 0 <= k < 8 && j == 8 * i + k);
        lemma_page_bytes_at(s, at + 8 * i);
        assert(s.subrange(at + 8 * i, at + 8 * i + 8)[k] == s[at + j]);
    }
    assert(pages_bytes(ps) =~= part);
}

/// A record that is read from `s` is encoded by `s`.
#[verifier::rlimit(40)]
pub proof fn lemma_relation_is_its_bytes(s: Seq<u8>)
    ensures
        decode_relation(s) matches Ok(r) ==> {
            &&& r.wire_len() == s.len()
            &&& relation_extent(s) == s.len()
            &&& r.encode() == s
        },
{
    if let Ok(r) = decode_relation(s) {
        let body = s.skip(1);
        match r {
            RelationView::Table { oid, commit_sequence_number, tuples } => {
                let n = ((body.len() - 8) / 6) as nat;
                assert(tuples.len() == n);
                assert(body.len() == 8 + 6 * n);
                lemma_u32_bytes_at(body, 0);
                lemma_u32_bytes_at(body, 4);
                lemma_tuples_bytes_at(body, 8, n);
                assert(seq![TABLE_TAG] + body.subrange(0, 4) + body.subrange(4, 8)
                    + body.subrange(8, 8 + 6 * n as int) =~= s);
            },
            RelationView::Index { oid, pages } => {
                let n = ((body.len() - 4) / 8) as nat;
                assert(pages.len() == n);
                assert(body.len() == 4 + 8 * n);
                lemma_u32_bytes_at(body, 0);
                lemma_pages_bytes_at(body, 4, n);
                assert(seq![INDEX_TAG] + body.subrange(0, 4) + body.subrange(4, 4 + 8 * n as int)
                    =~= s);
            },
        }
    }
}

/// Only encodings are accepted: bytes that mean a transaction are the
/// encoding of that transaction, and the transaction is valid. So no byte
/// string is taken for a transaction other than the one it encodes, and an
/// accepted change-set is as long as its header and the payload length
/// that the header declares.
pub proof fn lemma_accepted_is_encoding(s: Seq<u8>)
    ensures
        decode_transaction(s) matches Ok(t) ==> {
            &&& t.valid()
            &&& t.encode() == s
            &&& s.len() == 12 + u32_at(s, 8)
        },
{
    if let Ok(t) = decode_transaction(s) {
        let record = s.skip(12);
        lemma_relation_is_its_bytes(record);
        lemma_u32_bytes_at(s, 0);
        lemma_u32_bytes_at(s, 4);
        lemma_u32_bytes_at(s, 8);
        assert(s.subrange(0, 4) + s.subrange(4, 8) + s.subrange(8, 12) + record =~= s);
    }
}

} // verus!
