use bytes::Bytes;
use xactserver::transaction::{DecodeError, Page, Relation, Transaction, Tuple};

fn sample() -> Transaction {
    Transaction {
        database_id: 5,
        origin_xid: 42,
        relations: vec![Relation::Table {
            oid: 100,
            commit_sequence_number: 7,
            tuples: vec![Tuple { block_number: 3, offset: 1 }],
        }],
    }
}

fn sample_bytes() -> Vec<u8> {
    vec![
        0, 0, 0, 5, 0, 0, 0, 42, 0, 0, 0, 15, b'T', 0, 0, 0, 100, 0, 0, 0, 7, 0, 0, 0, 3, 0, 1,
    ]
}

fn table() -> Transaction {
    Transaction {
        database_id: 0x0102_0304,
        origin_xid: 0xfffe_fdfc,
        relations: vec![Relation::Table {
            oid: 16384,
            commit_sequence_number: 0x8000_0001,
            tuples: vec![
                Tuple { block_number: 0, offset: 0 },
                Tuple { block_number: 0xffff_ffff, offset: 0xffff },
                Tuple { block_number: 0x5449_5449, offset: 0x0102 },
            ],
        }],
    }
}

fn index() -> Transaction {
    Transaction {
        database_id: 7,
        origin_xid: 8,
        relations: vec![Relation::Index {
            oid: 0x1122_3344,
            pages: vec![
                Page { block_number: 1, commit_sequence_number: 2 },
                Page { block_number: 0x5566_7788, commit_sequence_number: 0x99aa_bbcc },
                Page { block_number: 0x5400_0000, commit_sequence_number: 0x4900_0000 },
            ],
        }],
    }
}

fn decode(bytes: &[u8]) -> Result<Transaction, DecodeError> {
    let mut buf = Bytes::copy_from_slice(bytes);
    Transaction::read(&mut buf)
}

#[test]
fn encode_gives_the_documented_bytes() {
    assert_eq!(sample().encode(), Some(sample_bytes()));
    assert_eq!(sample_bytes().len(), 27);
}

#[test]
fn read_decodes_the_documented_bytes() {
    assert_eq!(decode(&sample_bytes()), Ok(sample()));
}

#[test]
fn read_consumes_a_sound_buffer() {
    let mut buf = Bytes::from(sample_bytes());
    assert!(Transaction::read(&mut buf).is_ok());
    assert_eq!(buf.len(), 0);
    let mut buf = Bytes::from(index().encode().unwrap());
    assert!(Transaction::read(&mut buf).is_ok());
    assert_eq!(buf.len(), 0);
}

#[test]
fn single_index_record_has_no_count() {
    let bytes = [
        0, 0, 0, 1, 0, 0, 0, 2, 0, 0, 0, 13, b'I', 0, 0, 0, 9, 0, 0, 0, 4, 0, 0, 0, 6,
    ];
    let t = Transaction {
        database_id: 1,
        origin_xid: 2,
        relations: vec![Relation::Index {
            oid: 9,
            pages: vec![Page { block_number: 4, commit_sequence_number: 6 }],
        }],
    };
    assert_eq!(decode(&bytes), Ok(t.clone()));
    assert_eq!(t.encode(), Some(bytes.to_vec()));
}

#[test]
fn table_record_without_tuples_is_kept() {
    let bytes = [0, 0, 0, 5, 0, 0, 0, 42, 0, 0, 0, 9, b'T', 0, 0, 0, 100, 0, 0, 0, 7];
    let t = Transaction {
        database_id: 5,
        origin_xid: 42,
        relations: vec![Relation::Table { oid: 100, commit_sequence_number: 7, tuples: vec![] }],
    };
    assert_eq!(decode(&bytes), Ok(t.clone()));
    assert_eq!(t.encode(), Some(bytes.to_vec()));
}

#[test]
fn index_record_without_pages_is_kept() {
    let bytes = [0, 0, 0, 5, 0, 0, 0, 42, 0, 0, 0, 5, b'I', 0, 0, 0, 9];
    let t = Transaction {
        database_id: 5,
        origin_xid: 42,
        relations: vec![Relation::Index { oid: 9, pages: vec![] }],
    };
    assert_eq!(decode(&bytes), Ok(t.clone()));
    assert_eq!(t.encode(), Some(bytes.to_vec()));
}

#[test]
fn integers_are_big_endian() {
    let t = Transaction {
        database_id: 0x0102_0304,
        origin_xid: 0x0506_0708,
        relations: vec![Relation::Index {
            oid: 0x1112_1314,
            pages: vec![Page { block_number: 0x2122_2324, commit_sequence_number: 0x3132_3334 }],
        }],
    };
    let bytes = t.encode().unwrap();
    assert_eq!(
        bytes,
        vec![
            1, 2, 3, 4, 5, 6, 7, 8, 0, 0, 0, 13, b'I', 0x11, 0x12, 0x13, 0x14, 0x21, 0x22, 0x23,
            0x24, 0x31, 0x32, 0x33, 0x34,
        ]
    );
    assert_eq!(decode(&bytes), Ok(t));
}

#[test]
fn tuple_offset_is_a_big_endian_u16() {
    let mut bytes = sample_bytes();
    let last = bytes.len() - 1;
    bytes[last - 1] = 0x12;
    bytes[last] = 0x34;
    let t = decode(&bytes).unwrap();
    assert_eq!(
        t.relations,
        vec![Relation::Table {
            oid: 100,
            commit_sequence_number: 7,
            tuples: vec![Tuple { block_number: 3, offset: 0x1234 }],
        }]
    );
}

#[test]
fn round_trip_of_a_table_and_of_an_index() {
    let bytes = table().encode().unwrap();
    assert_eq!(bytes.len(), 12 + 9 + 3 * 6);
    assert_eq!(&bytes[8..12], &[0u8, 0, 0, 27][..]);
    assert_eq!(decode(&bytes), Ok(table()));
    let bytes = index().encode().unwrap();
    assert_eq!(bytes.len(), 12 + 5 + 3 * 8);
    assert_eq!(&bytes[8..12], &[0u8, 0, 0, 29][..]);
    assert_eq!(decode(&bytes), Ok(index()));
}

#[test]
fn round_trip_of_long_records() {
    for count in [1usize, 2, 5, 6, 7, 8, 100, 1000] {
        let tuples: Vec<Tuple> = (0..count)
            .map(|i| Tuple { block_number: (i as u32).wrapping_mul(0x0101_0101), offset: i as u16 })
            .collect();
        let t = Transaction {
            database_id: 1,
            origin_xid: 2,
            relations: vec![Relation::Table { oid: 3, commit_sequence_number: 4, tuples }],
        };
        let bytes = t.encode().unwrap();
        assert_eq!(bytes.len(), 12 + 9 + 6 * count);
        assert_eq!(decode(&bytes), Ok(t));
        let pages: Vec<Page> = (0..count)
            .map(|i| Page { block_number: i as u32, commit_sequence_number: !(i as u32) })
            .collect();
        let t = Transaction {
            database_id: 1,
            origin_xid: 2,
            relations: vec![Relation::Index { oid: 3, pages }],
        };
        let bytes = t.encode().unwrap();
        assert_eq!(bytes.len(), 12 + 5 + 8 * count);
        assert_eq!(decode(&bytes), Ok(t));
    }
}

#[test]
fn decoded_bytes_encode_to_themselves() {
    for bytes in [sample_bytes(), table().encode().unwrap(), index().encode().unwrap()] {
        let again = decode(&bytes).unwrap().encode().unwrap();
        assert_eq!(again, bytes);
    }
}

#[test]
fn accepted_buffer_is_as_long_as_its_header_says() {
    for bytes in [sample_bytes(), table().encode().unwrap(), index().encode().unwrap()] {
        let declared = u32::from_be_bytes([bytes[8], bytes[9], bytes[10], bytes[11]]);
        assert_eq!(bytes.len(), 12 + declared as usize);
    }
}

#[test]
fn payload_length_is_a_length_in_all_its_bits() {
    let bytes = [
        0u8, 0, 0, 0, 0, 0, 0, 0, 0x80, 0, 0, 9, b'T', 0, 0, 0, 1, 0, 0, 0, 2, 0, 0, 0, 9, b'T', 0,
        0, 0, 3, 0, 0, 0, 4,
    ];
    assert_eq!(bytes.len(), 34);
    assert_eq!(decode(&bytes), Err(DecodeError::TruncatedPayload));
    let mut bytes = sample_bytes();
    bytes[8] = 0xff;
    assert_eq!(decode(&bytes), Err(DecodeError::TruncatedPayload));
}

#[test]
fn several_relations_do_not_encode() {
    let mut t = table();
    t.relations.push(index().relations[0].clone());
    assert_eq!(t.encode(), None);
    t.relations.push(sample().relations[0].clone());
    assert_eq!(t.encode(), None);
}

#[test]
fn bytes_of_two_records_are_read_as_one() {
    let two = [
        0u8, 0, 0, 1, 0, 0, 0, 2, 0, 0, 0, 27, b'T', 0, 0, 0, 3, 0, 0, 0, 4, 0, 0, 0, 0, 0, 0,
        b'T', 0, 0, 0, 5, 0, 0, 0, 6, 0, 0, 0,
    ];
    let t = decode(&two).unwrap();
    assert_eq!(t.relations.len(), 1);
    assert_eq!(
        t.relations[0],
        Relation::Table {
            oid: 3,
            commit_sequence_number: 4,
            tuples: vec![
                Tuple { block_number: 0, offset: 0 },
                Tuple { block_number: 0x5400_0000, offset: 0x0500 },
                Tuple { block_number: 0x0600, offset: 0 },
            ],
        }
    );
}

#[test]
fn every_truncation_is_refused() {
    for bytes in [sample_bytes(), table().encode().unwrap(), index().encode().unwrap()] {
        for cut in 0..bytes.len() {
            let expected = if cut < 12 {
                DecodeError::TruncatedHeader
            } else {
                DecodeError::TruncatedPayload
            };
            assert_eq!(decode(&bytes[..cut]), Err(expected));
        }
    }
}

#[test]
fn empty_buffer_is_a_truncated_header() {
    assert_eq!(decode(&[]), Err(DecodeError::TruncatedHeader));
}

#[test]
fn short_header_leaves_the_buffer_alone() {
    let mut buf = Bytes::from(vec![0u8, 0, 0, 5, 0, 0, 0, 42, 0, 0, 0]);
    assert_eq!(Transaction::read(&mut buf), Err(DecodeError::TruncatedHeader));
    assert_eq!(buf.len(), 11);
}

#[test]
fn every_foreign_tag_is_refused() {
    for bytes in [sample_bytes(), table().encode().unwrap(), index().encode().unwrap()] {
        assert!(bytes[12] == b'T' || bytes[12] == b'I');
        for tag in 0..=255u8 {
            if tag == b'T' || tag == b'I' {
                continue;
            }
            let mut changed = bytes.clone();
            changed[12] = tag;
            assert_eq!(decode(&changed), Err(DecodeError::UnknownRelationKind(tag)));
        }
    }
}

#[test]
fn lower_case_tag_is_refused() {
    let mut bytes = sample_bytes();
    bytes[12] = b't';
    assert_eq!(decode(&bytes), Err(DecodeError::UnknownRelationKind(b't')));
}

#[test]
fn trailing_bytes_are_refused() {
    let mut bytes = sample_bytes();
    bytes.push(0);
    assert_eq!(decode(&bytes), Err(DecodeError::TrailingBytes));
    let mut buf = Bytes::from(bytes);
    assert_eq!(Transaction::read(&mut buf), Err(DecodeError::TrailingBytes));
    assert_eq!(buf.len(), 16);
    let mut bytes = index().encode().unwrap();
    bytes.extend_from_slice(&[0, 0, 0, 5, b'I', 0, 0, 0, 1]);
    assert_eq!(decode(&bytes), Err(DecodeError::TrailingBytes));
}

#[test]
fn header_faults_come_before_record_faults() {
    let mut bytes = sample_bytes();
    bytes[12] = b'X';
    bytes.push(0);
    assert_eq!(decode(&bytes), Err(DecodeError::TrailingBytes));
    bytes.truncate(20);
    assert_eq!(decode(&bytes), Err(DecodeError::TruncatedPayload));
}

#[test]
fn empty_payload_is_refused() {
    assert_eq!(decode(&[0, 0, 0, 5, 0, 0, 0, 42, 0, 0, 0, 0]), Err(DecodeError::EmptyPayload));
    let mut buf = Bytes::from(vec![0u8, 0, 0, 5, 0, 0, 0, 42, 0, 0, 0, 0]);
    assert_eq!(Transaction::read(&mut buf), Err(DecodeError::EmptyPayload));
    assert_eq!(buf.len(), 0);
}

#[test]
fn declared_payload_longer_than_buffer_is_refused() {
    let mut bytes = sample_bytes();
    bytes[11] = 16;
    assert_eq!(decode(&bytes), Err(DecodeError::TruncatedPayload));
    assert_eq!(
        decode(&[0, 0, 0, 5, 0, 0, 0, 42, 0, 0, 0, 1]),
        Err(DecodeError::TruncatedPayload)
    );
    let mut buf = Bytes::from(bytes);
    assert_eq!(Transaction::read(&mut buf), Err(DecodeError::TruncatedPayload));
    assert_eq!(buf.len(), 15);
}

#[test]
fn record_that_ends_within_a_tuple_is_refused() {
    for cut in 1..6 {
        let mut bytes = sample_bytes();
        bytes.truncate(27 - cut);
        bytes[11] = 15 - cut as u8;
        assert_eq!(decode(&bytes), Err(DecodeError::TruncatedRecord));
    }
}

#[test]
fn record_that_ends_within_a_page_is_refused() {
    for extra in 1..8 {
        let mut bytes = vec![0, 0, 0, 1, 0, 0, 0, 2, 0, 0, 0, 5 + extra, b'I', 0, 0, 0, 5];
        bytes.extend(std::iter::repeat(9).take(extra as usize));
        assert_eq!(decode(&bytes), Err(DecodeError::TruncatedRecord));
    }
}

#[test]
fn record_that_ends_within_its_fixed_part_is_refused() {
    let bytes = [0, 0, 0, 1, 0, 0, 0, 2, 0, 0, 0, 5, b'T', 0, 0, 0, 3];
    assert_eq!(decode(&bytes), Err(DecodeError::TruncatedRecord));
    let bytes = [0, 0, 0, 1, 0, 0, 0, 2, 0, 0, 0, 1, b'I'];
    assert_eq!(decode(&bytes), Err(DecodeError::TruncatedRecord));
    let bytes = [0, 0, 0, 1, 0, 0, 0, 2, 0, 0, 0, 4, b'I', 0, 0, 0];
    assert_eq!(decode(&bytes), Err(DecodeError::TruncatedRecord));
}

#[test]
fn fault_in_the_record_uses_the_buffer_up() {
    let mut bytes = index().encode().unwrap();
    bytes[12] = b'X';
    let mut buf = Bytes::from(bytes);
    assert_eq!(Transaction::read(&mut buf), Err(DecodeError::UnknownRelationKind(b'X')));
    assert_eq!(buf.len(), 0);
}

#[test]
fn transaction_without_relations_does_not_encode() {
    let t = Transaction { database_id: 1, origin_xid: 2, relations: vec![] };
    assert_eq!(t.encode(), None);
}

#[test]
fn parse_reads_the_record_that_the_buffer_holds() {
    let bytes = table().encode().unwrap();
    let mut buf = Bytes::copy_from_slice(&bytes[12..]);
    assert_eq!(Relation::parse(&mut buf), Ok(table().relations[0].clone()));
    assert_eq!(buf.len(), 0);
    let mut buf = Bytes::copy_from_slice(&sample_bytes()[12..]);
    assert_eq!(Relation::parse(&mut buf), Ok(sample().relations[0].clone()));
    assert_eq!(buf.len(), 0);
    let mut buf = Bytes::from(vec![b'I', 0, 0, 0, 9]);
    assert_eq!(Relation::parse(&mut buf), Ok(Relation::Index { oid: 9, pages: vec![] }));
    assert_eq!(buf.len(), 0);
}

#[test]
fn parse_takes_every_tuple_to_the_end() {
    let mut bytes = vec![b'T', 0, 0, 0, 1, 0, 0, 0, 2];
    let mut tuples = Vec::new();
    for i in 0..50u8 {
        bytes.extend_from_slice(&[b'T', i, b'I', i, i, 1]);
        tuples.push(Tuple {
            block_number: u32::from_be_bytes([b'T', i, b'I', i]),
            offset: u16::from_be_bytes([i, 1]),
        });
    }
    let mut buf = Bytes::from(bytes);
    assert_eq!(
        Relation::parse(&mut buf),
        Ok(Relation::Table { oid: 1, commit_sequence_number: 2, tuples })
    );
    assert_eq!(buf.len(), 0);
}

#[test]
fn parse_of_nothing_is_a_truncated_record() {
    let mut buf = Bytes::new();
    assert_eq!(Relation::parse(&mut buf), Err(DecodeError::TruncatedRecord));
}

#[test]
fn parse_stops_behind_a_foreign_tag() {
    let mut buf = Bytes::from(vec![b'Q', 1, 2, 3]);
    assert_eq!(Relation::parse(&mut buf), Err(DecodeError::UnknownRelationKind(b'Q')));
    assert_eq!(&buf[..], &[1u8, 2, 3][..]);
}

#[test]
fn parse_stops_behind_the_fixed_part_of_an_uneven_record() {
    let mut buf = Bytes::from(vec![b'T', 0, 0, 0, 1, 0, 0, 0, 2, 9, 9, 9, 9, 9]);
    assert_eq!(Relation::parse(&mut buf), Err(DecodeError::TruncatedRecord));
    assert_eq!(&buf[..], &[9u8, 9, 9, 9, 9][..]);
    let mut buf = Bytes::from(vec![b'I', 0, 0, 0, 1, 7, 7, 7]);
    assert_eq!(Relation::parse(&mut buf), Err(DecodeError::TruncatedRecord));
    assert_eq!(&buf[..], &[7u8, 7, 7][..]);
    let mut buf = Bytes::from(vec![b'I', 0, 0]);
    assert_eq!(Relation::parse(&mut buf), Err(DecodeError::TruncatedRecord));
    assert_eq!(&buf[..], &[0u8, 0][..]);
}

#[test]
fn decode_faults_in_words() {
    assert_eq!(DecodeError::TruncatedHeader.message(), "buffer too short");
    assert_eq!(DecodeError::TruncatedPayload.message(), "read section too short");
    assert_eq!(DecodeError::TrailingBytes.message(), "bytes after the read section");
    assert_eq!(DecodeError::EmptyPayload.message(), "read section is empty");
    assert_eq!(DecodeError::TruncatedRecord.message(), "relation record too short");
    assert_eq!(DecodeError::UnknownRelationKind(88).message(), "invalid relation type: 88");
    assert_eq!(DecodeError::UnknownRelationKind(0).message(), "invalid relation type: 0");
    assert_eq!(DecodeError::UnknownRelationKind(255).message(), "invalid relation type: 255");
}
